use job_tracker::search_preferences::{
    columns_outcome, list_or_empty, read_list, require_preference, ListColumns, SavedFilter,
    SearchPreference,
};

fn columns(c: &str, e: &str, s: &str) -> ListColumns {
    ListColumns {
        contract_types: c.to_string(),
        experience_levels: e.to_string(),
        skills: s.to_string(),
    }
}

fn filter(lists: &ListColumns) -> SavedFilter {
    SavedFilter::from_columns(
        "f1".to_string(),
        "u1".to_string(),
        "mine".to_string(),
        Some("rust".to_string()),
        None,
        Some(40_000),
        None,
        Some(true),
        lists,
    )
}

#[test]
fn list_is_read_from_a_json_array() {
    assert_eq!(read_list(r#"["CDI","CDD"]"#), vec!["CDI", "CDD"]);
    assert_eq!(read_list(r#" [ "a b" , "é" ] "#), vec!["a b", "é"]);
    assert!(read_list("[]").is_empty());
}

#[test]
fn unreadable_list_counts_as_empty() {
    assert!(read_list("").is_empty());
    assert!(read_list("CDI").is_empty());
    assert!(read_list(r#"["CDI""#).is_empty());
    assert!(read_list(r#"["CDI", 3]"#).is_empty());
    assert!(read_list(r#"{"a": "b"}"#).is_empty());
    assert!(read_list("null").is_empty());
}

#[test]
fn list_or_empty_follows_the_reading() {
    assert_eq!(list_or_empty(Some(vec!["a".to_string()])), vec!["a"]);
    assert!(list_or_empty(None).is_empty());
}

#[test]
fn filter_is_built_from_its_row() {
    let f = filter(&columns(r#"["CDI"]"#, "oops", r#"["Rust","SQL"]"#));
    assert_eq!((f.id.as_str(), f.user_id.as_str(), f.name.as_str()), ("f1", "u1", "mine"));
    assert_eq!(f.keywords.as_deref(), Some("rust"));
    assert_eq!(f.location, None);
    assert_eq!((f.salary_min, f.salary_max, f.remote), (Some(40_000), None, Some(true)));
    assert_eq!(f.contract_types, vec!["CDI"]);
    assert!(f.experience_levels.is_empty());
    assert_eq!(f.skills, vec!["Rust", "SQL"]);
}

#[test]
fn preference_is_built_from_its_row() {
    let p = SearchPreference::from_columns(
        "pref-a".to_string(),
        "u1".to_string(),
        None,
        Some("Paris".to_string()),
        None,
        Some(70_000),
        None,
        &columns("[]", r#"["Senior"]"#, "not json"),
    );
    assert_eq!((p.id.as_str(), p.user_id.as_str()), ("pref-a", "u1"));
    assert_eq!(p.location.as_deref(), Some("Paris"));
    assert_eq!((p.salary_min, p.salary_max, p.remote), (None, Some(70_000), None));
    assert!(p.contract_types.is_empty());
    assert_eq!(p.experience_levels, vec!["Senior"]);
    assert!(p.skills.is_empty());
}

#[test]
fn lists_are_written_as_json_arrays() {
    let f = filter(&columns(r#"["CDI","CDD"]"#, "[]", r#"["a\"b"]"#));
    let written = f.list_columns().unwrap();
    assert_eq!(written.contract_types, r#"["CDI","CDD"]"#);
    assert_eq!(written.experience_levels, "[]");
    assert_eq!(written.skills, r#"["a\"b"]"#);
    let again = filter(&written);
    assert_eq!(again.contract_types, f.contract_types);
    assert_eq!(again.skills, f.skills);
}

#[test]
fn preference_lists_are_written_as_json_arrays() {
    let p = SearchPreference::from_columns(
        "pref-a".to_string(),
        "u1".to_string(),
        None,
        None,
        None,
        None,
        None,
        &columns(r#"["x"]"#, r#"["y"]"#, r#"["z"]"#),
    );
    let written = p.list_columns().unwrap();
    assert_eq!(
        (written.contract_types.as_str(), written.experience_levels.as_str(), written.skills.as_str()),
        (r#"["x"]"#, r#"["y"]"#, r#"["z"]"#)
    );
}

#[test]
fn first_refusal_to_encode_wins() {
    let ok = |s: &str| Ok(s.to_string());
    let err = |s: &str| Err(s.to_string());
    let all = columns_outcome(ok("a"), ok("b"), ok("c")).unwrap();
    assert_eq!(
        (all.contract_types.as_str(), all.experience_levels.as_str(), all.skills.as_str()),
        ("a", "b", "c")
    );
    assert_eq!(columns_outcome(err("1"), err("2"), err("3")).unwrap_err(), "1");
    assert_eq!(columns_outcome(ok("a"), err("2"), err("3")).unwrap_err(), "2");
    assert_eq!(columns_outcome(ok("a"), ok("b"), err("3")).unwrap_err(), "3");
    assert_eq!(columns_outcome(err("1"), ok("b"), ok("c")).unwrap_err(), "1");
}

#[test]
fn missing_preference_is_reported() {
    assert_eq!(require_preference(None).unwrap_err(), "No search preferences found");
    let p = SearchPreference::from_columns(
        "pref-a".to_string(),
        "u1".to_string(),
        None,
        None,
        None,
        None,
        None,
        &columns("[]", "[]", "[]"),
    );
    assert_eq!(require_preference(Some(p)).unwrap().id, "pref-a");
}
