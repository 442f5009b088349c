use job_tracker::commands::search::{build_job_search, SearchRequest, JOB_SEARCH_HEAD};

fn no_filters() -> SearchRequest {
    SearchRequest { keyword: None, location: None, job_type: None, min_salary: None, max_salary: None }
}

const ORDER: &str = " ORDER BY relevance_score DESC, j.created_at DESC";

#[test]
fn head_has_four_placeholders() {
    assert_eq!(JOB_SEARCH_HEAD.matches('?').count(), 4);
    assert!(JOB_SEARCH_HEAD.contains("SELECT j.*,"));
    assert!(JOB_SEARCH_HEAD.contains("WHEN j.title LIKE ? THEN 2.0"));
    assert!(JOB_SEARCH_HEAD.contains("END as relevance_score"));
    assert!(JOB_SEARCH_HEAD.contains("WHERE 1=1"));
}

#[test]
fn search_without_filters_binds_four_empty_texts() {
    let q = build_job_search(no_filters());
    assert_eq!(q.sql, format!("{}{}", JOB_SEARCH_HEAD, ORDER));
    assert_eq!(q.params, vec!["", "", "", ""]);
}

#[test]
fn search_by_keyword_binds_the_keyword_and_its_pattern() {
    let q = build_job_search(SearchRequest { keyword: Some("rust".to_string()), ..no_filters() });
    assert_eq!(q.sql, format!("{}{}", JOB_SEARCH_HEAD, ORDER));
    assert_eq!(q.params, vec!["rust", "%rust%", "%rust%", "%rust%"]);
}

#[test]
fn search_with_every_filter() {
    let q = build_job_search(SearchRequest {
        keyword: Some("rust".to_string()),
        location: Some("Paris".to_string()),
        job_type: Some("CDI".to_string()),
        min_salary: Some("40000".to_string()),
        max_salary: Some("60000".to_string()),
    });
    assert_eq!(
        q.sql,
        format!(
            "{} AND j.location LIKE ? AND j.job_type = ? AND j.salary_max >= ? AND j.salary_min <= ?{}",
            JOB_SEARCH_HEAD, ORDER
        )
    );
    assert_eq!(
        q.params,
        vec!["rust", "%rust%", "%rust%", "%rust%", "%Paris%", "CDI", "40000", "60000"]
    );
    assert_eq!(q.sql.matches('?').count(), q.params.len());
}

#[test]
fn search_with_some_filters_keeps_their_order() {
    let q = build_job_search(SearchRequest {
        job_type: Some("CDD".to_string()),
        max_salary: Some("50000".to_string()),
        ..no_filters()
    });
    assert_eq!(
        q.sql,
        format!("{} AND j.job_type = ? AND j.salary_min <= ?{}", JOB_SEARCH_HEAD, ORDER)
    );
    assert_eq!(q.params, vec!["", "", "", "", "CDD", "50000"]);
    let q = build_job_search(SearchRequest {
        location: Some("Lyon".to_string()),
        min_salary: Some("30000".to_string()),
        ..no_filters()
    });
    assert_eq!(
        q.sql,
        format!("{} AND j.location LIKE ? AND j.salary_max >= ?{}", JOB_SEARCH_HEAD, ORDER)
    );
    assert_eq!(q.params, vec!["", "", "", "", "%Lyon%", "30000"]);
    assert_eq!(q.sql.matches('?').count(), q.params.len());
}
