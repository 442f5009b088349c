//! Search preferences, saved filters and alerts, and how their lists are
//! written to and read from the store.
//!
//! A list of texts is stored in one column, as a JSON array of strings.

use crate::text::texts;
use vstd::prelude::*;

verus! {

/// What a user searches for by default.
#[derive(Debug)]
pub struct SearchPreference {
    pub id: String,
    pub user_id: String,
    pub keywords: Option<String>,
    pub location: Option<String>,
    pub salary_min: Option<i32>,
    pub salary_max: Option<i32>,
    pub contract_types: Vec<String>,
    pub experience_levels: Vec<String>,
    pub remote: Option<bool>,
    pub skills: Vec<String>,
}

/// A search that a user has saved under a name.
#[derive(Debug)]
pub struct SavedFilter {
    pub id: String,
    pub user_id: String,
    pub name: String,
    pub keywords: Option<String>,
    pub location: Option<String>,
    pub salary_min: Option<i32>,
    pub salary_max: Option<i32>,
    pub contract_types: Vec<String>,
    pub experience_levels: Vec<String>,
    pub remote: Option<bool>,
    pub skills: Vec<String>,
}

/// A saved filter that is run for the user from time to time.
#[derive(Debug)]
pub struct SearchAlert {
    pub id: String,
    pub user_id: String,
    pub filter_id: String,
    pub frequency: String,
    pub last_notification: Option<String>,
    pub is_active: bool,
}

/// The three list columns of a preference or a filter, as stored.
#[derive(Debug)]
pub struct ListColumns {
    pub contract_types: String,
    pub experience_levels: String,
    pub skills: String,
}

/// The list of texts that a JSON text stands for, as `serde_json` reads
/// it; `None` for a text that is no JSON array of strings.
pub uninterp spec fn list_of_json(json: Seq<char>) -> Option<Seq<Seq<char>>>;

/// The JSON text that `serde_json` writes for a list of texts, or the
/// words of its refusal.
pub uninterp spec fn json_of_list(list: Seq<Seq<char>>) -> Result<Seq<char>, Seq<char>>;

/// `serde_json::from_str` for a list of strings. The result is a function
/// of the text alone and is known here only by its name.
#[verifier::external_body]
pub(crate) fn decode_list(json: &str) -> (list: Option<Vec<String>>)
    ensures
        match list {
            Some(l) => list_of_json(json@) == Some(texts(l@)),
            None => list_of_json(json@) is None,
        },
{
    match serde_json::from_str::<Vec<String>>(json) {
        Ok(list) => Some(list),
        Err(_) => None,
    }
}

/// `serde_json::to_string` for a list of strings, with a refusal given in
/// its own words. The result is a function of the list alone and is known
/// here only by its name.
#[verifier::external_body]
fn encode_list(list: &Vec<String>) -> (json: Result<String, String>)
    ensures
        match json {
            Ok(text) => json_of_list(texts(list@)) == Ok::<Seq<char>, Seq<char>>(text@),
            Err(msg) => json_of_list(texts(list@)) == Err::<Seq<char>, Seq<char>>(msg@),
        },
{
    match serde_json::to_string(list) {
        Ok(text) => Ok(text),
        Err(e) => Err(e.to_string()),
    }
}

/// The list that was read, or the empty list where none could be read.
pub fn list_or_empty(parsed: Option<Vec<String>>) -> (list: Vec<String>)
    ensures
        match parsed {
            Some(l) => list == l,
            None => list@ == Seq::<String>::empty(),
        },
{
    match parsed {
        Some(l) => l,
        None => Vec::new(),
    }
}

/// The list that a stored column stands for. A column that cannot be read
/// counts as the empty list.
pub open spec fn stored_list(json: Seq<char>) -> Seq<Seq<char>> {
    match list_of_json(json) {
        Some(l) => l,
        None => Seq::empty(),
    }
}

/// Reads a list from its column.
pub fn read_list(json: &str) -> (list: Vec<String>)
    ensures
        texts(list@) == stored_list(json@),
{
    list_or_empty(decode_list(json))
}

/// What writing the three lists comes to, given what encoding each came
/// to: the three columns, or the first refusal in the order contract
/// types, experience levels, skills.
pub fn columns_outcome(
    contract_types: Result<String, String>,
    experience_levels: Result<String, String>,
    skills: Result<String, String>,
) -> (res: Result<ListColumns, String>)
    ensures
        match (contract_types, experience_levels, skills) {
            (Ok(c), Ok(e), Ok(s)) => res == Ok::<ListColumns, String>(
                ListColumns { contract_types: c, experience_levels: e, skills: s },
            ),
            (Err(msg), _, _) => res == Err::<ListColumns, String>(msg),
            (Ok(_), Err(msg), _) => res == Err::<ListColumns, String>(msg),
            (Ok(_), Ok(_), Err(msg)) => res == Err::<ListColumns, String>(msg),
        },
{
    match contract_types {
        Err(msg) => Err(msg),
        Ok(c) => match experience_levels {
            Err(msg) => Err(msg),
            Ok(e) => match skills {
                Err(msg) => Err(msg),
                Ok(s) => Ok(ListColumns { contract_types: c, experience_levels: e, skills: s }),
            },
        },
    }
}

/// What the columns for three lists are owed to be.
pub open spec fn columns_of(
    contract_types: Seq<Seq<char>>,
    experience_levels: Seq<Seq<char>>,
    skills: Seq<Seq<char>>,
    res: Result<ListColumns, String>,
) -> bool {
    match (json_of_list(contract_types), json_of_list(experience_levels), json_of_list(skills)) {
        (Ok(c), Ok(e), Ok(s)) => res matches Ok(columns) && columns.contract_types@ == c
            && columns.experience_levels@ == e && columns.skills@ == s,
        (Err(msg), _, _) => res matches Err(m) && m@ == msg,
        (Ok(_), Err(msg), _) => res matches Err(m) && m@ == msg,
        (Ok(_), Ok(_), Err(msg)) => res matches Err(m) && m@ == msg,
    }
}

fn write_lists(
    contract_types: &Vec<String>,
    experience_levels: &Vec<String>,
    skills: &Vec<String>,
) -> (res: Result<ListColumns, String>)
    ensures
        columns_of(texts(contract_types@), texts(experience_levels@), texts(skills@), res),
{
    columns_outcome(
        encode_list(contract_types),
        encode_list(experience_levels),
        encode_list(skills),
    )
}

impl SearchPreference {
    /// The preference's lists as they are stored.
    pub fn list_columns(&self) -> (res: Result<ListColumns, String>)
        ensures
            columns_of(
                texts(self.contract_types@),
                texts(self.experience_levels@),
                texts(self.skills@),
                res,
            ),
    {
        write_lists(&self.contract_types, &self.experience_levels, &self.skills)
    }
}

impl SavedFilter {
    /// The filter's lists as they are stored.
    pub fn list_columns(&self) -> (res: Result<ListColumns, String>)
        ensures
            columns_of(
                texts(self.contract_types@),
                texts(self.experience_levels@),
                texts(self.skills@),
                res,
            ),
    {
        write_lists(&self.contract_types, &self.experience_levels, &self.skills)
    }

    /// The filter that a stored row stands for.
    pub fn from_columns(
        id: String,
        user_id: String,
        name: String,
        keywords: Option<String>,
        location: Option<String>,
        salary_min: Option<i32>,
        salary_max: Option<i32>,
        remote: Option<bool>,
        lists: &ListColumns,
    ) -> (filter: SavedFilter)
        ensures
            filter.id == id,
            filter.user_id == user_id,
            filter.name == name,
            filter.keywords == keywords,
            filter.location == location,
            filter.salary_min == salary_min,
            filter.salary_max == salary_max,
            filter.remote == remote,
            texts(filter.contract_types@) == stored_list(lists.contract_types@),
            texts(filter.experience_levels@) == stored_list(lists.experience_levels@),
            texts(filter.skills@) == stored_list(lists.skills@),
    {
        SavedFilter {
            id,
            user_id,
            name,
            keywords,
            location,
            salary_min,
            salary_max,
            contract_types: read_list(lists.contract_types.as_str()),
            experience_levels: read_list(lists.experience_levels.as_str()),
            remote,
            skills: read_list(lists.skills.as_str()),
        }
    }
}

impl SearchPreference {
    /// The preference that a stored row stands for.
    pub fn from_columns(
        id: String,
        user_id: String,
        keywords: Option<String>,
        location: Option<String>,
        salary_min: Option<i32>,
        salary_max: Option<i32>,
        remote: Option<bool>,
        lists: &ListColumns,
    ) -> (preference: SearchPreference)
        ensures
            preference.id == id,
            preference.user_id == user_id,
            preference.keywords == keywords,
            preference.location == location,
            preference.salary_min == salary_min,
            preference.salary_max == salary_max,
            preference.remote == remote,
            texts(preference.contract_types@) == stored_list(lists.contract_types@),
            texts(preference.experience_levels@) == stored_list(lists.experience_levels@),
            texts(preference.skills@) == stored_list(lists.skills@),
    {
        SearchPreference {
            id,
            user_id,
            keywords,
            location,
            salary_min,
            salary_max,
            contract_types: read_list(lists.contract_types.as_str()),
            experience_levels: read_list(lists.experience_levels.as_str()),
            remote,
            skills: read_list(lists.skills.as_str()),
        }
    }
}

/// What is said when a user has no search preferences.
pub fn require_preference(found: Option<SearchPreference>) -> (res: Result<
    SearchPreference,
    String,
>)
    ensures
        match found {
            Some(p) => res == Ok::<SearchPreference, String>(p),
            None => res matches Err(msg) && msg@ == "No search preferences found"@,
        },
{
    match found {
        Some(p) => Ok(p),
        None => Err("No search preferences found".to_owned()),
    }
}

} // verus!
