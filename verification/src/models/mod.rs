//! The records that the application stores and exchanges.

pub mod decode;
pub mod document;
pub mod job;
pub mod types;
pub mod user;

use vstd::prelude::*;

verus! {

/// `std::path::PathBuf`: a path in the file system, carried as it is.
#[verifier::external_type_specification]
#[verifier::external_body]
pub struct ExPathBuf(std::path::PathBuf);

/// A search of the jobs by keywords and location, each optional.
#[derive(Debug)]
pub struct JobSearchRequest {
    pub keywords: Option<String>,
    pub location: Option<String>,
}

/// A user's curriculum vitae: the file, and what was read from it.
#[derive(Debug)]
pub struct CVInfo {
    pub path: std::path::PathBuf,
    pub last_updated: String,
    pub skills: Option<Vec<String>>,
    pub experience_years: Option<i32>,
    pub education: Option<Vec<Education>>,
    pub certifications: Option<Vec<String>>,
}

/// One course of studies.
#[derive(Debug)]
pub struct Education {
    pub institution: String,
    pub degree: String,
    pub field: String,
    pub start_year: i32,
    pub end_year: Option<i32>,
}

/// How a user wants the application to behave.
#[derive(Debug)]
pub struct UserPreferences {
    pub notifications: Option<bool>,
    pub dark_mode: Option<bool>,
    pub language: Option<String>,
    pub commute_mode: Option<String>,
}

/// The documents sent with an application.
#[derive(Debug)]
pub struct CardDocuments {
    pub cv: Option<String>,
    pub cover_letter: Option<String>,
}

/// An interview, and how it went.
#[derive(Debug)]
pub struct Interview {
    pub date: String,
    pub interview_type: String,
    pub notes: Option<String>,
    pub outcome: Option<String>,
}

/// A named group of weighted keywords to search by.
#[derive(Debug)]
pub struct SearchCategory {
    pub id: i64,
    pub name: String,
    pub keywords: Vec<KeywordWeight>,
    pub priority: Option<i32>,
}

/// A keyword, how much it counts, and whether a job must have it.
#[derive(Debug)]
pub struct KeywordWeight {
    pub keyword: String,
    pub weight: i32,
    pub required: Option<bool>,
}

/// A language model that documents can be generated with.
#[derive(Debug)]
pub struct LLMModel {
    pub name: String,
    pub max_tokens: i32,
    pub supports_json: Option<bool>,
    pub is_fine_tuned: Option<bool>,
}

/// What a user thought of a generated document.
#[derive(Debug)]
pub struct DocumentFeedback {
    pub rating: Option<i32>,
    pub comments: Option<String>,
}

} // verus!
