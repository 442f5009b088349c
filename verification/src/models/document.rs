//! What is needed to create a document, and to change one.

use crate::models::types::DocumentType;
use vstd::prelude::*;

verus! {

/// What is needed to create a document.
#[derive(Debug, Clone)]
pub struct NewDocument {
    pub user_id: String,
    pub name: String,
    pub document_type: DocumentType,
    pub size: i64,
    pub file_path: Option<String>,
    pub description: Option<String>,
}

/// A change to a document: each field that is given replaces the
/// document's, each that is not leaves it.
#[derive(Debug, Clone)]
pub struct UpdateDocument {
    pub name: Option<String>,
    pub document_type: Option<DocumentType>,
    pub size: Option<i64>,
    pub file_path: Option<String>,
    pub description: Option<String>,
}

} // verus!
