//! Validated value types: email addresses, phone numbers, document kinds.

use crate::text::{contains_char, lowercase_of, same_text, to_lowercase};
use std::str::FromStr;
use vstd::prelude::*;

verus! {

/// Why a value was not accepted.
#[derive(Debug, Clone, Copy, PartialEq, Eq, Structural)]
pub enum ValidationError {
    InvalidEmail,
    InvalidPhone,
    InvalidDocumentType,
}

impl ValidationError {
    /// The error in words.
    pub open spec fn message(self) -> Seq<char> {
        match self {
            ValidationError::InvalidEmail => "Invalid email format"@,
            ValidationError::InvalidPhone => "Invalid phone number format"@,
            ValidationError::InvalidDocumentType => "Invalid document type"@,
        }
    }

    /// The error in words.
    pub fn to_string(&self) -> (text: String)
        ensures
            text@ == self.message(),
    {
        match self {
            ValidationError::InvalidEmail => "Invalid email format".to_owned(),
            ValidationError::InvalidPhone => "Invalid phone number format".to_owned(),
            ValidationError::InvalidDocumentType => "Invalid document type".to_owned(),
        }
    }
}

/// An email address: a text that holds an `@`.
#[derive(Debug, Clone)]
pub struct Email(String);

impl View for Email {
    type V = Seq<char>;

    closed spec fn view(&self) -> Seq<char> {
        self.0@
    }
}

impl Email {
    /// Every `Email` that `new` or `from_str` gave holds an `@`.
    pub open spec fn wf(&self) -> bool {
        self@.contains('@')
    }

    /// Makes an address of a text that holds an `@`; refuses any other.
    pub fn new(email: String) -> (res: Result<Email, String>)
        ensures
            res is Ok <==> email@.contains('@'),
            res matches Ok(e) ==> e@ == email@ && e.wf(),
            res matches Err(msg) ==> msg@ == "Invalid email format"@,
    {
        if contains_char(email.as_str(), '@') {
            Ok(Email(email))
        } else {
            Err("Invalid email format".to_owned())
        }
    }

    /// The text as it was given.
    pub fn as_str(&self) -> (s: &str)
        ensures
            s@ == self@,
    {
        self.0.as_str()
    }

    /// The address as an owned string.
    pub fn to_string(&self) -> (text: String)
        ensures
            text@ == self@,
    {
        self.0.clone()
    }

    /// Reads an address from a text, as `new` does, with the refusal given
    /// as a `ValidationError`.
    pub fn parse(s: &str) -> (res: Result<Email, ValidationError>)
        ensures
            res is Ok <==> s@.contains('@'),
            res matches Ok(e) ==> e@ == s@ && e.wf(),
            res matches Err(e) ==> e == ValidationError::InvalidEmail,
    {
        match Email::new(s.to_owned()) {
            Ok(email) => Ok(email),
            Err(_) => Err(ValidationError::InvalidEmail),
        }
    }
}

impl FromStr for Email {
    type Err = ValidationError;

    /// Reads an address from a text, as `parse` does.
    fn from_str(s: &str) -> (res: Result<Email, ValidationError>)
        ensures
            res is Ok <==> s@.contains('@'),
            res matches Ok(e) ==> e@ == s@ && e.wf(),
            res matches Err(e) ==> e == ValidationError::InvalidEmail,
    {
        Email::parse(s)
    }
}

/// The characters that a phone number may hold: decimal digits, `+`, space
/// and `-`.
pub open spec fn is_phone_char(c: char) -> bool {
    ('0' <= c && c <= '9') || c == '+' || c == ' ' || c == '-'
}

/// A text is a phone number when every character of it may stand in one;
/// the empty text is one.
pub open spec fn is_phone_number(s: Seq<char>) -> bool {
    forall|i: int| 0 <= i < s.len() ==> is_phone_char(#[trigger] s[i])
}

/// A phone number.
#[derive(Debug, Clone)]
pub struct PhoneNumber(String);

impl View for PhoneNumber {
    type V = Seq<char>;

    closed spec fn view(&self) -> Seq<char> {
        self.0@
    }
}

impl PhoneNumber {
    /// Every `PhoneNumber` that `new` gave is made of phone characters.
    pub open spec fn wf(&self) -> bool {
        is_phone_number(self@)
    }

    /// Makes a phone number of a text made of phone characters; refuses
    /// any other.
    pub fn new(phone: String) -> (res: Result<PhoneNumber, ValidationError>)
        ensures
            res is Ok <==> is_phone_number(phone@),
            res matches Ok(p) ==> p@ == phone@ && p.wf(),
            res matches Err(e) ==> e == ValidationError::InvalidPhone,
    {
        let mut all = true;
        for c in it: phone.as_str().chars()
            invariant
                it.seq() == phone@,
                all == forall|j: int| 0 <= j < it.index() ==> is_phone_char(#[trigger] phone@[j]),
        {
            if !((c >= '0' && c <= '9') || c == '+' || c == ' ' || c == '-') {
                all = false;
            }
        }
        if all {
            Ok(PhoneNumber(phone))
        } else {
            Err(ValidationError::InvalidPhone)
        }
    }

    /// The text as it was given.
    pub fn as_str(&self) -> (s: &str)
        ensures
            s@ == self@,
    {
        self.0.as_str()
    }

    /// The number as an owned string.
    pub fn to_string(&self) -> (text: String)
        ensures
            text@ == self@,
    {
        self.0.clone()
    }
}

/// The kind of a document.
#[derive(Debug, Clone)]
pub enum DocumentType {
    CV,
    CoverLetter,
    Portfolio,
    Reference,
    Other(String),
}

/// What a document kind is, mathematically.
pub enum DocumentKind {
    CV,
    CoverLetter,
    Portfolio,
    Reference,
    Other(Seq<char>),
}

/// The kind that a name stands for, given the name in lower case: the four
/// known names each give their kind, and any other name gives `Other` with
/// the name as it was written.
pub open spec fn kind_of(lower: Seq<char>, written: Seq<char>) -> DocumentKind {
    if lower == "cv"@ {
        DocumentKind::CV
    } else if lower == "cover_letter"@ {
        DocumentKind::CoverLetter
    } else if lower == "portfolio"@ {
        DocumentKind::Portfolio
    } else if lower == "reference"@ {
        DocumentKind::Reference
    } else {
        DocumentKind::Other(written)
    }
}

impl View for DocumentType {
    type V = DocumentKind;

    open spec fn view(&self) -> DocumentKind {
        match self {
            DocumentType::CV => DocumentKind::CV,
            DocumentType::CoverLetter => DocumentKind::CoverLetter,
            DocumentType::Portfolio => DocumentKind::Portfolio,
            DocumentType::Reference => DocumentKind::Reference,
            DocumentType::Other(s) => DocumentKind::Other(s@),
        }
    }
}

impl DocumentKind {
    /// The kind as it is shown.
    pub open spec fn label(self) -> Seq<char> {
        match self {
            DocumentKind::CV => "CV"@,
            DocumentKind::CoverLetter => "Cover Letter"@,
            DocumentKind::Portfolio => "Portfolio"@,
            DocumentKind::Reference => "Reference"@,
            DocumentKind::Other(s) => s,
        }
    }
}

impl DocumentType {
    /// The kind that `doc_type` names, whatever its case. Every name is
    /// accepted.
    pub fn new(doc_type: &str) -> (res: Result<DocumentType, ValidationError>)
        ensures
            res matches Ok(kind) && kind@ == kind_of(lowercase_of(doc_type@), doc_type@),
    {
        let lower = to_lowercase(doc_type);
        Ok(DocumentType::from_lowercase(lower.as_str(), doc_type))
    }

    /// The kind that a name stands for, given the name in lower case and as
    /// it was written.
    pub fn from_lowercase(lower: &str, written: &str) -> (kind: DocumentType)
        ensures
            kind@ == kind_of(lower@, written@),
    {
        if same_text(lower, "cv") {
            DocumentType::CV
        } else if same_text(lower, "cover_letter") {
            DocumentType::CoverLetter
        } else if same_text(lower, "portfolio") {
            DocumentType::Portfolio
        } else if same_text(lower, "reference") {
            DocumentType::Reference
        } else {
            DocumentType::Other(written.to_owned())
        }
    }

    /// The kind as it is shown.
    pub fn to_string(&self) -> (text: String)
        ensures
            text@ == self@.label(),
    {
        match self {
            DocumentType::CV => "CV".to_owned(),
            DocumentType::CoverLetter => "Cover Letter".to_owned(),
            DocumentType::Portfolio => "Portfolio".to_owned(),
            DocumentType::Reference => "Reference".to_owned(),
            DocumentType::Other(s) => s.clone(),
        }
    }
}

} // verus!
