//! Structured parse failures.
//!
//! Every parser in this crate fails rather than panics, and each failure
//! names the line or field that could not be located or read, so that a
//! caller can report what went wrong without inspecting the raw text.

use vstd::prelude::*;

verus! {

/// The mathematical shape of a parse failure: which kind, about which
/// subject.
pub enum SpecError {
    /// A required line was absent from the scanned text.
    MissingLine(Seq<char>),
    /// A required line was present but lacked the expected field.
    MissingField(Seq<char>),
    /// A field was present but did not read as the expected number, or its
    /// value was outside the range the reading admits.
    InvalidNumber(Seq<char>),
}

/// The message a failure renders to.
pub open spec fn spec_message(e: SpecError) -> Seq<char> {
    match e {
        SpecError::MissingLine(s) => s + " not found"@,
        SpecError::MissingField(s) => s + " format is invalid"@,
        SpecError::InvalidNumber(s) => s + " is not a valid number"@,
    }
}

/// A parse failure, carrying the subject it is about.
#[derive(Debug, Clone)]
pub enum ParseError {
    MissingLine { subject: String },
    MissingField { subject: String },
    InvalidNumber { subject: String },
}

impl ParseError {
    /// The failure this value models.
    pub open spec fn model(&self) -> SpecError {
        match self {
            ParseError::MissingLine { subject } => SpecError::MissingLine(subject@),
            ParseError::MissingField { subject } => SpecError::MissingField(subject@),
            ParseError::InvalidNumber { subject } => SpecError::InvalidNumber(subject@),
        }
    }

    /// A human-readable description naming the missing or malformed part.
    pub fn message(&self) -> (r: String)
        ensures
            r@ == spec_message(self.model()),
    {
        match self {
            ParseError::MissingLine { subject } => {
                let mut s = subject.clone();
                s.append(" not found");
                s
            },
            ParseError::MissingField { subject } => {
                let mut s = subject.clone();
                s.append(" format is invalid");
                s
            },
            ParseError::InvalidNumber { subject } => {
                let mut s = subject.clone();
                s.append(" is not a valid number");
                s
            },
        }
    }

    fn with_subject(subject: &str) -> (r: String)
        ensures
            r@ == subject@,
    {
        String::from_str(subject)
    }

    /// A missing-line failure about `subject`.
    pub fn missing_line(subject: &str) -> (r: ParseError)
        ensures
            r.model() == SpecError::MissingLine(subject@),
    {
        ParseError::MissingLine { subject: Self::with_subject(subject) }
    }

    /// A missing-field failure about `subject`.
    pub fn missing_field(subject: &str) -> (r: ParseError)
        ensures
            r.model() == SpecError::MissingField(subject@),
    {
        ParseError::MissingField { subject: Self::with_subject(subject) }
    }

    /// An invalid-number failure about `subject`.
    pub fn invalid_number(subject: &str) -> (r: ParseError)
        ensures
            r.model() == SpecError::InvalidNumber(subject@),
    {
        ParseError::InvalidNumber { subject: Self::with_subject(subject) }
    }
}

} // verus!
