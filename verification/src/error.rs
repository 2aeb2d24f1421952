//! Error taxonomy of the decoder.
//!
//! Structural problems (malformed XML, a missing mandatory attribute or
//! element) and value problems (a present attribute that fails its primitive
//! decoder) are both fatal: the whole decode call fails and no partial
//! statement is returned.  Unrecognized vocabulary inside a recognized
//! attribute is *not* an error: every code table decodes it to its reserved
//! `Unknown` member instead.

use vstd::prelude::*;

verus! {

/// A fatal decode error.
#[derive(Debug, Clone, PartialEq, Eq)]
pub enum ParseError {
    /// The document text does not match the XML grammar.
    XmlError {
        /// Human-readable description of the problem.
        message: String,
        /// Character position in the input, where known.
        location: Option<usize>,
    },
    /// A mandatory attribute or element is absent.
    MissingField {
        /// Name of the missing attribute or element.
        field: String,
        /// The record kind or section in which it was expected.
        context: String,
    },
    /// A present attribute failed its primitive decoder.
    InvalidValue {
        /// Name of the offending attribute.
        field: String,
        /// The raw text that failed to decode.
        value: String,
        /// The record kind or section in which it appeared.
        context: String,
    },
    /// The statement's date range runs backwards (start after end).
    InvalidDateRange,
}

/// Result alias used by every decoder of this crate.
pub type Result<T> = core::result::Result<T, ParseError>;

impl ParseError {
    /// A short description of the error kind, for reporting.
    pub fn describe(&self) -> (r: String)
    {
        match self {
            ParseError::XmlError { message, .. } => message.clone(),
            ParseError::MissingField { field, .. } => field.clone(),
            ParseError::InvalidValue { value, .. } => value.clone(),
            ParseError::InvalidDateRange => String::new(),
        }
    }
}

} // verus!
