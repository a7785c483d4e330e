use vstd::prelude::*;

verus! {

/// Why an extraction failed.
///
/// The taxonomy has two families: structural errors (the document's shape
/// does not match expectations: wrong cell counts, an empty required cell)
/// and malformed-field errors (a cell that must be empty or numeric held
/// other text). Any error is fatal to the whole extraction; no partial
/// profile is ever produced.
#[derive(Debug, PartialEq, Eq)]
pub enum ParseError {
    /// Structural: a profile-metadata cell was empty after trimming.
    MissingUserInfo,
    /// Structural: the profile-metadata region held `found` cells where
    /// exactly 4 or 5 were expected.
    WrongUserInfoCount { found: usize },
    /// Structural: an event row held `found` cells where exactly
    /// [`crate::model::EXPECT_EVENT_CELLS`] were expected.
    WrongEventCellCount { found: usize },
    /// Malformed field: `raw` is non-empty and does not denote a base-10
    /// unsigned 32-bit integer. The offending cell text is kept verbatim.
    MalformedInt { raw: String },
}

/// The mathematical value of a [`ParseError`].
pub enum ParseErrorV {
    MissingUserInfo,
    WrongUserInfoCount { found: nat },
    WrongEventCellCount { found: nat },
    MalformedInt { raw: Seq<char> },
}

impl View for ParseError {
    type V = ParseErrorV;

    open spec fn view(&self) -> ParseErrorV {
        match self {
            ParseError::MissingUserInfo => ParseErrorV::MissingUserInfo,
            ParseError::WrongUserInfoCount { found } => ParseErrorV::WrongUserInfoCount {
                found: *found as nat,
            },
            ParseError::WrongEventCellCount { found } => ParseErrorV::WrongEventCellCount {
                found: *found as nat,
            },
            ParseError::MalformedInt { raw } => ParseErrorV::MalformedInt { raw: raw@ },
        }
    }
}

} // verus!
