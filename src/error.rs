use vstd::prelude::*;

verus! {

/// Why a line is not an annotation.
#[derive(Clone, Debug, PartialEq, Eq)]
pub enum ParseError {
    /// The line does not split into the expected number of tokens.
    TokenCount { expected: usize, found: usize, line: String },
    /// The coordinate token at `index` (counted from 0) is not a finite number.
    Coordinate { index: usize, token: String },
    /// The category token is not one of the category aliases.
    UnknownCategory { token: String },
    /// The difficulty token is neither `"0"` nor `"1"`.
    MalformedFlag { token: String },
}

/// What a `ParseError` says, with its texts as character sequences.
pub enum ParseFailure {
    TokenCount { expected: nat, found: nat, line: Seq<char> },
    Coordinate { index: nat, token: Seq<char> },
    UnknownCategory { token: Seq<char> },
    MalformedFlag { token: Seq<char> },
}

impl View for ParseError {
    type V = ParseFailure;

    open spec fn view(&self) -> ParseFailure {
        match self {
            ParseError::TokenCount { expected, found, line } => ParseFailure::TokenCount {
                expected: *expected as nat,
                found: *found as nat,
                line: line@,
            },
            ParseError::Coordinate { index, token } => ParseFailure::Coordinate {
                index: *index as nat,
                token: token@,
            },
            ParseError::UnknownCategory { token } => ParseFailure::UnknownCategory {
                token: token@,
            },
            ParseError::MalformedFlag { token } => ParseFailure::MalformedFlag { token: token@ },
        }
    }
}

} // verus!
