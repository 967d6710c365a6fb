//! The single error type shared by decoding and rendering.

use vstd::prelude::*;

verus! {

/// Why a table could not be decoded or rendered.
#[derive(Copy, Clone, Debug, PartialEq, Eq, Structural)]
pub enum ExtabError {
    /// The buffer holds fewer than the eight bytes of header and terminator.
    TableTooShort,
    /// The buffer is exactly eight bytes long, but the terminator word is not zero.
    InvalidEmptyTable,
    /// The low seven bits of a record's type byte name no known action.
    InvalidActionType,
    /// A read would run past the end of the buffer.
    OutOfBounds,
    /// A record refers to a destructor, but no name is left for it.
    MissingFunctionName,
}

impl ExtabError {
    /// What went wrong, in one sentence.
    pub open spec fn message_text(self) -> Seq<char> {
        match self {
            ExtabError::TableTooShort => "the table data must be at least 8 bytes long"@,
            ExtabError::InvalidEmptyTable => "the table is 8 bytes long but its terminator is not zero"@,
            ExtabError::InvalidActionType => "an action record has an unknown type"@,
            ExtabError::OutOfBounds => "a read ran past the end of the table data"@,
            ExtabError::MissingFunctionName => "there are fewer function names than destructor references"@,
        }
    }

    /// What went wrong, in one sentence.
    pub fn message(&self) -> (s: String)
        ensures
            s@ == self.message_text(),
    {
        let text: &str = match self {
            ExtabError::TableTooShort => "the table data must be at least 8 bytes long",
            ExtabError::InvalidEmptyTable => "the table is 8 bytes long but its terminator is not zero",
            ExtabError::InvalidActionType => "an action record has an unknown type",
            ExtabError::OutOfBounds => "a read ran past the end of the table data",
            ExtabError::MissingFunctionName => "there are fewer function names than destructor references",
        };
        String::from_str(text)
    }
}

} // verus!
