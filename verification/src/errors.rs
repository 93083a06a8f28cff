//! Errors that the canvas program reports.

use vstd::prelude::*;

verus! {

/// Why a pixel write is refused.
#[derive(Clone, Copy, Debug, PartialEq, Eq)]
pub enum SolPlaceError {
    /// The column is not on the canvas.
    XOutOfBounds,
    /// The row is not on the canvas.
    YOutOfBounds,
    /// The colour is not in the palette.
    InvalidColor,
}

impl SolPlaceError {
    /// The text shown to a caller for each error.
    pub open spec fn message_text(self) -> Seq<char> {
        match self {
            SolPlaceError::XOutOfBounds => "X coordinate out of bounds (must be 0-63)"@,
            SolPlaceError::YOutOfBounds => "Y coordinate out of bounds (must be 0-63)"@,
            SolPlaceError::InvalidColor => "Invalid color index (must be 0-15)"@,
        }
    }

    /// Human-readable description of the error.
    pub fn message(&self) -> (text: &'static str)
        ensures
            text@ == self.message_text(),
    {
        match self {
            SolPlaceError::XOutOfBounds => "X coordinate out of bounds (must be 0-63)",
            SolPlaceError::YOutOfBounds => "Y coordinate out of bounds (must be 0-63)",
            SolPlaceError::InvalidColor => "Invalid color index (must be 0-15)",
        }
    }
}

/// Why the account of the canvas cannot be used as an instruction asks.
#[derive(Clone, Copy, Debug, PartialEq, Eq)]
pub enum AccountError {
    /// The canvas record already exists, so it cannot be created again.
    AlreadyInUse,
    /// The data is too short to hold the leading tag.
    DiscriminatorNotFound,
    /// The leading tag is not the one of a canvas record.
    DiscriminatorMismatch,
    /// The data does not have the size of a canvas record.
    DidNotDeserialize,
}

} // verus!
