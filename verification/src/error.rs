//! The failures the driver can report.

use vstd::prelude::*;

verus! {

/// Error code: an enumeration argument was not acceptable.
pub const INVALID_ENUM: u32 = 0x0500;

/// Error code: a numeric argument was out of range.
pub const INVALID_VALUE: u32 = 0x0501;

/// Error code: the operation is not allowed in the current state.
pub const INVALID_OPERATION: u32 = 0x0502;

/// A failure reported by the driver, or a message it produced.
#[derive(Debug)]
pub enum GLError {
    InvalidEnum,
    InvalidValue,
    InvalidOperation,
    Message(String),
}

impl GLError {
    /// Whether `code` is one of the three codes that have a variant.
    pub open spec fn is_known_code(code: u32) -> bool {
        code == INVALID_ENUM || code == INVALID_VALUE || code == INVALID_OPERATION
    }

    /// Converts the driver's error state into a typed failure. Codes without
    /// a variant, "no error" among them, give `None`.
    pub fn from_code(code: u32) -> (error: Option<GLError>)
        ensures
            error.is_some() == Self::is_known_code(code),
            code == INVALID_ENUM ==> error == Some(GLError::InvalidEnum),
            code == INVALID_VALUE ==> error == Some(GLError::InvalidValue),
            code == INVALID_OPERATION ==> error == Some(GLError::InvalidOperation),
    {
        if code == INVALID_ENUM {
            Some(GLError::InvalidEnum)
        } else if code == INVALID_VALUE {
            Some(GLError::InvalidValue)
        } else if code == INVALID_OPERATION {
            Some(GLError::InvalidOperation)
        } else {
            None
        }
    }

    /// The text carried by a `Message`, if this is one.
    pub open spec fn text(self) -> Option<Seq<char>> {
        match self {
            GLError::Message(s) => Some(s@),
            _ => None,
        }
    }

    /// The text carried by a `Message`, if this is one.
    pub fn message(&self) -> (text: Option<&str>)
        ensures
            text.is_some() == self.text().is_some(),
            text matches Some(s) ==> Some(s@) == self.text(),
    {
        match self {
            GLError::Message(s) => Some(s.as_str()),
            _ => None,
        }
    }
}

} // verus!
