use vstd::prelude::*;

verus! {

/// The status a boundary operation returns when it did what was asked.
pub const STATUS_SUCCESS: i32 = 0;

/// Why a build handed out no tree.
#[derive(Debug, Clone, Copy, PartialEq, Eq, Structural)]
pub enum BuildError {
    /// No input was given.
    InvalidArgument,
    /// The input bytes are not UTF-8 text.
    EncodingError,
    /// The parser refused the text as markup.
    ParseError,
    /// A string of the document holds the terminator character, so no
    /// terminated buffer can carry it.
    UnrepresentableContent,
}

impl BuildError {
    /// The negative status that stands for this error at the boundary.
    pub open spec fn status(self) -> i32 {
        match self {
            BuildError::InvalidArgument => -1i32,
            BuildError::EncodingError => -2i32,
            BuildError::ParseError => -3i32,
            BuildError::UnrepresentableContent => -4i32,
        }
    }

    /// Computes the status code of this error.
    pub fn code(&self) -> (code: i32)
        ensures
            code == self.status(),
            code < STATUS_SUCCESS,
    {
        match self {
            BuildError::InvalidArgument => -1,
            BuildError::EncodingError => -2,
            BuildError::ParseError => -3,
            BuildError::UnrepresentableContent => -4,
        }
    }
}

} // verus!
