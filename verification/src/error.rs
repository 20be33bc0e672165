use vstd::prelude::*;

verus! {

/// Why a value could not be decoded. There is one kind only, and it carries nothing.
#[derive(Debug, Clone, Copy, PartialEq, Eq, Structural)]
pub enum UnpackerError {
    /// The value does not have the shape that the requested type is decoded from.
    InvalidAbi,
}

pub type UnpackerResult<T> = Result<T, UnpackerError>;

impl UnpackerError {
    /// The message of the error, as it is shown to a user.
    pub fn message(&self) -> (text: &'static str)
        ensures
            text@ == "Invalid ABI"@,
    {
        "Invalid ABI"
    }
}

} // verus!
