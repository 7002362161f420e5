//! The ways in which the scheme's decoders can fail.

use vstd::prelude::*;

verus! {

/// Why an operation of the scheme failed. Every failure is final: nothing is
/// retried, and no value is made up in place of one that could not be had.
#[derive(Debug, Clone, Copy, PartialEq, Eq, Structural)]
pub enum Error {
    /// Something that cannot happen in a sound run, such as a missing chunk
    /// of bytes in the streaming codec.
    Generic,
    /// Bytes that were to be a group element encode no point of the curve.
    InvalidData,
    /// Bytes that were to be a scalar spell a number outside the scalar field.
    SerialisationError,
}

impl Error {
    /// The generic error, whatever the cause handed in.
    pub fn generic<T>(_e: T) -> (error: Error)
        ensures
            error == Error::Generic,
    {
        Error::Generic
    }

    /// The text that `message` returns.
    pub open spec fn text(self) -> Seq<char> {
        match self {
            Error::Generic => "Generic Error in Encryption scheme"@,
            Error::InvalidData => "Invalid data given for encryption scheme"@,
            Error::SerialisationError => "Byte serialisation performed incorrectly"@,
        }
    }

    /// A description of the error for people to read.
    pub fn message(&self) -> (message: String)
        ensures
            message@ == self.text(),
    {
        match self {
            Error::Generic => "Generic Error in Encryption scheme".to_string(),
            Error::InvalidData => "Invalid data given for encryption scheme".to_string(),
            Error::SerialisationError => "Byte serialisation performed incorrectly".to_string(),
        }
    }
}

} // verus!
