//! The errors of a terminal.

use vstd::prelude::*;

verus! {

/// An error value of `std::io`, carried through as it is.
#[verifier::external_type_specification]
#[verifier::external_body]
pub struct ExIoError(std::io::Error);

/// An error of a terminal.
#[derive(Debug)]
#[non_exhaustive]
pub enum Error<B> {
    /// An error in the backend.
    Backend(B),
    /// An error overriding the standard I/O streams.
    Stdio(std::io::Error),
}

impl<B> Error<B> {
    /// The error of a backend as an error of the terminal.
    pub fn from_backend(e: B) -> (r: Self)
        ensures
            r == Error::Backend(e),
    {
        Error::Backend(e)
    }

    /// The error of the standard I/O streams as an error of the terminal.
    pub fn from_stdio(e: std::io::Error) -> (r: Self)
        ensures
            r == Error::<B>::Stdio(e),
    {
        Error::Stdio(e)
    }

    /// Whether the error came from the backend.
    pub fn is_backend(&self) -> (r: bool)
        ensures
            r == (self is Backend),
    {
        match self {
            Error::Backend(_) => true,
            Error::Stdio(_) => false,
        }
    }
}

impl<B> From<B> for Error<B> {
    fn from(e: B) -> (r: Self) {
        Error::Backend(e)
    }
}

impl<B> vstd::std_specs::convert::FromSpecImpl<B> for Error<B> {
    open spec fn obeys_from_spec() -> bool {
        true
    }

    open spec fn from_spec(e: B) -> Self {
        Error::Backend(e)
    }
}

} // verus!
