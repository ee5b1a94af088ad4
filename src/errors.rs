//! Error types: the one capabilities report, and the one of building an endpoint.
use vstd::prelude::*;

verus! {

/// An error reported by a capability implementation.
#[derive(Clone, Copy, Debug, PartialEq, Eq, Structural)]
pub enum Error {
    Example,
    Unknown,
}

impl Error {
    /// The human-readable text of the error; it is logged, never sent to clients.
    pub fn message(&self) -> (r: &'static str)
        ensures
            *self == Error::Example ==> r@ == "This is an example error."@,
            *self == Error::Unknown ==> r@ == "An unknown error occured."@,
    {
        match self {
            Error::Example => "This is an example error.",
            Error::Unknown => "An unknown error occured.",
        }
    }
}

/// Why a resource description could not be turned into an endpoint.
#[derive(Clone, Debug, PartialEq, Eq)]
pub enum BuildError {
    /// The record does not have named fields.
    UnnamedFields,
    /// A declared field uses a name that the server manages itself.
    ReservedField(String),
    /// The allow-list names an operation outside the universe.
    UnknownOperation(String),
}

} // verus!
