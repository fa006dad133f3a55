//! Two error types that convert into each other.
use vstd::prelude::*;

verus! {

/// The first kind of failure.
#[derive(Debug, Clone, Copy, PartialEq, Eq, Structural, Default)]
pub struct ErrorA {}

/// The second kind of failure.
#[derive(Debug, Clone, Copy, PartialEq, Eq, Structural, Default)]
pub struct ErrorB {}

impl ErrorA {
    /// The short message shown for this error.
    pub fn message(&self) -> (r: &'static str)
        ensures
            r@ == "ErrorA!"@,
    {
        "ErrorA!"
    }

    /// A longer description of this error.
    pub fn description(&self) -> (r: &'static str)
        ensures
            r@ == "Description for Error A"@,
    {
        "Description for Error A"
    }
}

impl ErrorB {
    /// The short message shown for this error.
    pub fn message(&self) -> (r: &'static str)
        ensures
            r@ == "ErrorB!"@,
    {
        "ErrorB!"
    }

    /// A longer description of this error.
    pub fn description(&self) -> (r: &'static str)
        ensures
            r@ == "Description for Error B"@,
    {
        "Description for Error B"
    }
}

impl From<ErrorB> for ErrorA {
    fn from(_e: ErrorB) -> ErrorA {
        ErrorA {}
    }
}

impl vstd::std_specs::convert::FromSpecImpl<ErrorB> for ErrorA {
    open spec fn obeys_from_spec() -> bool {
        true
    }

    open spec fn from_spec(v: ErrorB) -> ErrorA {
        ErrorA {}
    }
}

impl From<ErrorA> for ErrorB {
    fn from(_e: ErrorA) -> ErrorB {
        ErrorB {}
    }
}

impl vstd::std_specs::convert::FromSpecImpl<ErrorA> for ErrorB {
    open spec fn obeys_from_spec() -> bool {
        true
    }

    open spec fn from_spec(v: ErrorA) -> ErrorB {
        ErrorB {}
    }
}

} // verus!
