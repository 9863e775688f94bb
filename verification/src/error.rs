use vstd::prelude::*;

verus! {

/// Errors surfaced while decoding an EWKB byte stream.
#[derive(PartialEq, Eq, Structural, Clone, Copy, Debug)]
pub enum Error {
    /// The stream ended before a required field was complete.
    Read,
    /// The low byte of a type-id word named a geometry kind outside 1..=7.
    UnsupportedKind,
    /// A body-only read was invoked on the generic geometry type, which has
    /// no body format of its own.
    UnsupportedOperation,
}

impl Error {
    /// A short description of the error, in place of a `Display` impl.
    pub fn description(&self) -> (r: &'static str)
        ensures
            r@ =~= match self {
                Error::Read => "error while reading"@,
                Error::UnsupportedKind => "unsupported geometry kind"@,
                Error::UnsupportedOperation => "unsupported operation"@,
            },
    {
        match self {
            Error::Read => "error while reading",
            Error::UnsupportedKind => "unsupported geometry kind",
            Error::UnsupportedOperation => "unsupported operation",
        }
    }
}

} // verus!
