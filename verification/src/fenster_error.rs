//! The error taxonomy shared by every operation of the backend.

use vstd::prelude::*;

verus! {

/// Subsystem base for internal error codes unrelated to a particular store.
pub const OTHER_INTERNAL_ERROR: u16 = 111;

/// Subsystem base for internal error codes of the relational user store.
pub const POSTGRES_ERROR: u16 = 222;

/// Subsystem base for internal error codes of the key-value session store.
pub const REDIS_ERROR: u16 = 444;

/// One of the four outcomes an operation can fail with.
///
/// `NotFound`, `Conflict` and `Unauthorized` carry a message for the caller;
/// `Internal` carries only an opaque numeric code for support correlation.
#[derive(Clone, Debug, PartialEq, Eq)]
pub enum FensterError {
    NotFound(String),
    Internal(u16),
    Conflict(String),
    Unauthorized(String),
}

/// Mathematical image of a [`FensterError`]: messages become char sequences.
pub enum ErrorV {
    NotFound(Seq<char>),
    Internal(u16),
    Conflict(Seq<char>),
    Unauthorized(Seq<char>),
}

impl View for FensterError {
    type V = ErrorV;

    open spec fn view(&self) -> ErrorV {
        match self {
            FensterError::NotFound(m) => ErrorV::NotFound(m@),
            FensterError::Internal(c) => ErrorV::Internal(*c),
            FensterError::Conflict(m) => ErrorV::Conflict(m@),
            FensterError::Unauthorized(m) => ErrorV::Unauthorized(m@),
        }
    }
}

/// Composes an internal error code from a subsystem base and a call-site tag.
pub fn error(base: u16, i: u16) -> (code: u16)
    requires
        base * 10 + i <= u16::MAX,
    ensures
        code == base * 10 + i,
{
    base * 10 + i
}

} // verus!
