//! Status codes of the underlying API and their translation into [`Error`].
use vstd::prelude::*;

use crate::buffer::{reported_prefix, text_from_buffer, has_nul, utf8_decoded};

verus! {

/// Status code that every underlying call returns on success.
pub const ERROR_SUCCESS: u32 = 0;

/// Status code for a device handle that is no longer usable.
pub const ERROR_INVALID_DEVICE: u32 = 12;

/// Description used when the description lookup itself fails.
pub const LOOKUP_FAILED: &'static str = "icsneoc2_error_code_get() failed.";

/// An error reported by the underlying API: its status code and the
/// description that the library gave for it.
#[derive(Debug, Clone)]
pub enum Error {
    APIError(u32, String),
}

/// The two kinds of failure that callers of a session tell apart.
#[derive(Debug, Clone, Copy, PartialEq, Eq, Structural)]
pub enum ErrorKind {
    /// The handle can no longer be used; other handles are unaffected.
    InvalidDevice,
    /// Any other failure, which concerns the failed operation only.
    Other,
}

/// The kind of failure that a status code denotes.
pub open spec fn kind_of(code: u32) -> ErrorKind {
    if code == ERROR_INVALID_DEVICE {
        ErrorKind::InvalidDevice
    } else {
        ErrorKind::Other
    }
}

impl Error {
    pub open spec fn code_spec(&self) -> u32 {
        match self {
            Error::APIError(c, _) => *c,
        }
    }

    pub open spec fn text_spec(&self) -> Seq<char> {
        match self {
            Error::APIError(_, s) => s@,
        }
    }

    /// The status code carried by this error.
    pub fn code(&self) -> (r: u32)
        ensures
            r == self.code_spec(),
    {
        match self {
            Error::APIError(c, _) => *c,
        }
    }

    /// The description carried by this error.
    pub fn description(&self) -> (r: &String)
        ensures
            r@ == self.text_spec(),
    {
        match self {
            Error::APIError(_, s) => s,
        }
    }

    /// Whether the error means that the handle is no longer usable.
    pub fn kind(&self) -> (r: ErrorKind)
        ensures
            r == kind_of(self.code_spec()),
    {
        if self.code() == ERROR_INVALID_DEVICE {
            ErrorKind::InvalidDevice
        } else {
            ErrorKind::Other
        }
    }
}

/// Success or the failing status code, for a call that yields nothing.
pub fn check_status(code: u32) -> (r: Result<(), u32>)
    ensures
        code == ERROR_SUCCESS <==> r is Ok,
        r matches Err(c) ==> c == code,
{
    if code == ERROR_SUCCESS {
        Ok(())
    } else {
        Err(code)
    }
}

/// The value that a call wrote to its out-parameter when it succeeded, else
/// the failing status code. The value is handed on exactly as it came.
pub fn status_value<T>(code: u32, value: T) -> (r: Result<T, u32>)
    ensures
        code == ERROR_SUCCESS ==> r == Ok::<T, u32>(value),
        code != ERROR_SUCCESS ==> r == Err::<T, u32>(code),
{
    if code == ERROR_SUCCESS {
        Ok(value)
    } else {
        Err(code)
    }
}

/// The answer of a validity check: an invalid device is a `false`, not an
/// error; any other failure is an error.
pub open spec fn validity_of(code: u32) -> Result<bool, u32> {
    if code == ERROR_SUCCESS {
        Ok(true)
    } else if code == ERROR_INVALID_DEVICE {
        Ok(false)
    } else {
        Err(code)
    }
}

/// The answer of a validity check, from the status of that check.
pub fn validity_from_status(code: u32) -> (r: Result<bool, u32>)
    ensures
        r == validity_of(code),
{
    if code == ERROR_SUCCESS {
        Ok(true)
    } else if code == ERROR_INVALID_DEVICE {
        Ok(false)
    } else {
        Err(code)
    }
}

/// The error for a failed call with status `code`, given the outcome of the
/// description lookup for it: the lookup's own status and the string buffer
/// it filled. A failed lookup gives an error that still carries `code` and
/// says that the lookup failed. `None` where the lookup succeeded but its
/// text cannot be decoded, which the library is trusted never to produce.
pub fn translate(code: u32, lookup_status: u32, buf: &Vec<u8>, reported: u32) -> (r: Option<Error>)
    ensures
        lookup_status != ERROR_SUCCESS ==> (r matches Some(e) && e.code_spec() == code
            && e.text_spec() == LOOKUP_FAILED@),
        lookup_status == ERROR_SUCCESS ==> ({
            let p = reported_prefix(buf@, reported as nat);
            match r {
                Some(e) => e.code_spec() == code && !has_nul(p)
                    && utf8_decoded(p) == Some(e.text_spec()),
                None => has_nul(p) || utf8_decoded(p) is None,
            }
        }),
{
    if lookup_status != ERROR_SUCCESS {
        return Some(Error::APIError(code, LOOKUP_FAILED.to_string()));
    }
    match text_from_buffer(buf, reported) {
        Some(text) => Some(Error::APIError(code, text)),
        None => None,
    }
}

/// Translation keeps the kind of failure: whatever the description lookup
/// gave, an error made for a status code is of that code's kind.
pub proof fn lemma_translation_keeps_kind(code: u32, e: Error)
    requires
        e.code_spec() == code,
    ensures
        kind_of(e.code_spec()) == kind_of(code),
        code == ERROR_INVALID_DEVICE ==> kind_of(e.code_spec()) == ErrorKind::InvalidDevice,
{
}

} // verus!
