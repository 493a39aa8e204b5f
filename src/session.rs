//! The lifecycle of one device handle, as the replies of the underlying
//! library reveal it: found, opened, online, and released by a close.
use vstd::prelude::*;

use crate::status::{kind_of, ErrorKind, ERROR_INVALID_DEVICE, ERROR_SUCCESS};

verus! {

/// Where a handle stands in its lifecycle.
#[derive(Debug, Clone, Copy, PartialEq, Eq, Structural)]
pub enum SessionState {
    /// Found by discovery, not open.
    Closed,
    /// Open and offline.
    Open,
    /// Open and online: traffic is acknowledged.
    Online,
    /// Closed after use, or reported invalid: every further call fails
    /// with the invalid-device status.
    Released,
}

/// A call on a handle, as far as it concerns the lifecycle.
#[derive(Debug, Clone, Copy, PartialEq, Eq, Structural)]
pub enum Operation {
    Open,
    Close,
    GoOnline(bool),
    /// A read that changes nothing (is it open, is it online, a getter).
    Query,
    /// A write of a setting (open options, baudrate, clock).
    Configure,
    /// Any other call (transmit, receive, events).
    Other,
}

/// The state after `op` returned `status` in state `s`. A failed call other
/// than an invalid-device report leaves the state as it was: nothing is
/// retried.
pub open spec fn next_state(s: SessionState, op: Operation, status: u32) -> SessionState {
    if status == ERROR_INVALID_DEVICE {
        SessionState::Released
    } else if status != ERROR_SUCCESS {
        s
    } else {
        match op {
            Operation::Open => match s {
                SessionState::Closed => SessionState::Open,
                _ => s,
            },
            Operation::Close => SessionState::Released,
            Operation::GoOnline(on) => match s {
                SessionState::Open | SessionState::Online => if on {
                    SessionState::Online
                } else {
                    SessionState::Open
                },
                _ => s,
            },
            _ => s,
        }
    }
}

/// The state after `op` returned `status` in state `s`.
pub fn advance(s: SessionState, op: Operation, status: u32) -> (r: SessionState)
    ensures
        r == next_state(s, op, status),
{
    if status == ERROR_INVALID_DEVICE {
        return SessionState::Released;
    }
    if status != ERROR_SUCCESS {
        return s;
    }
    match op {
        Operation::Open => match s {
            SessionState::Closed => SessionState::Open,
            _ => s,
        },
        Operation::Close => SessionState::Released,
        Operation::GoOnline(on) => match s {
            SessionState::Open | SessionState::Online => if on {
                SessionState::Online
            } else {
                SessionState::Open
            },
            _ => s,
        },
        _ => s,
    }
}

/// Whether open options may be written: only before the device is opened,
/// since they take effect when it opens.
pub open spec fn configurable(s: SessionState) -> bool {
    s == SessionState::Closed
}

/// Whether open options may be written in state `s`.
pub fn permits_open_options(s: SessionState) -> (r: bool)
    ensures
        r == configurable(s),
{
    match s {
        SessionState::Closed => true,
        _ => false,
    }
}

/// Whether the device is open, as the state tells it.
pub fn is_open(s: SessionState) -> (r: bool)
    ensures
        r == (s == SessionState::Open || s == SessionState::Online),
{
    match s {
        SessionState::Open | SessionState::Online => true,
        _ => false,
    }
}

/// Whether the device is online, as the state tells it.
pub fn is_online(s: SessionState) -> (r: bool)
    ensures
        r == (s == SessionState::Online),
{
    match s {
        SessionState::Online => true,
        _ => false,
    }
}

/// Queries are idempotent: a query changes no state but by an
/// invalid-device report, and asking again with the same answer changes
/// nothing more, so the open and online answers stay the same.
pub proof fn lemma_queries_idempotent(s: SessionState, status: u32)
    ensures
        status != ERROR_INVALID_DEVICE ==> next_state(s, Operation::Query, status) == s,
        next_state(next_state(s, Operation::Query, status), Operation::Query, status)
            == next_state(s, Operation::Query, status),
{
}

/// A closed handle stays unusable: after a successful close every further
/// call, whatever it returns, leaves the handle released, and the
/// invalid-device status that the library reports is an error of the
/// invalid-device kind.
pub proof fn lemma_closed_handle_stays_invalid(s: SessionState, op: Operation, status: u32)
    ensures
        next_state(s, Operation::Close, ERROR_SUCCESS) == SessionState::Released,
        next_state(SessionState::Released, op, status) == SessionState::Released,
        kind_of(ERROR_INVALID_DEVICE) == ErrorKind::InvalidDevice,
{
}

} // verus!
