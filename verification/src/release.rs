//! Giving a record's memory back.
//!
//! Releasing is decided here and carried out by the caller: from the three
//! values that the host kept of a record, this module says which
//! allocations go back to the allocator and in what shape.

use vstd::prelude::*;
use crate::record::Dom;

verus! {

/// An owned byte buffer as the allocator has to see it again: where it
/// lives, how many bytes of it count as in use, and how many were allocated.
#[derive(Clone, Copy, Debug, PartialEq, Eq)]
pub struct Buffer {
    pub addr: usize,
    pub len: u64,
    pub cap: u64,
}

/// What one release call gives back.
#[derive(Clone, Copy, Debug, PartialEq, Eq)]
pub struct Release {
    /// The document to drop as a whole, text buffer and nodes with it.
    pub document: Option<usize>,
    /// The message buffer to drop.
    pub message: Option<Buffer>,
}

/// The allocations that stand behind `dom`, `msg` and `msg_cap`.
///
/// A null address stands for nothing. The message buffer goes back empty
/// and with the size it was allocated with: how much of it was in use is
/// not the allocator's concern, its size is.
pub open spec fn release_of(dom: usize, msg: usize, msg_cap: u64) -> Release {
    Release {
        document: if dom != 0 {
            Some(dom)
        } else {
            None
        },
        message: if msg != 0 {
            Some(Buffer { addr: msg, len: 0, cap: msg_cap })
        } else {
            None
        },
    }
}

/// Decides what to release for the values `dom`, `msg` and `msg_cap` of one
/// record. Either address, or both, may be null.
///
/// The values must come from one record, and each record is released once:
/// nothing here can tell a live address from a stale one.
pub fn sonic_rs_ffi_free(dom: usize, msg: usize, msg_cap: u64) -> (r: Release)
    ensures
        r == release_of(dom, msg, msg_cap),
{
    let document = if dom != 0 {
        Some(dom)
    } else {
        None
    };
    let message = if msg != 0 {
        Some(Buffer { addr: msg, len: 0, cap: msg_cap })
    } else {
        None
    };
    Release { document, message }
}

impl Dom {
    /// Releases the record. The record is used up by this, so that it
    /// cannot be released again.
    pub fn release(self) -> (r: Release)
        ensures
            r == release_of(self.dom, self.error_msg, self.error_msg_cap),
    {
        sonic_rs_ffi_free(self.dom, self.error_msg, self.error_msg_cap)
    }
}

/// Releasing a record gives back exactly what the record owns: the document
/// of a success, the message buffer of a failure with the size it was
/// allocated with, and never both.
pub proof fn lemma_release_gives_back_what_is_owned(d: Dom)
    requires
        d.wf(),
    ensures
        d.is_success() ==> release_of(d.dom, d.error_msg, d.error_msg_cap) == (Release {
            document: Some(d.dom),
            message: None,
        }),
        d.is_failure() ==> release_of(d.dom, d.error_msg, d.error_msg_cap) == (Release {
            document: None,
            message: Some(Buffer { addr: d.error_msg, len: 0, cap: d.error_msg_cap }),
        }),
        (release_of(d.dom, d.error_msg, d.error_msg_cap).document is Some) != (release_of(
            d.dom,
            d.error_msg,
            d.error_msg_cap,
        ).message is Some),
{
}

/// The two halves of a release do not depend on each other: the document
/// goes by `dom` alone, the message buffer by `msg` and `msg_cap` alone.
pub proof fn lemma_release_halves_are_independent(
    dom: usize,
    msg: usize,
    msg_cap: u64,
    other_dom: usize,
    other_msg: usize,
    other_cap: u64,
)
    ensures
        release_of(dom, msg, msg_cap).document == release_of(dom, other_msg, other_cap).document,
        release_of(dom, msg, msg_cap).message == release_of(other_dom, msg, msg_cap).message,
{
}

} // verus!
