//! The result record.
//!
//! Addresses are held as integers, with 0 for the null address. Two of them
//! own what they point to: `dom`, the document, and `error_msg`, the message
//! buffer. `str_buf` and `node` point into the document and live only as
//! long as it does.

use vstd::prelude::*;
use vstd::utf8::encode_utf8;
use crate::parse::ParseFailure;

verus! {

/// The value of `error_offset` in a record that holds no error.
pub const NO_ERROR: i64 = -1;

/// What one parse call hands to the host.
///
/// A record is not copied: whoever holds it holds the one claim on what it
/// owns.
#[derive(Debug, PartialEq, Eq, Structural)]
pub struct Dom {
    /// Owning address of the document; 0 unless parsing succeeded.
    pub dom: usize,
    /// Address of the document's text buffer; 0 unless parsing succeeded.
    pub str_buf: usize,
    /// Address of the document's root node; 0 unless parsing succeeded.
    pub node: usize,
    /// [`NO_ERROR`], or the byte offset at which parsing failed.
    pub error_offset: i64,
    /// Owning address of the message buffer; 0 unless parsing failed.
    pub error_msg: usize,
    /// Number of message bytes at `error_msg`.
    pub error_msg_len: u64,
    /// Allocated size of the buffer at `error_msg`.
    pub error_msg_cap: u64,
}

/// A byte offset as the record stores it: unchanged where the signed field
/// can hold it, else the field's greatest value.
pub open spec fn offset_field(offset: usize) -> i64 {
    if offset <= i64::MAX {
        offset as i64
    } else {
        i64::MAX
    }
}

/// The number of bytes that a text takes up.
pub open spec fn byte_len(text: Seq<char>) -> u64 {
    encode_utf8(text).len() as usize as u64
}

impl Dom {
    /// The record of a successful call: all three addresses set, every
    /// error field at rest.
    pub open spec fn is_success(&self) -> bool {
        &&& self.dom != 0
        &&& self.str_buf != 0
        &&& self.node != 0
        &&& self.error_offset == NO_ERROR
        &&& self.error_msg == 0
        &&& self.error_msg_len == 0
        &&& self.error_msg_cap == 0
    }

    /// The record of a failed call: no document, an offset, and a message
    /// buffer that holds no more bytes than were allocated.
    pub open spec fn is_failure(&self) -> bool {
        &&& self.dom == 0
        &&& self.str_buf == 0
        &&& self.node == 0
        &&& self.error_offset >= 0
        &&& self.error_msg != 0
        &&& self.error_msg_len <= self.error_msg_cap
    }

    /// A record is one of the two, whole: never a mixture.
    pub open spec fn wf(&self) -> bool {
        self.is_success() || self.is_failure()
    }

    /// The record for a document that lives at `dom`, with its text buffer
    /// at `str_buf` and its root node at `node`.
    pub fn success(dom: usize, str_buf: usize, node: usize) -> (r: Dom)
        requires
            dom != 0,
            str_buf != 0,
            node != 0,
        ensures
            r == (Dom {
                dom,
                str_buf,
                node,
                error_offset: NO_ERROR,
                error_msg: 0,
                error_msg_len: 0,
                error_msg_cap: 0,
            }),
            r.is_success(),
    {
        Dom {
            dom,
            str_buf,
            node,
            error_offset: NO_ERROR,
            error_msg: 0,
            error_msg_len: 0,
            error_msg_cap: 0,
        }
    }

    /// The record for `failure`, whose message lives at `msg` in a buffer of
    /// `cap` bytes. Offset and message length are taken from the failure.
    pub fn failure(failure: &ParseFailure, msg: usize, cap: u64) -> (r: Dom)
        requires
            msg != 0,
            byte_len(failure.message@) <= cap,
        ensures
            r == (Dom {
                dom: 0,
                str_buf: 0,
                node: 0,
                error_offset: offset_field(failure.offset),
                error_msg: msg,
                error_msg_len: byte_len(failure.message@),
                error_msg_cap: cap,
            }),
            r.is_failure(),
    {
        let wide: u64 = failure.offset as u64;
        let error_offset: i64 = if wide <= 0x7fff_ffff_ffff_ffff {
            wide as i64
        } else {
            i64::MAX
        };
        Dom {
            dom: 0,
            str_buf: 0,
            node: 0,
            error_offset,
            error_msg: msg,
            error_msg_len: failure.message.as_str().len() as u64,
            error_msg_cap: cap,
        }
    }
}

/// In any record exactly one of the two owning addresses is set.
pub proof fn lemma_one_owner(d: Dom)
    requires
        d.wf(),
    ensures
        (d.dom != 0) != (d.error_msg != 0),
        d.is_success() <==> d.dom != 0,
        d.is_failure() <==> d.error_msg != 0,
{
}

/// The two views into the document are set exactly when the document is.
pub proof fn lemma_views_follow_document(d: Dom)
    requires
        d.wf(),
    ensures
        d.str_buf != 0 <==> d.dom != 0,
        d.node != 0 <==> d.dom != 0,
{
}

/// A record with a message has an offset that is no sentinel and a buffer
/// at least as large as its contents; a record without one has the sentinel.
pub proof fn lemma_error_fields(d: Dom)
    requires
        d.wf(),
    ensures
        d.error_msg != 0 ==> d.error_offset >= 0 && d.error_msg_len <= d.error_msg_cap,
        d.error_msg == 0 ==> d.error_offset == NO_ERROR && d.error_msg_len == 0
            && d.error_msg_cap == 0,
{
}

/// The stored offset is never negative and never beyond the offset, and is
/// the offset itself whenever the signed field can hold it.
pub proof fn lemma_offset_field(offset: usize)
    ensures
        0 <= offset_field(offset) <= offset,
        offset <= i64::MAX ==> offset_field(offset) == offset,
        offset > i64::MAX ==> offset_field(offset) == i64::MAX,
{
}

} // verus!
