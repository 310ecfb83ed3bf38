//! What this crate takes on trust.
//!
//! The parsing engine and two routines of the standard library are called
//! from here and nowhere else. Nothing in this file is proved: each item
//! says what the called code's source or documentation shows, and the rest
//! of the crate is verified against those statements.

use vstd::prelude::*;
use vstd::utf8::valid_utf8;
use crate::nesting::nesting;
use crate::parse::ParseFailure;

verus! {

/// A parsed document of the engine. It owns its storage.
#[verifier::external_type_specification]
#[verifier::external_body]
pub struct ExValue(sonic_rs::Value);

/// The longest text that the engine reads.
///
/// Its documents address their text by 32-bit positions, and its one-call
/// entry point refuses anything longer.
pub const MAX_INPUT_LEN: usize = 0xffff_ffff;

/// The deepest nesting of arrays and objects that is handed to the engine.
///
/// The engine descends one call per open array or object. Where it reads
/// into types of the caller it counts the levels and stops at 255; where it
/// builds a document of its own it does not count. The same bound is kept
/// for it here, so that no text takes it down without end.
///
/// The stack for these levels is the caller's to provide. What a level
/// costs depends on how the engine was built: 64 KiB each are enough for an
/// engine built without optimisation.
pub const MAX_DEPTH: usize = 255;

/// The engine can be given `text`. It can address all of it and does not
/// descend too far in it. The text is valid UTF-8: the engine builds its
/// strings from the bytes as they are, and where it is left to replace
/// invalid bytes itself it loses its place behind them.
pub open spec fn engine_can_read(text: Seq<u8>) -> bool {
    &&& text.len() <= MAX_INPUT_LEN
    &&& valid_utf8(text)
    &&& nesting(text) <= MAX_DEPTH
}

/// `k` is where the valid UTF-8 of `bytes` ends: the bytes before `k` are
/// valid, and no longer prefix is.
pub open spec fn valid_utf8_ends_at(bytes: Seq<u8>, k: int) -> bool {
    &&& 0 <= k < bytes.len()
    &&& valid_utf8(bytes.take(k))
    &&& forall|j: int| k < j <= bytes.len() ==> !valid_utf8(#[trigger] bytes.take(j))
}

/// `core::str::from_utf8`, reduced to where it stopped: `None` for valid
/// UTF-8, else `Utf8Error::valid_up_to` of the error, which the standard
/// library documents as the greatest index whose prefix is valid.
#[verifier::external_body]
pub(crate) fn first_invalid_utf8(bytes: &[u8]) -> (r: Option<usize>)
    ensures
        r is None <==> valid_utf8(bytes@),
        r matches Some(k) ==> valid_utf8_ends_at(bytes@, k as int),
{
    match core::str::from_utf8(bytes) {
        Ok(_) => None,
        Err(e) => Some(e.valid_up_to()),
    }
}

/// The text that `String::from_utf8_lossy` makes of `bytes`: the same text
/// with U+FFFD in place of every invalid sequence.
pub uninterp spec fn replaced_text(bytes: Seq<u8>) -> Seq<char>;

/// `String::from_utf8_lossy`, as an owned string. The text depends on the
/// bytes alone, so it has a name.
#[verifier::external_body]
pub(crate) fn replace_invalid(bytes: &[u8]) -> (text: String)
    ensures
        text@ == replaced_text(bytes@),
{
    String::from_utf8_lossy(bytes).into_owned()
}

/// The engine accepts `text` as one whole document. The parser is set to
/// replace unpaired surrogate escapes in either case; with `raw_numbers` it
/// is set to keep numbers as their text as well.
///
/// Only the verdict has a name. Where and in which words the engine reports
/// an error depends on more than the text: it stages its nodes in a buffer
/// that a thread keeps between calls, and text that is not JSON may or may
/// not run out of it.
pub uninterp spec fn engine_accepts(text: Seq<u8>, raw_numbers: bool) -> bool;

/// One run of the engine with numbers read as machine numbers:
/// `sonic_rs::Deserializer::from_slice`, set by `utf8_lossy`, asked by
/// `deserialize` for a `sonic_rs::Value` and then by `end` that nothing but
/// blanks is left. An error is handed on as its `offset` and its `Display`
/// text; the engine cuts the offset of every error to the length of what it
/// read.
#[verifier::external_body]
pub(crate) fn parse_document(text: &[u8]) -> (r: Result<sonic_rs::Value, ParseFailure>)
    requires
        engine_can_read(text@),
    ensures
        r is Ok <==> engine_accepts(text@, false),
        r matches Err(f) ==> f.offset <= text@.len(),
{
    let mut de = sonic_rs::Deserializer::from_slice(text).utf8_lossy();
    match de.deserialize::<sonic_rs::Value>() {
        Ok(doc) => match de.end() {
            Ok(()) => Ok(doc),
            Err(e) => Err(ParseFailure { offset: e.offset(), message: e.to_string() }),
        },
        Err(e) => Err(ParseFailure { offset: e.offset(), message: e.to_string() }),
    }
}

/// The same run with `use_rawnumber` set as well, so that every number is
/// kept as its text.
#[verifier::external_body]
pub(crate) fn parse_document_raw(text: &[u8]) -> (r: Result<sonic_rs::Value, ParseFailure>)
    requires
        engine_can_read(text@),
    ensures
        r is Ok <==> engine_accepts(text@, true),
        r matches Err(f) ==> f.offset <= text@.len(),
{
    let mut de = sonic_rs::Deserializer::from_slice(text).use_rawnumber().utf8_lossy();
    match de.deserialize::<sonic_rs::Value>() {
        Ok(doc) => match de.end() {
            Ok(()) => Ok(doc),
            Err(e) => Err(ParseFailure { offset: e.offset(), message: e.to_string() }),
        },
        Err(e) => Err(ParseFailure { offset: e.offset(), message: e.to_string() }),
    }
}

} // verus!
