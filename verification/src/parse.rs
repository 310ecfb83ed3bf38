//! One parse call: from bytes and a mask to a document or a failure.

use vstd::prelude::*;
use vstd::utf8::{encode_utf8, encode_utf8_valid_utf8, valid_utf8};
use crate::config::{options_of, Config};
use crate::nesting::{exceeds_at, first_too_deep, lemma_exceeds_at_is_settled, nesting};
use crate::trusted::{
    engine_accepts, first_invalid_utf8, parse_document, parse_document_raw, replace_invalid,
    replaced_text, valid_utf8_ends_at, MAX_DEPTH, MAX_INPUT_LEN,
};

verus! {

/// Why an input was rejected.
#[derive(Clone, Debug, PartialEq, Eq)]
pub struct ParseFailure {
    /// Zero-based byte position in the input at or before which parsing
    /// stopped.
    pub offset: usize,
    /// Human-readable description.
    pub message: String,
}

/// The description of a text that is longer than the engine can read.
pub const TOO_LARGE: &'static str = "input is too large to parse";

/// The description of an input that strict validation found not to be UTF-8.
pub const INVALID_ENCODING: &'static str = "input is not valid UTF-8";

/// The description of a text that nests deeper than [`MAX_DEPTH`].
pub const TOO_DEEP: &'static str = "input is nested too deeply";

/// The text that the engine is to read for `json`: the input itself where
/// it is valid UTF-8, else the input with every invalid sequence replaced.
pub open spec fn engine_text(json: Seq<u8>) -> Seq<u8> {
    if valid_utf8(json) {
        json
    } else {
        encode_utf8(replaced_text(json))
    }
}

/// How far the text that the engine reads is the input itself: all of a
/// valid input, else the part before its first invalid byte. Up to there a
/// position in the text is the same position in the input.
pub open spec fn unchanged_len(json: Seq<u8>) -> int {
    if valid_utf8(json) {
        json.len() as int
    } else {
        choose|k: int| valid_utf8_ends_at(json, k)
    }
}

/// A position in the text that the engine reads, as a position in the
/// input, of which `unchanged` bytes stand in the text as they are: the
/// position itself within those bytes, and their end for whatever lies
/// behind. What lies behind has no place of its own in the input; it is
/// reported at the first byte that was replaced.
pub open spec fn offset_within(reported: nat, unchanged: nat) -> nat {
    if reported <= unchanged {
        reported
    } else {
        unchanged
    }
}

/// Strict validation is asked for and `json` does not pass it.
pub open spec fn fails_validation(json: Seq<u8>, cfg: Config) -> bool {
    cfg.validate_string && !valid_utf8(json)
}

/// `json`, or the text made of it, is longer than the engine can read.
pub open spec fn too_large(json: Seq<u8>) -> bool {
    json.len() > MAX_INPUT_LEN || engine_text(json).len() > MAX_INPUT_LEN
}

/// The inputs that are rejected before the engine sees them.
pub open spec fn rejected_outright(json: Seq<u8>, cfg: Config) -> bool {
    ||| too_large(json)
    ||| fails_validation(json, cfg)
    ||| nesting(engine_text(json)) > MAX_DEPTH
}

/// What an outright rejection reports. An input that is too long is
/// rejected at its start; else one of invalid encoding where its valid part
/// ends; else one whose text is too long at its start; else one that nests
/// too deeply at the byte that opens one level too many.
pub open spec fn outright_failure(json: Seq<u8>, cfg: Config, f: ParseFailure) -> bool {
    if json.len() > MAX_INPUT_LEN {
        f.offset == 0 && f.message@ == TOO_LARGE@
    } else if fails_validation(json, cfg) {
        valid_utf8_ends_at(json, f.offset as int) && f.message@ == INVALID_ENCODING@
    } else if too_large(json) {
        f.offset == 0 && f.message@ == TOO_LARGE@
    } else {
        &&& f.message@ == TOO_DEEP@
        &&& f.offset <= json.len()
        &&& exists|at: int| #[trigger]
            exceeds_at(engine_text(json), MAX_DEPTH as nat, at) && f.offset == offset_within(
                at as nat,
                unchanged_len(json) as nat,
            )
    }
}

/// What a parse call owes for an input that the engine is asked about: a
/// document where the engine accepts its text, else a failure in the
/// engine's words, at a position that the input shares with the text.
pub open spec fn engine_answer(
    json: Seq<u8>,
    cfg: Config,
    r: Result<Box<sonic_rs::Value>, ParseFailure>,
) -> bool {
    if engine_accepts(engine_text(json), cfg.use_number) {
        r is Ok
    } else {
        r matches Err(f) && f.offset <= unchanged_len(json) && f.offset <= json.len()
    }
}

/// What a parse call owes for `json` under `cfg`, whichever way it goes.
pub open spec fn report_fits(
    json: Seq<u8>,
    cfg: Config,
    r: Result<Box<sonic_rs::Value>, ParseFailure>,
) -> bool {
    if rejected_outright(json, cfg) {
        r matches Err(f) && outright_failure(json, cfg, f)
    } else {
        engine_answer(json, cfg, r)
    }
}

/// Where the valid part of an input ends is settled by the input, and is
/// how far the engine's text is the input itself.
pub proof fn lemma_unchanged_len(json: Seq<u8>, k: int)
    requires
        valid_utf8_ends_at(json, k),
    ensures
        !valid_utf8(json),
        unchanged_len(json) == k,
        0 <= k < json.len(),
{
    assert(json.take(json.len() as int) =~= json);
    let c = choose|c: int| valid_utf8_ends_at(json, c);
    if c < k {
        assert(!valid_utf8(json.take(k)));
    } else if k < c {
        assert(!valid_utf8(json.take(c)));
    }
}

/// An outright rejection points into the input, or just behind its last
/// byte.
pub proof fn lemma_outright_failure_lies_within_input(json: Seq<u8>, cfg: Config, f: ParseFailure)
    requires
        rejected_outright(json, cfg),
        outright_failure(json, cfg, f),
    ensures
        f.offset <= json.len(),
{
}

/// What an outright rejection reports is settled by the input and the
/// options: two failures that both fit agree in offset and description.
pub proof fn lemma_outright_failure_is_settled(
    json: Seq<u8>,
    cfg: Config,
    f: ParseFailure,
    g: ParseFailure,
)
    requires
        outright_failure(json, cfg, f),
        outright_failure(json, cfg, g),
    ensures
        f.offset == g.offset,
        f.message@ == g.message@,
{
    if json.len() > MAX_INPUT_LEN {
    } else if fails_validation(json, cfg) {
        lemma_unchanged_len(json, f.offset as int);
        lemma_unchanged_len(json, g.offset as int);
    } else if too_large(json) {
    } else {
        let text = engine_text(json);
        let unchanged = unchanged_len(json) as nat;
        let a = choose|at: int| #[trigger]
            exceeds_at(text, MAX_DEPTH as nat, at) && f.offset == offset_within(
                at as nat,
                unchanged,
            );
        let b = choose|at: int| #[trigger]
            exceeds_at(text, MAX_DEPTH as nat, at) && g.offset == offset_within(
                at as nat,
                unchanged,
            );
        lemma_exceeds_at_is_settled(text, MAX_DEPTH as nat, a, b);
    }
}

/// Whether a parse call gives a document is settled by the input and the
/// options, and so is all that an outright rejection reports. What the
/// engine reports of a text that it does not accept is not.
pub proof fn lemma_report_is_settled(
    json: Seq<u8>,
    cfg: Config,
    r: Result<Box<sonic_rs::Value>, ParseFailure>,
    s: Result<Box<sonic_rs::Value>, ParseFailure>,
)
    ensures
        report_fits(json, cfg, r) && report_fits(json, cfg, s) ==> {
            &&& r is Ok <==> s is Ok
            &&& rejected_outright(json, cfg) ==> r->Err_0.offset == s->Err_0.offset
                && r->Err_0.message@ == s->Err_0.message@
        },
{
    if report_fits(json, cfg, r) && report_fits(json, cfg, s) && rejected_outright(json, cfg) {
        lemma_outright_failure_is_settled(json, cfg, r->Err_0, s->Err_0);
    }
}

/// Every failure that a parse call reports points into the input, or just
/// behind its last byte.
pub proof fn lemma_failure_lies_within_input(
    json: Seq<u8>,
    cfg: Config,
    r: Result<Box<sonic_rs::Value>, ParseFailure>,
)
    ensures
        report_fits(json, cfg, r) && r is Err ==> r->Err_0.offset <= json.len(),
{
}

/// An input is either turned away outright, and then the report is a
/// failure, or it is the engine's to judge, and then the report is a
/// document exactly when the engine accepts its text.
pub proof fn lemma_engine_decides_what_reaches_it(
    json: Seq<u8>,
    cfg: Config,
    r: Result<Box<sonic_rs::Value>, ParseFailure>,
)
    ensures
        report_fits(json, cfg, r) && rejected_outright(json, cfg) ==> r is Err,
        report_fits(json, cfg, r) && !rejected_outright(json, cfg) ==> (r is Ok <==> engine_accepts(
            engine_text(json),
            cfg.use_number,
        )),
{
}

/// Strict validation changes nothing for valid UTF-8: with or without it
/// the same inputs are rejected and the same is owed.
pub proof fn lemma_validation_leaves_valid_input_alone(
    json: Seq<u8>,
    cfg: Config,
    r: Result<Box<sonic_rs::Value>, ParseFailure>,
)
    requires
        valid_utf8(json),
    ensures
        report_fits(json, cfg, r) <==> report_fits(
            json,
            (Config { validate_string: !cfg.validate_string, ..cfg }),
            r,
        ),
{
}

/// The failure that was found at `reported.offset` in the text read for an
/// input, as a failure of that input, of which `unchanged` bytes stand in
/// the text as they are. The description is kept.
pub fn failure_of(reported: ParseFailure, unchanged: usize) -> (f: ParseFailure)
    ensures
        f.offset == offset_within(reported.offset as nat, unchanged as nat),
        f.message@ == reported.message@,
        f.offset <= unchanged,
{
    let offset: usize = if reported.offset <= unchanged {
        reported.offset
    } else {
        unchanged
    };
    ParseFailure { offset, message: reported.message }
}

/// Asks the engine about `text`, the text that is read for `json`, of which
/// the first `unchanged` bytes are those of `json`.
fn run_engine(json: &[u8], text: &[u8], unchanged: usize, cfg: Config) -> (r: Result<
    Box<sonic_rs::Value>,
    ParseFailure,
>)
    requires
        json@.len() <= MAX_INPUT_LEN,
        !fails_validation(json@, cfg),
        text@ == engine_text(json@),
        valid_utf8(text@),
        unchanged == unchanged_len(json@),
        unchanged <= json@.len(),
    ensures
        report_fits(json@, cfg, r),
        r matches Err(f) ==> f.offset <= json@.len(),
{
    if text.len() > MAX_INPUT_LEN {
        return Err(ParseFailure { offset: 0, message: TOO_LARGE.to_owned() });
    }
    if let Some(at) = first_too_deep(text, MAX_DEPTH) {
        let found = ParseFailure { offset: at, message: TOO_DEEP.to_owned() };
        return Err(failure_of(found, unchanged));
    }
    let answer = if cfg.use_number {
        parse_document_raw(text)
    } else {
        parse_document(text)
    };
    match answer {
        Ok(doc) => Ok(Box::new(doc)),
        Err(reported) => Err(failure_of(reported, unchanged)),
    }
}

/// Parses `json` under the options that `config` stands for.
///
/// Three kinds of input are rejected here, with a description of this
/// crate's own: input that is not valid UTF-8 where strict validation is
/// asked for, and input whose text is too long or nests too deeply for the
/// engine. Without strict validation, invalid sequences are replaced by
/// U+FFFD before the engine reads the text. The engine's answer is handed
/// on: its document, moved to the heap so that it stays where it is, or its
/// error as offset and description.
///
/// Every failure comes back as a value. Its offset is a position in the
/// input: where bytes were replaced, a failure behind the first of them is
/// reported at that byte.
///
/// The engine descends once for each level of nesting, up to [`MAX_DEPTH`]
/// times, on the caller's stack.
pub fn sonic_rs_ffi_parse(json: &[u8], config: u64) -> (r: Result<Box<sonic_rs::Value>, ParseFailure>)
    ensures
        report_fits(json@, options_of(config), r),
        r matches Err(f) ==> f.offset <= json@.len(),
{
    let cfg = Config::from_mask(config);
    if json.len() > MAX_INPUT_LEN {
        return Err(ParseFailure { offset: 0, message: TOO_LARGE.to_owned() });
    }
    match first_invalid_utf8(json) {
        None => run_engine(json, json, json.len(), cfg),
        Some(at) => {
            if cfg.validate_string {
                return Err(ParseFailure { offset: at, message: INVALID_ENCODING.to_owned() });
            }
            let replaced = replace_invalid(json);
            proof {
                encode_utf8_valid_utf8(replaced@);
                lemma_unchanged_len(json@, at as int);
            }
            run_engine(json, replaced.as_str().as_bytes(), at, cfg)
        },
    }
}

} // verus!
