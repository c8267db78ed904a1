//! The stable JSON error envelope and the response bodies of the
//! service.
//!
//! Every error that reaches a client is wrapped in the same envelope,
//! `{"error":{"message":...,"data":...}}`, so that a caller always sees
//! one documented shape.  The functions here state, character for
//! character, which body each response carries.

use vstd::prelude::*;
use vstd::string::StringExecFns;

use crate::model::{CutPiece, HttpResponse, PatternDirection};
use crate::text::{
    dec_digits, escaped, push_decimal_usize, push_escaped,
};

verus! {

/// The error envelope around a message and an already-encoded JSON
/// value: `{"error":{"message":"<message>","data":<data>}}`, with the
/// message escaped as a JSON string literal.
pub open spec fn spec_envelope(message: Seq<char>, data_json: Seq<char>) -> Seq<char> {
    "{\"error\":{\"message\":\""@ + escaped(message) + "\",\"data\":"@ + data_json + "}}"@
}

/// The JSON string literal that denotes `s`.
pub open spec fn spec_json_string(s: Seq<char>) -> Seq<char> {
    seq!['"'] + escaped(s) + seq!['"']
}

/// The JSON encoding of an optional numeric identifier.
pub open spec fn spec_opt_id_json(id: Option<usize>) -> Seq<char> {
    match id {
        Some(n) => dec_digits(n as nat),
        None => "null"@,
    }
}

/// The JSON encoding of a pattern direction, as the wire format names
/// the variants.
pub open spec fn spec_pattern_json(d: PatternDirection) -> Seq<char> {
    match d {
        PatternDirection::NoPattern => "\"none\""@,
        PatternDirection::ParallelToWidth => "\"parallelToWidth\""@,
        PatternDirection::ParallelToLength => "\"parallelToLength\""@,
    }
}

/// The JSON encoding of a boolean.
pub open spec fn spec_bool_json(b: bool) -> Seq<char> {
    if b {
        "true"@
    } else {
        "false"@
    }
}

/// The JSON encoding of a cut piece, as it appears in the `data` field
/// of a no-fit error envelope.
pub open spec fn spec_cut_piece_json(p: CutPiece) -> Seq<char> {
    "{\"externalId\":"@ + spec_opt_id_json(p.external_id) + ",\"width\":"@ + dec_digits(
        p.width as nat,
    ) + ",\"length\":"@ + dec_digits(p.length as nat) + ",\"patternDirection\":"@
        + spec_pattern_json(p.pattern_direction) + ",\"canRotate\":"@ + spec_bool_json(
        p.can_rotate,
    ) + "}"@
}

/// Encode a cut piece as JSON.
pub fn cut_piece_json(p: &CutPiece) -> (r: String)
    ensures
        r@ == spec_cut_piece_json(*p),
{
    let mut s = String::new();
    s.append("{\"externalId\":");
    match p.external_id {
        Some(n) => push_decimal_usize(&mut s, n),
        None => s.append("null"),
    }
    s.append(",\"width\":");
    push_decimal_usize(&mut s, p.width);
    s.append(",\"length\":");
    push_decimal_usize(&mut s, p.length);
    s.append(",\"patternDirection\":");
    match p.pattern_direction {
        PatternDirection::NoPattern => s.append("\"none\""),
        PatternDirection::ParallelToWidth => s.append("\"parallelToWidth\""),
        PatternDirection::ParallelToLength => s.append("\"parallelToLength\""),
    }
    s.append(",\"canRotate\":");
    if p.can_rotate {
        s.append("true");
    } else {
        s.append("false");
    }
    s.append("}");
    assert(s@ =~= spec_cut_piece_json(*p));
    s
}

/// Build the envelope around a message and an already-encoded JSON
/// value.
pub fn error_envelope(message: &str, data_json: &str) -> (r: String)
    ensures
        r@ == spec_envelope(message@, data_json@),
{
    let mut s = String::new();
    s.append("{\"error\":{\"message\":\"");
    push_escaped(&mut s, message);
    s.append("\",\"data\":");
    s.append(data_json);
    s.append("}}");
    assert(s@ =~= spec_envelope(message@, data_json@));
    s
}

/// Build the envelope around a message and a plain-text detail, the
/// detail encoded as a JSON string literal.
pub fn error_envelope_text_data(message: &str, detail: &str) -> (r: String)
    ensures
        r@ == spec_envelope(message@, spec_json_string(detail@)),
{
    let mut s = String::new();
    s.append("{\"error\":{\"message\":\"");
    push_escaped(&mut s, message);
    s.append("\",\"data\":\"");
    push_escaped(&mut s, detail);
    s.append("\"}}");
    proof {
        reveal_strlit("\",\"data\":\"");
        reveal_strlit("\",\"data\":");
        reveal_strlit("\"}}");
        reveal_strlit("}}");
    }
    assert(s@ =~= spec_envelope(message@, spec_json_string(detail@)));
    s
}

/// The message of the no-fit domain error.
pub open spec fn spec_no_fit_message() -> Seq<char> {
    "Cut piece doesn't fit in any stock pieces"@
}

/// The body of the no-fit domain error: the envelope around the no-fit
/// message, with the offending cut piece as data.
pub open spec fn spec_no_fit_body(p: CutPiece) -> Seq<char> {
    spec_envelope(spec_no_fit_message(), spec_cut_piece_json(p))
}

/// The response for a cut piece that fits no stock piece: HTTP 422 with
/// the offending piece, including its external id, in the envelope.
pub fn response_no_fit(p: &CutPiece) -> (r: HttpResponse)
    ensures
        r.status == 422,
        r.body@ == spec_no_fit_body(*p),
{
    let data = cut_piece_json(p);
    let body = error_envelope("Cut piece doesn't fit in any stock pieces", data.as_str());
    HttpResponse { status: 422, body }
}

/// The message of the broken-completion-channel internal error.
pub open spec fn spec_channel_error_message() -> Seq<char> {
    "Couldn't receive result from channel"@
}

/// The body of the broken-completion-channel internal error.
pub open spec fn spec_channel_error_body(detail: Seq<char>) -> Seq<char> {
    spec_envelope(spec_channel_error_message(), spec_json_string(detail))
}

/// The response for a completion channel that closed before the engine
/// result could be received: HTTP 500 with the error's description.
pub fn response_channel_error(detail: &str) -> (r: HttpResponse)
    ensures
        r.status == 500,
        r.body@ == spec_channel_error_body(detail@),
{
    let body = error_envelope_text_data("Couldn't receive result from channel", detail);
    HttpResponse { status: 500, body }
}

} // verus!
