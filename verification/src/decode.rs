//! Decoding the wire JSON into an `OptimizerInput`.
//!
//! The wire format is the one the endpoint documents: a JSON object
//! with `method`, `randomSeed`, `cutWidth`, `stockPieces`, `cutPieces`
//! and `allowMixedStockSizes`.  The optional fields get their
//! documented defaults (`guillotine`, seed 1, mixed sizes allowed); a
//! missing required field, a field of the wrong shape, or a value
//! beyond the service's size bounds is a client error, never a fault.
//! `spec_decode` states the whole walk over the document model, and
//! the executable decoder is pinned to it value for value.

use vstd::prelude::*;
use vstd::string::StringExecFns;

use crate::jsonval::{
    doc_of, json_wf, parse_json, value_as_array, value_as_bool, value_as_string, value_as_u64,
    value_as_usize, value_get, JsonModel,
};
use crate::model::{
    cut_within_limits, input_within_limits, stock_within_limits, CutPiece, InputModel,
    OptimizeMethod, OptimizerInput, PatternDirection, StockPiece, MAX_DIMENSION, MAX_PIECES,
};

use serde_json::Value as JsonValue;

verus! {

/// The method a wire string names, if any: `guillotine` or `nested`.
pub open spec fn spec_parse_method(s: Seq<char>) -> Option<OptimizeMethod> {
    if s == "guillotine"@ {
        Some(OptimizeMethod::Guillotine)
    } else if s == "nested"@ {
        Some(OptimizeMethod::Nested)
    } else {
        None
    }
}

/// Parse the wire name of an optimization method.
pub fn parse_method(s: &String) -> (r: Option<OptimizeMethod>)
    ensures
        r == spec_parse_method(s@),
{
    if s.eq(&String::from_str("guillotine")) {
        Some(OptimizeMethod::Guillotine)
    } else if s.eq(&String::from_str("nested")) {
        Some(OptimizeMethod::Nested)
    } else {
        None
    }
}

/// The pattern direction a wire string names, if any: `none`,
/// `parallelToWidth` or `parallelToLength`.
pub open spec fn spec_parse_direction(s: Seq<char>) -> Option<PatternDirection> {
    if s == "none"@ {
        Some(PatternDirection::NoPattern)
    } else if s == "parallelToWidth"@ {
        Some(PatternDirection::ParallelToWidth)
    } else if s == "parallelToLength"@ {
        Some(PatternDirection::ParallelToLength)
    } else {
        None
    }
}

/// Parse the wire name of a pattern direction.
pub fn parse_direction(s: &String) -> (r: Option<PatternDirection>)
    ensures
        r == spec_parse_direction(s@),
{
    if s.eq(&String::from_str("none")) {
        Some(PatternDirection::NoPattern)
    } else if s.eq(&String::from_str("parallelToWidth")) {
        Some(PatternDirection::ParallelToWidth)
    } else if s.eq(&String::from_str("parallelToLength")) {
        Some(PatternDirection::ParallelToLength)
    } else {
        None
    }
}

/// A required dimension is usable when it is present and within the
/// service's bound.
pub open spec fn usable_dim(x: Option<usize>) -> bool {
    x matches Some(v) && v <= MAX_DIMENSION
}

/// An optional price is usable when it is absent or within the
/// service's bound.
pub open spec fn usable_opt_price(x: Option<usize>) -> bool {
    match x {
        Some(v) => v <= MAX_DIMENSION,
        None => true,
    }
}

/// Whether an executable decode result agrees, value for value, with a
/// spec-level decode result.
pub open spec fn decode_matches<T>(r: Result<T, String>, s: Result<T, Seq<char>>) -> bool {
    &&& (r is Ok <==> s is Ok)
    &&& (r matches Ok(v) ==> s matches Ok(w) && v == w)
    &&& (r matches Err(e) ==> s matches Err(m) && e@ == m)
}

/// What building a stock piece from its decoded fields yields: width,
/// length and pattern direction are required and the numeric fields
/// must be within bounds; a missing price means a price of zero.
pub open spec fn spec_assemble_stock(
    width: Option<usize>,
    length: Option<usize>,
    direction: Option<PatternDirection>,
    price: Option<usize>,
) -> Result<StockPiece, Seq<char>> {
    if !usable_dim(width) {
        Err("missing or invalid field `width`"@)
    } else if !usable_dim(length) {
        Err("missing or invalid field `length`"@)
    } else if direction is None {
        Err("missing or invalid field `patternDirection`"@)
    } else if !usable_opt_price(price) {
        Err("missing or invalid field `price`"@)
    } else {
        Ok(
            StockPiece {
                width: width->0,
                length: length->0,
                pattern_direction: direction->0,
                price: match price {
                    Some(p) => p,
                    None => 0,
                },
            },
        )
    }
}

/// Build a stock piece from its decoded fields, exactly as
/// `spec_assemble_stock` states.
pub fn assemble_stock_piece(
    width: Option<usize>,
    length: Option<usize>,
    direction: Option<PatternDirection>,
    price: Option<usize>,
) -> (r: Result<StockPiece, String>)
    ensures
        decode_matches(r, spec_assemble_stock(width, length, direction, price)),
{
    let width = match width {
        Some(w) if w <= MAX_DIMENSION => w,
        _ => {
            return Err(String::from_str("missing or invalid field `width`"));
        },
    };
    let length = match length {
        Some(l) if l <= MAX_DIMENSION => l,
        _ => {
            return Err(String::from_str("missing or invalid field `length`"));
        },
    };
    let pattern_direction = match direction {
        Some(d) => d,
        None => {
            return Err(String::from_str("missing or invalid field `patternDirection`"));
        },
    };
    let price = match price {
        Some(p) => {
            if p <= MAX_DIMENSION {
                p
            } else {
                return Err(String::from_str("missing or invalid field `price`"));
            }
        },
        None => 0,
    };
    Ok(StockPiece { width, length, pattern_direction, price })
}

/// What building a cut piece from its decoded fields yields: width,
/// length, pattern direction and the rotate flag are required, the
/// dimensions within bounds; the external id stays optional and
/// opaque.
pub open spec fn spec_assemble_cut(
    external_id: Option<usize>,
    width: Option<usize>,
    length: Option<usize>,
    direction: Option<PatternDirection>,
    can_rotate: Option<bool>,
) -> Result<CutPiece, Seq<char>> {
    if !usable_dim(width) {
        Err("missing or invalid field `width`"@)
    } else if !usable_dim(length) {
        Err("missing or invalid field `length`"@)
    } else if direction is None {
        Err("missing or invalid field `patternDirection`"@)
    } else if can_rotate is None {
        Err("missing or invalid field `canRotate`"@)
    } else {
        Ok(
            CutPiece {
                external_id,
                width: width->0,
                length: length->0,
                pattern_direction: direction->0,
                can_rotate: can_rotate->0,
            },
        )
    }
}

/// Build a cut piece from its decoded fields, exactly as
/// `spec_assemble_cut` states.
pub fn assemble_cut_piece(
    external_id: Option<usize>,
    width: Option<usize>,
    length: Option<usize>,
    direction: Option<PatternDirection>,
    can_rotate: Option<bool>,
) -> (r: Result<CutPiece, String>)
    ensures
        decode_matches(r, spec_assemble_cut(external_id, width, length, direction, can_rotate)),
{
    let width = match width {
        Some(w) if w <= MAX_DIMENSION => w,
        _ => {
            return Err(String::from_str("missing or invalid field `width`"));
        },
    };
    let length = match length {
        Some(l) if l <= MAX_DIMENSION => l,
        _ => {
            return Err(String::from_str("missing or invalid field `length`"));
        },
    };
    let pattern_direction = match direction {
        Some(d) => d,
        None => {
            return Err(String::from_str("missing or invalid field `patternDirection`"));
        },
    };
    let can_rotate = match can_rotate {
        Some(c) => c,
        None => {
            return Err(String::from_str("missing or invalid field `canRotate`"));
        },
    };
    Ok(CutPiece { external_id, width, length, pattern_direction, can_rotate })
}

/// The named field of a document model, when the document is an object
/// that has it.
pub open spec fn spec_field(m: JsonModel, name: Seq<char>) -> Option<JsonModel> {
    match m {
        JsonModel::Obj(fields) => if fields.contains_key(name) {
            Some(fields[name])
        } else {
            None
        },
        _ => None,
    }
}

/// The named field read as an unsigned number fitting in `usize`.
pub open spec fn spec_usize_field(m: JsonModel, name: Seq<char>) -> Option<usize> {
    match spec_field(m, name) {
        Some(f) => match f {
            JsonModel::Num(n) => match n {
                Some(x) => if x <= usize::MAX as u64 {
                    Some(x as usize)
                } else {
                    None
                },
                None => None,
            },
            _ => None,
        },
        None => None,
    }
}

/// The pattern direction field of a piece object, if it is a string
/// naming one.
pub open spec fn spec_read_direction(m: JsonModel) -> Option<PatternDirection> {
    match spec_field(m, "patternDirection"@) {
        Some(f) => match f {
            JsonModel::Str(s) => spec_parse_direction(s),
            _ => None,
        },
        None => None,
    }
}

/// What decoding one element of `stockPieces` yields.
pub open spec fn spec_decode_stock(m: JsonModel) -> Result<StockPiece, Seq<char>> {
    spec_assemble_stock(
        spec_usize_field(m, "width"@),
        spec_usize_field(m, "length"@),
        spec_read_direction(m),
        spec_usize_field(m, "price"@),
    )
}

/// What decoding one element of `cutPieces` yields.
pub open spec fn spec_decode_cut(m: JsonModel) -> Result<CutPiece, Seq<char>> {
    spec_assemble_cut(
        spec_usize_field(m, "externalId"@),
        spec_usize_field(m, "width"@),
        spec_usize_field(m, "length"@),
        spec_read_direction(m),
        (match spec_field(m, "canRotate"@) {
            Some(f) => match f {
                JsonModel::Bool(b) => Some(b),
                _ => None,
            },
            None => None,
        }),
    )
}

/// What decoding a list of stock piece elements yields: the pieces in
/// order, or the first element's error.
pub open spec fn spec_decode_stock_list(elems: Seq<JsonModel>) -> Result<
    Seq<StockPiece>,
    Seq<char>,
>
    decreases elems.len(),
{
    if elems.len() == 0 {
        Ok(Seq::empty())
    } else {
        match spec_decode_stock(elems[0]) {
            Err(e) => Err(e),
            Ok(p) => match spec_decode_stock_list(elems.skip(1)) {
                Err(e) => Err(e),
                Ok(rest) => Ok(seq![p] + rest),
            },
        }
    }
}

/// What decoding a list of cut piece elements yields, like
/// `spec_decode_stock_list`.
pub open spec fn spec_decode_cut_list(elems: Seq<JsonModel>) -> Result<Seq<CutPiece>, Seq<char>>
    decreases elems.len(),
{
    if elems.len() == 0 {
        Ok(Seq::empty())
    } else {
        match spec_decode_cut(elems[0]) {
            Err(e) => Err(e),
            Ok(p) => match spec_decode_cut_list(elems.skip(1)) {
                Err(e) => Err(e),
                Ok(rest) => Ok(seq![p] + rest),
            },
        }
    }
}

/// What decoding the `method` field yields: absent means guillotine.
pub open spec fn spec_decode_method(m: JsonModel) -> Result<OptimizeMethod, Seq<char>> {
    match spec_field(m, "method"@) {
        None => Ok(OptimizeMethod::Guillotine),
        Some(f) => match f {
            JsonModel::Str(s) => match spec_parse_method(s) {
                Some(x) => Ok(x),
                None => Err("missing or invalid field `method`"@),
            },
            _ => Err("missing or invalid field `method`"@),
        },
    }
}

/// What decoding the `randomSeed` field yields: absent means one.
pub open spec fn spec_decode_seed(m: JsonModel) -> Result<u64, Seq<char>> {
    match spec_field(m, "randomSeed"@) {
        None => Ok(1u64),
        Some(f) => match f {
            JsonModel::Num(n) => match n {
                Some(x) => Ok(x),
                None => Err("missing or invalid field `randomSeed`"@),
            },
            _ => Err("missing or invalid field `randomSeed`"@),
        },
    }
}

/// What decoding the `cutWidth` field yields: required and within the
/// service's bound.
pub open spec fn spec_decode_cut_width(m: JsonModel) -> Result<usize, Seq<char>> {
    match spec_usize_field(m, "cutWidth"@) {
        Some(w) => if w <= MAX_DIMENSION {
            Ok(w)
        } else {
            Err("missing or invalid field `cutWidth`"@)
        },
        None => Err("missing or invalid field `cutWidth`"@),
    }
}

/// What decoding the `allowMixedStockSizes` field yields: absent means
/// allowed.
pub open spec fn spec_decode_mixed(m: JsonModel) -> Result<bool, Seq<char>> {
    match spec_field(m, "allowMixedStockSizes"@) {
        None => Ok(true),
        Some(f) => match f {
            JsonModel::Bool(b) => Ok(b),
            _ => Err("missing or invalid field `allowMixedStockSizes`"@),
        },
    }
}

/// What decoding a piece-list field yields: a required array of at
/// most `MAX_PIECES` stock piece elements.
pub open spec fn spec_decode_stock_field(m: JsonModel) -> Result<Seq<StockPiece>, Seq<char>> {
    match spec_field(m, "stockPieces"@) {
        Some(f) => match f {
            JsonModel::Arr(elems) => if elems.len() <= MAX_PIECES {
                spec_decode_stock_list(elems)
            } else {
                Err("missing or invalid field `stockPieces`"@)
            },
            _ => Err("missing or invalid field `stockPieces`"@),
        },
        None => Err("missing or invalid field `stockPieces`"@),
    }
}

/// What decoding the `cutPieces` field yields, like
/// `spec_decode_stock_field`.
pub open spec fn spec_decode_cut_field(m: JsonModel) -> Result<Seq<CutPiece>, Seq<char>> {
    match spec_field(m, "cutPieces"@) {
        Some(f) => match f {
            JsonModel::Arr(elems) => if elems.len() <= MAX_PIECES {
                spec_decode_cut_list(elems)
            } else {
                Err("missing or invalid field `cutPieces`"@)
            },
            _ => Err("missing or invalid field `cutPieces`"@),
        },
        None => Err("missing or invalid field `cutPieces`"@),
    }
}

/// What decoding a whole document yields: each field in the documented
/// order, the documented defaults for the optional ones, and the first
/// offending field's message otherwise.
pub open spec fn spec_decode(m: JsonModel) -> Result<InputModel, Seq<char>> {
    match spec_decode_method(m) {
        Err(e) => Err(e),
        Ok(method) => match spec_decode_seed(m) {
            Err(e) => Err(e),
            Ok(random_seed) => match spec_decode_cut_width(m) {
                Err(e) => Err(e),
                Ok(cut_width) => match spec_decode_stock_field(m) {
                    Err(e) => Err(e),
                    Ok(stock) => match spec_decode_cut_field(m) {
                        Err(e) => Err(e),
                        Ok(cuts) => match spec_decode_mixed(m) {
                            Err(e) => Err(e),
                            Ok(allow_mixed_stock_sizes) => Ok(
                                InputModel {
                                    method,
                                    random_seed,
                                    cut_width,
                                    stock,
                                    cuts,
                                    allow_mixed_stock_sizes,
                                },
                            ),
                        },
                    },
                },
            },
        },
    }
}

/// Law: the documented defaults hold.  A document that decodes without
/// naming `method`, `randomSeed` or `allowMixedStockSizes` gets the
/// guillotine method, seed one, and mixed stock sizes allowed.
pub proof fn lemma_documented_defaults(m: JsonModel)
    requires
        spec_field(m, "method"@) is None,
        spec_field(m, "randomSeed"@) is None,
        spec_field(m, "allowMixedStockSizes"@) is None,
        spec_decode(m) is Ok,
    ensures
        spec_decode(m)->Ok_0.method == OptimizeMethod::Guillotine,
        spec_decode(m)->Ok_0.random_seed == 1,
        spec_decode(m)->Ok_0.allow_mixed_stock_sizes == true,
{
}

/// Law: a required field cannot be left out.  A document without a
/// usable `cutWidth` — the empty object among them — never decodes,
/// and the same holds without `stockPieces` or `cutPieces`; the
/// pipeline answers such a request with 400.
pub proof fn lemma_missing_required_field_refused(m: JsonModel)
    requires
        spec_field(m, "cutWidth"@) is None || spec_field(m, "stockPieces"@) is None || spec_field(
            m,
            "cutPieces"@,
        ) is None,
    ensures
        spec_decode(m) is Err,
{
}

/// Whether an executable decode of a whole request agrees, value for
/// value, with the spec-level decode of the document model.
pub open spec fn decode_matches_input(
    r: Result<OptimizerInput, String>,
    s: Result<InputModel, Seq<char>>,
) -> bool {
    &&& (r is Ok <==> s is Ok)
    &&& (r matches Ok(i) ==> s matches Ok(m) && i@ == m)
    &&& (r matches Err(e) ==> s matches Err(m) && e@ == m)
}

/// Read the pattern direction field of a piece object.
fn read_direction(v: &JsonValue) -> (r: Option<PatternDirection>)
    ensures
        r == spec_read_direction(crate::jsonval::value_model(*v)),
{
    match value_get(v, "patternDirection") {
        Some(d) => match value_as_string(d) {
            Some(s) => parse_direction(&s),
            None => None,
        },
        None => None,
    }
}

/// Decode one element of `stockPieces`.
fn decode_stock_piece(v: &JsonValue) -> (r: Result<StockPiece, String>)
    ensures
        decode_matches(r, spec_decode_stock(crate::jsonval::value_model(*v))),
{
    let width = match value_get(v, "width") {
        Some(w) => value_as_usize(w),
        None => None,
    };
    let length = match value_get(v, "length") {
        Some(l) => value_as_usize(l),
        None => None,
    };
    let direction = read_direction(v);
    let price = match value_get(v, "price") {
        Some(p) => value_as_usize(p),
        None => None,
    };
    assemble_stock_piece(width, length, direction, price)
}

/// Decode one element of `cutPieces`.
fn decode_cut_piece(v: &JsonValue) -> (r: Result<CutPiece, String>)
    ensures
        decode_matches(r, spec_decode_cut(crate::jsonval::value_model(*v))),
{
    let external_id = match value_get(v, "externalId") {
        Some(i) => value_as_usize(i),
        None => None,
    };
    let width = match value_get(v, "width") {
        Some(w) => value_as_usize(w),
        None => None,
    };
    let length = match value_get(v, "length") {
        Some(l) => value_as_usize(l),
        None => None,
    };
    let direction = read_direction(v);
    let can_rotate = match value_get(v, "canRotate") {
        Some(c) => value_as_bool(c),
        None => None,
    };
    assemble_cut_piece(external_id, width, length, direction, can_rotate)
}

/// Decode a parsed JSON document into an `OptimizerInput`, exactly as
/// `spec_decode` states.
#[verifier::loop_isolation(false)]
#[verifier::rlimit(60)]
fn decode_input(v: &JsonValue) -> (r: Result<OptimizerInput, String>)
    ensures
        decode_matches_input(r, spec_decode(crate::jsonval::value_model(*v))),
{
    let ghost m = crate::jsonval::value_model(*v);
    let method = match value_get(v, "method") {
        Some(f) => match value_as_string(f) {
            Some(s) => match parse_method(&s) {
                Some(x) => x,
                None => {
                    return Err(String::from_str("missing or invalid field `method`"));
                },
            },
            None => {
                return Err(String::from_str("missing or invalid field `method`"));
            },
        },
        None => OptimizeMethod::Guillotine,
    };
    let random_seed = match value_get(v, "randomSeed") {
        Some(f) => match value_as_u64(f) {
            Some(n) => n,
            None => {
                return Err(String::from_str("missing or invalid field `randomSeed`"));
            },
        },
        None => 1,
    };
    let cut_width = match value_get(v, "cutWidth") {
        Some(f) => match value_as_usize(f) {
            Some(n) if n <= MAX_DIMENSION => n,
            _ => {
                return Err(String::from_str("missing or invalid field `cutWidth`"));
            },
        },
        None => {
            return Err(String::from_str("missing or invalid field `cutWidth`"));
        },
    };
    let stock_values = match value_get(v, "stockPieces") {
        Some(f) => match value_as_array(f) {
            Some(elems) if elems.len() <= MAX_PIECES => elems,
            _ => {
                return Err(String::from_str("missing or invalid field `stockPieces`"));
            },
        },
        None => {
            return Err(String::from_str("missing or invalid field `stockPieces`"));
        },
    };
    let ghost stock_elems = (match spec_field(m, "stockPieces"@) {
        Some(JsonModel::Arr(elems)) => elems,
        _ => Seq::empty(),
    });
    let mut stock_pieces: Vec<StockPiece> = Vec::new();
    let stock_n = stock_values.len();
    proof {
        assert(stock_elems.skip(0) =~= stock_elems);
        if spec_decode_stock_list(stock_elems) is Ok {
            assert(Seq::<StockPiece>::empty() + spec_decode_stock_list(stock_elems)->Ok_0
                =~= spec_decode_stock_list(stock_elems)->Ok_0);
        }
    }
    for i in 0..stock_n
        invariant
            stock_n == stock_values@.len(),
            stock_elems.len() == stock_values@.len(),
            forall|j: int|
                0 <= j < stock_elems.len() ==> crate::jsonval::value_model(#[trigger] stock_values@[j])
                    == stock_elems[j],
            spec_decode_stock_list(stock_elems.skip(i as int)) matches Ok(rest) ==> (
            spec_decode_stock_list(stock_elems) matches Ok(all) && all == stock_pieces@ + rest),
            spec_decode_stock_list(stock_elems.skip(i as int)) matches Err(e) ==> (
            spec_decode_stock_list(stock_elems) matches Err(e2) && e2 == e),
    {
        match decode_stock_piece(&stock_values[i]) {
            Ok(p) => {
                proof {
                    assert(stock_elems.skip(i as int)[0] == stock_elems[i as int]);
                    assert(stock_elems.skip(i as int).skip(1) =~= stock_elems.skip(i + 1));
                }
                stock_pieces.push(p);
                proof {
                    if spec_decode_stock_list(stock_elems.skip(i + 1)) is Ok {
                        let rest = spec_decode_stock_list(stock_elems.skip(i + 1))->Ok_0;
                        assert(spec_decode_stock_list(stock_elems.skip(i as int))
                            == Ok::<Seq<StockPiece>, Seq<char>>(seq![p] + rest));
                        assert((stock_pieces@.drop_last() + (seq![p] + rest)) =~= (stock_pieces@
                            + rest));
                    }
                }
            },
            Err(e) => {
                proof {
                    assert(stock_elems.skip(i as int).len() > 0);
                    assert(stock_elems.skip(i as int)[0] == stock_elems[i as int]);
                    assert(spec_decode_stock_list(stock_elems.skip(i as int)) matches Err(m2)
                        && m2 == e@);
                    assert(spec_decode_stock_list(stock_elems) matches Err(m3) && m3 == e@);
                    assert(spec_decode_stock_field(m) matches Err(m4) && m4 == e@);
                    assert(spec_decode(m) matches Err(m5) && m5 == e@);
                }
                return Err(e);
            },
        }
    }
    proof {
        assert(stock_elems.skip(stock_n as int) =~= Seq::<JsonModel>::empty());
        assert(spec_decode_stock_list(stock_elems.skip(stock_n as int)) == Ok::<
            Seq<StockPiece>,
            Seq<char>,
        >(Seq::empty()));
        assert(stock_pieces@ + Seq::<StockPiece>::empty() =~= stock_pieces@);
    }
    let cut_values = match value_get(v, "cutPieces") {
        Some(f) => match value_as_array(f) {
            Some(elems) if elems.len() <= MAX_PIECES => elems,
            _ => {
                return Err(String::from_str("missing or invalid field `cutPieces`"));
            },
        },
        None => {
            return Err(String::from_str("missing or invalid field `cutPieces`"));
        },
    };
    let ghost cut_elems = (match spec_field(m, "cutPieces"@) {
        Some(JsonModel::Arr(elems)) => elems,
        _ => Seq::empty(),
    });
    let mut cut_pieces: Vec<CutPiece> = Vec::new();
    let cut_n = cut_values.len();
    proof {
        assert(cut_elems.skip(0) =~= cut_elems);
        if spec_decode_cut_list(cut_elems) is Ok {
            assert(Seq::<CutPiece>::empty() + spec_decode_cut_list(cut_elems)->Ok_0
                =~= spec_decode_cut_list(cut_elems)->Ok_0);
        }
    }
    for i in 0..cut_n
        invariant
            cut_n == cut_values@.len(),
            cut_elems.len() == cut_values@.len(),
            forall|j: int|
                0 <= j < cut_elems.len() ==> crate::jsonval::value_model(#[trigger] cut_values@[j])
                    == cut_elems[j],
            spec_decode_cut_list(cut_elems.skip(i as int)) matches Ok(rest) ==> (
            spec_decode_cut_list(cut_elems) matches Ok(all) && all == cut_pieces@ + rest),
            spec_decode_cut_list(cut_elems.skip(i as int)) matches Err(e) ==> (
            spec_decode_cut_list(cut_elems) matches Err(e2) && e2 == e),
    {
        match decode_cut_piece(&cut_values[i]) {
            Ok(p) => {
                proof {
                    assert(cut_elems.skip(i as int)[0] == cut_elems[i as int]);
                    assert(cut_elems.skip(i as int).skip(1) =~= cut_elems.skip(i + 1));
                }
                cut_pieces.push(p);
                proof {
                    if spec_decode_cut_list(cut_elems.skip(i + 1)) is Ok {
                        let rest = spec_decode_cut_list(cut_elems.skip(i + 1))->Ok_0;
                        assert(spec_decode_cut_list(cut_elems.skip(i as int))
                            == Ok::<Seq<CutPiece>, Seq<char>>(seq![p] + rest));
                        assert((cut_pieces@.drop_last() + (seq![p] + rest)) =~= (cut_pieces@
                            + rest));
                    }
                }
            },
            Err(e) => {
                proof {
                    assert(cut_elems.skip(i as int).len() > 0);
                    assert(cut_elems.skip(i as int)[0] == cut_elems[i as int]);
                    assert(spec_decode_cut_list(cut_elems.skip(i as int)) matches Err(m2)
                        && m2 == e@);
                    assert(spec_decode_cut_list(cut_elems) matches Err(m3) && m3 == e@);
                    assert(spec_decode_cut_field(m) matches Err(m4) && m4 == e@);
                    assert(spec_decode(m) matches Err(m5) && m5 == e@);
                }
                return Err(e);
            },
        }
    }
    proof {
        assert(cut_elems.skip(cut_n as int) =~= Seq::<JsonModel>::empty());
        assert(spec_decode_cut_list(cut_elems.skip(cut_n as int)) == Ok::<
            Seq<CutPiece>,
            Seq<char>,
        >(Seq::empty()));
        assert(cut_pieces@ + Seq::<CutPiece>::empty() =~= cut_pieces@);
    }
    let allow_mixed_stock_sizes = match value_get(v, "allowMixedStockSizes") {
        Some(f) => match value_as_bool(f) {
            Some(x) => x,
            None => {
                return Err(String::from_str("missing or invalid field `allowMixedStockSizes`"));
            },
        },
        None => true,
    };
    Ok(
        OptimizerInput {
            method,
            random_seed,
            cut_width,
            stock_pieces,
            cut_pieces,
            allow_mixed_stock_sizes,
        },
    )
}

/// Law: a decoded request is within the service's bounds — every
/// dimension, price and the cut width at most `MAX_DIMENSION`, each
/// piece list at most `MAX_PIECES` long — so the engine's unchecked
/// arithmetic stays in range on everything the decoder lets through.
pub proof fn lemma_decoded_within_limits(m: JsonModel)
    requires
        spec_decode(m) is Ok,
    ensures
        input_within_limits(spec_decode(m)->Ok_0),
{
    let d = spec_decode(m)->Ok_0;
    let stock_elems = (match spec_field(m, "stockPieces"@) {
        Some(JsonModel::Arr(elems)) => elems,
        _ => Seq::empty(),
    });
    let cut_elems = (match spec_field(m, "cutPieces"@) {
        Some(JsonModel::Arr(elems)) => elems,
        _ => Seq::empty(),
    });
    lemma_stock_list_within_limits(stock_elems);
    lemma_cut_list_within_limits(cut_elems);
}

/// Every stock piece a list decode yields is within the bounds, and
/// there are as many as there were elements.
proof fn lemma_stock_list_within_limits(elems: Seq<JsonModel>)
    ensures
        spec_decode_stock_list(elems) matches Ok(l) ==> l.len() == elems.len() && (forall|j: int|
            0 <= j < l.len() ==> stock_within_limits(#[trigger] l[j])),
    decreases elems.len(),
{
    if elems.len() != 0 {
        lemma_stock_list_within_limits(elems.skip(1));
    }
}

/// Every cut piece a list decode yields is within the bounds, and
/// there are as many as there were elements.
proof fn lemma_cut_list_within_limits(elems: Seq<JsonModel>)
    ensures
        spec_decode_cut_list(elems) matches Ok(l) ==> l.len() == elems.len() && (forall|j: int|
            0 <= j < l.len() ==> cut_within_limits(#[trigger] l[j])),
    decreases elems.len(),
{
    if elems.len() != 0 {
        lemma_cut_list_within_limits(elems.skip(1));
    }
}

/// Decode a request body into an `OptimizerInput`.  Bytes that are not
/// a valid JSON document are rejected with the parser's message; a
/// valid document decodes exactly as `spec_decode` states, the
/// documented defaults included, and everything it lets through is
/// within the service's bounds.
pub fn decode_request(body: &[u8]) -> (r: Result<OptimizerInput, String>)
    ensures
        !json_wf(body@) ==> r is Err,
        json_wf(body@) ==> decode_matches_input(r, spec_decode(doc_of(body@))),
        r matches Ok(i) ==> input_within_limits(i@),
{
    match parse_json(body) {
        Ok(v) => {
            let r = decode_input(&v);
            proof {
                if r is Ok {
                    lemma_decoded_within_limits(crate::jsonval::value_model(v));
                }
            }
            r
        },
        Err(m) => Err(m),
    }
}

} // verus!
