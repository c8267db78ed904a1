//! The optimization engine, behind trusted wrappers.
//!
//! The combinatorial optimization itself is the business of the
//! `cut_optimizer_2d` crate and stays outside this library's proofs: it
//! is a pure, CPU-bound function of the request.  The crate documents
//! that the same random seed gives the same result for the same input,
//! so each entry point's outcome is named here as an uninterpreted
//! function of the configuration, and everything around the call is
//! verified against that name.

use vstd::prelude::*;

use crate::model::{
    input_within_limits, CutPiece, InputModel, OptimizeMethod, OptimizerInput, PatternDirection,
    StockPiece,
};
use cut_optimizer_2d::CutPiece as EngineCutPiece;
use cut_optimizer_2d::PatternDirection as EnginePatternDirection;
use cut_optimizer_2d::StockPiece as EngineStockPiece;

verus! {

/// The result of the guillotine optimization on a given configuration:
/// either the solution, serialized as JSON, or the demanded piece that
/// fits no stock piece.
pub uninterp spec fn guillotine_outcome(
    stock: Seq<StockPiece>,
    cuts: Seq<CutPiece>,
    cut_width: usize,
    seed: u64,
    mixed: bool,
) -> Result<Seq<char>, CutPiece>;

/// The result of the nested (free placement) optimization on a given
/// configuration, like `guillotine_outcome`.
pub uninterp spec fn nested_outcome(
    stock: Seq<StockPiece>,
    cuts: Seq<CutPiece>,
    cut_width: usize,
    seed: u64,
    mixed: bool,
) -> Result<Seq<char>, CutPiece>;

/// The outcome of the engine on a decoded request, whichever method it
/// names.
pub open spec fn spec_engine_outcome(m: InputModel) -> Result<Seq<char>, CutPiece> {
    match m.method {
        OptimizeMethod::Guillotine => guillotine_outcome(
            m.stock,
            m.cuts,
            m.cut_width,
            m.random_seed,
            m.allow_mixed_stock_sizes,
        ),
        OptimizeMethod::Nested => nested_outcome(
            m.stock,
            m.cuts,
            m.cut_width,
            m.random_seed,
            m.allow_mixed_stock_sizes,
        ),
    }
}

/// What each engine wrapper promises of its return value: it is exactly
/// the named outcome of the configuration, and a no-fit error carries
/// one of the demanded pieces.
pub open spec fn engine_post(
    r: Result<String, CutPiece>,
    o: Result<Seq<char>, CutPiece>,
    cuts: Seq<CutPiece>,
) -> bool {
    &&& (r is Ok <==> o is Ok)
    &&& (r is Ok ==> r->Ok_0@ == o->Ok_0)
    &&& (r is Err ==> r->Err_0 == o->Err_0)
    &&& (r is Err ==> exists|j: int| 0 <= j < cuts.len() && cuts[j] == r->Err_0)
}

#[verifier::external_type_specification]
#[verifier::external_body]
pub struct ExEngineStockPiece(EngineStockPiece);

#[verifier::external_type_specification]
#[verifier::external_body]
pub struct ExEngineCutPiece(EngineCutPiece);

#[verifier::external_type_specification]
#[verifier::external_body]
pub struct ExEnginePatternDirection(EnginePatternDirection);

/// Relies on the public field layout of `cut_optimizer_2d::StockPiece`:
/// copies width, length, pattern direction and price one for one; the
/// engine's quantity is `None`, an unlimited supply of each listed
/// sheet.
#[verifier::external_body]
fn stock_to_engine(p: &StockPiece) -> EngineStockPiece {
    EngineStockPiece {
        width: p.width,
        length: p.length,
        pattern_direction: dir_to_engine(p.pattern_direction),
        price: p.price,
        quantity: None,
    }
}

/// Relies on the public field layout of `cut_optimizer_2d::CutPiece`:
/// copies the identifying and geometric fields one for one; each listed
/// piece is demanded once, so the engine's quantity is one.
#[verifier::external_body]
fn cut_to_engine(p: &CutPiece) -> EngineCutPiece {
    EngineCutPiece {
        quantity: 1,
        external_id: p.external_id,
        width: p.width,
        length: p.length,
        pattern_direction: dir_to_engine(p.pattern_direction),
        can_rotate: p.can_rotate,
    }
}

/// Relies on the variants of `cut_optimizer_2d::PatternDirection`: maps
/// each variant of this library's pattern direction to its counterpart.
#[verifier::external_body]
fn dir_to_engine(d: PatternDirection) -> EnginePatternDirection {
    match d {
        PatternDirection::NoPattern => EnginePatternDirection::None,
        PatternDirection::ParallelToWidth => EnginePatternDirection::ParallelToWidth,
        PatternDirection::ParallelToLength => EnginePatternDirection::ParallelToLength,
    }
}

/// Relies on the public field layout of `cut_optimizer_2d::CutPiece`:
/// copies the identifying and geometric fields back one for one,
/// dropping the engine's quantity.
#[verifier::external_body]
fn cut_from_engine(p: &EngineCutPiece) -> CutPiece {
    CutPiece {
        external_id: p.external_id,
        width: p.width,
        length: p.length,
        pattern_direction: dir_from_engine(p.pattern_direction),
        can_rotate: p.can_rotate,
    }
}

/// Relies on the variants of `cut_optimizer_2d::PatternDirection`: maps
/// each variant back to its counterpart in this library.
#[verifier::external_body]
fn dir_from_engine(d: EnginePatternDirection) -> PatternDirection {
    match d {
        EnginePatternDirection::None => PatternDirection::NoPattern,
        EnginePatternDirection::ParallelToWidth => PatternDirection::ParallelToWidth,
        EnginePatternDirection::ParallelToLength => PatternDirection::ParallelToLength,
    }
}

/// Relies on `cut_optimizer_2d::Optimizer::optimize_guillotine` and the
/// `Optimizer` builder methods, and on `serde_json::to_string` for the
/// solution: the crate documents that the same random seed gives the
/// same result for the same input, and that the no-fit error wraps the
/// demanded piece that fits no stock piece.  The engine adds a handful
/// of dimensions, multiplies pairs of them into 64-bit areas, folds
/// those areas over a layout's pieces and sums prices over used
/// sheets, all unchecked, so inputs are required to be within the
/// service's bounds, under which every such sum and product stays in
/// range and the call cannot panic.
#[verifier::external_body]
fn engine_guillotine(input: &OptimizerInput) -> (r: Result<String, CutPiece>)
    requires
        input_within_limits(input@),
    ensures
        engine_post(
            r,
            guillotine_outcome(
                input.stock_pieces@,
                input.cut_pieces@,
                input.cut_width,
                input.random_seed,
                input.allow_mixed_stock_sizes,
            ),
            input.cut_pieces@,
        ),
{
    let mut opt = cut_optimizer_2d::Optimizer::new();
    opt.set_random_seed(input.random_seed).set_cut_width(input.cut_width).allow_mixed_stock_sizes(
        input.allow_mixed_stock_sizes,
    );
    opt.add_stock_pieces(input.stock_pieces.iter().map(stock_to_engine));
    opt.add_cut_pieces(input.cut_pieces.iter().map(cut_to_engine));
    match opt.optimize_guillotine(|_| {}) {
        Ok(s) => Ok(serde_json::to_string(&s).unwrap_or(String::new())),
        Err(cut_optimizer_2d::Error::NoFitForCutPiece(p)) => Err(cut_from_engine(&p)),
    }
}

/// Relies on `cut_optimizer_2d::Optimizer::optimize_nested` and the
/// `Optimizer` builder methods, and on `serde_json::to_string` for the
/// solution, as `engine_guillotine` does for its entry point, with the
/// same bounds on the input for the same reason.
#[verifier::external_body]
fn engine_nested(input: &OptimizerInput) -> (r: Result<String, CutPiece>)
    requires
        input_within_limits(input@),
    ensures
        engine_post(
            r,
            nested_outcome(
                input.stock_pieces@,
                input.cut_pieces@,
                input.cut_width,
                input.random_seed,
                input.allow_mixed_stock_sizes,
            ),
            input.cut_pieces@,
        ),
{
    let mut opt = cut_optimizer_2d::Optimizer::new();
    opt.set_random_seed(input.random_seed).set_cut_width(input.cut_width).allow_mixed_stock_sizes(
        input.allow_mixed_stock_sizes,
    );
    opt.add_stock_pieces(input.stock_pieces.iter().map(stock_to_engine));
    opt.add_cut_pieces(input.cut_pieces.iter().map(cut_to_engine));
    match opt.optimize_nested(|_| {}) {
        Ok(s) => Ok(serde_json::to_string(&s).unwrap_or(String::new())),
        Err(cut_optimizer_2d::Error::NoFitForCutPiece(p)) => Err(cut_from_engine(&p)),
    }
}

/// Run the engine entry point that the decoded request names.  The
/// result is a function of the decoded request alone: either the
/// solution serialized as JSON, or the demanded piece that fits no
/// stock piece.
pub fn run_optimizer(input: &OptimizerInput) -> (r: Result<String, CutPiece>)
    requires
        input_within_limits(input@),
    ensures
        engine_post(r, spec_engine_outcome(input@), input.cut_pieces@),
{
    match input.method {
        OptimizeMethod::Guillotine => engine_guillotine(input),
        OptimizeMethod::Nested => engine_nested(input),
    }
}

} // verus!
