//! Data model of the optimization service.
//!
//! These types mirror the wire format of the `POST /optimize` endpoint:
//! a request names an optimization method, a cut (kerf) width, the
//! available stock pieces and the demanded cut pieces.  All values are
//! plain integers, booleans and enumerations, so every rule about them
//! can be stated and checked here.

use vstd::prelude::*;

verus! {

/// Which packing strategy the engine should use.
#[derive(Clone, Copy, Debug, PartialEq, Eq)]
pub enum OptimizeMethod {
    /// Recursive edge-to-edge straight cuts (suitable for a panel saw).
    Guillotine,
    /// Free placement, cuts may stop mid-sheet (suitable for a CNC).
    Nested,
}

/// Direction of a linear pattern or grain on a piece.
#[derive(Clone, Copy, Debug, PartialEq, Eq)]
pub enum PatternDirection {
    /// The piece has no pattern; it may be placed either way.
    NoPattern,
    /// The pattern runs parallel to the width.
    ParallelToWidth,
    /// The pattern runs parallel to the length.
    ParallelToLength,
}

/// A rectangular sheet of raw stock that cut pieces may be taken from.
#[derive(Clone, Copy, Debug, PartialEq, Eq)]
pub struct StockPiece {
    /// Width of the sheet.
    pub width: usize,
    /// Length of the sheet.
    pub length: usize,
    /// Pattern direction of the sheet.
    pub pattern_direction: PatternDirection,
    /// Price of the sheet; zero when optimizing for waste alone.
    pub price: usize,
}

/// A rectangular piece demanded by the caller.
#[derive(Clone, Copy, Debug, PartialEq, Eq)]
pub struct CutPiece {
    /// Opaque identifier supplied by the caller; it is echoed back in
    /// error payloads so the caller can recognise the offending piece.
    pub external_id: Option<usize>,
    /// Width of the demanded piece.
    pub width: usize,
    /// Length of the demanded piece.
    pub length: usize,
    /// Pattern direction the piece must keep.
    pub pattern_direction: PatternDirection,
    /// Whether the engine may rotate the piece to make it fit.
    pub can_rotate: bool,
}

/// A fully decoded optimization request, with every default applied.
#[derive(Clone, Debug, PartialEq)]
pub struct OptimizerInput {
    /// The packing strategy to run.
    pub method: OptimizeMethod,
    /// Seed for the engine's randomized search; a fixed seed makes the
    /// result reproducible.
    pub random_seed: u64,
    /// Material lost per cut (blade or kerf width).
    pub cut_width: usize,
    /// The available stock sheets.
    pub stock_pieces: Vec<StockPiece>,
    /// The demanded cut pieces.
    pub cut_pieces: Vec<CutPiece>,
    /// Whether a solution may mix stock sheets of different sizes.
    pub allow_mixed_stock_sizes: bool,
}

/// An HTTP response as the verified core produces it: a status code and
/// a textual body.  Transport concerns (headers, compression) stay with
/// the unverified server glue.
#[derive(Clone, Debug, PartialEq)]
pub struct HttpResponse {
    /// The HTTP status code.
    pub status: u16,
    /// The response body.
    pub body: String,
}

/// The largest width, length, price or cut width the service accepts.
/// The engine sums a handful of dimensions, multiplies pairs of them
/// into 64-bit areas, folds those areas over the pieces of a layout and
/// sums prices over used sheets, all unchecked; within this bound (and
/// `MAX_PIECES` below) every such sum and product stays in range.
pub const MAX_DIMENSION: usize = 1000000;

/// The largest number of stock pieces, and of cut pieces, the service
/// accepts in one request; see `MAX_DIMENSION`.
pub const MAX_PIECES: usize = 1000000;

/// Whether a stock piece's dimensions and price are within the bounds
/// the engine's arithmetic needs.
pub open spec fn stock_within_limits(p: StockPiece) -> bool {
    &&& p.width <= MAX_DIMENSION
    &&& p.length <= MAX_DIMENSION
    &&& p.price <= MAX_DIMENSION
}

/// Whether a cut piece's dimensions are within the bounds the engine's
/// arithmetic needs.
pub open spec fn cut_within_limits(p: CutPiece) -> bool {
    &&& p.width <= MAX_DIMENSION
    &&& p.length <= MAX_DIMENSION
}

/// The mathematical model of a decoded request: the same data as
/// `OptimizerInput`, with the piece lists as sequences.
pub struct InputModel {
    /// The packing strategy to run.
    pub method: OptimizeMethod,
    /// Seed for the engine's randomized search.
    pub random_seed: u64,
    /// Material lost per cut.
    pub cut_width: usize,
    /// The available stock sheets.
    pub stock: Seq<StockPiece>,
    /// The demanded cut pieces.
    pub cuts: Seq<CutPiece>,
    /// Whether a solution may mix stock sheets of different sizes.
    pub allow_mixed_stock_sizes: bool,
}

impl View for OptimizerInput {
    type V = InputModel;

    open spec fn view(&self) -> InputModel {
        InputModel {
            method: self.method,
            random_seed: self.random_seed,
            cut_width: self.cut_width,
            stock: self.stock_pieces@,
            cuts: self.cut_pieces@,
            allow_mixed_stock_sizes: self.allow_mixed_stock_sizes,
        }
    }
}

/// Whether a decoded request is within the bounds the engine's
/// unchecked arithmetic needs: every dimension, price and the cut width
/// at most `MAX_DIMENSION`, and each piece list at most `MAX_PIECES`
/// long.  The decoder only produces such requests.
pub open spec fn input_within_limits(m: InputModel) -> bool {
    &&& m.cut_width <= MAX_DIMENSION
    &&& m.stock.len() <= MAX_PIECES
    &&& m.cuts.len() <= MAX_PIECES
    &&& (forall|j: int| 0 <= j < m.stock.len() ==> stock_within_limits(#[trigger] m.stock[j]))
    &&& (forall|j: int| 0 <= j < m.cuts.len() ==> cut_within_limits(#[trigger] m.cuts[j]))
}

} // verus!
