//! Verified core of an HTTP façade over a rectangular cut-optimization
//! engine.
//!
//! The library decodes a JSON description of stock sheets and pieces to
//! cut, hands the optimization work to the `cut_optimizer_2d` engine, and
//! encodes the resulting layout or a structured error envelope together
//! with an HTTP status code.  The admission-control decisions of the
//! server (concurrency cap, load shedding, timeout normalization, and the
//! settlement of each request with exactly one response) are modelled and
//! verified here as well; the surrounding process (socket handling, the
//! async runtime, the worker pool) drives these functions from outside.

pub mod admission;
pub mod decode;
pub mod engine;
pub mod envelope;
pub mod jsonval;
pub mod model;
pub mod server;
pub mod text;
