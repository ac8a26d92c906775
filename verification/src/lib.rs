//! A minimal pattern-matching engine.
//!
//! A textual pattern is compiled once into an executable matching program;
//! the resulting [`MatchEngine`] answers whole-buffer match queries and hands out
//! a lazy iterator over the non-overlapping match spans of a byte buffer.
//! Match spans are plain byte-offset pairs into the caller's buffer.
//!
//! The byte buffers handed to the match entry points are expected to be
//! valid UTF-8; the engine matches with full-Unicode semantics and does not
//! re-validate the buffer on every call.

pub mod engine;
pub mod error;
pub mod native;
pub mod payload;
pub mod scan;

use vstd::prelude::*;

verus! {

pub use crate::engine::MatchEngine;
pub use crate::error::MatchError;
pub use crate::scan::FindMatches;

} // verus!
