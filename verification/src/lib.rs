//! Static detection of CommonJS named exports and re-exports.
//!
//! A single heuristic pass over the parsed top level of a CommonJS module
//! recognizes a fixed catalogue of export-producing patterns and accumulates
//! two insertion-ordered, duplicate-free lists: the names assigned on the
//! module's export object, and the specifiers of modules re-exported
//! wholesale.

use vstd::prelude::*;

pub mod ast;
pub mod engine;
pub mod laws;
pub mod model;
pub mod ordset;

verus! {

/// Inserts `x` into the insertion-ordered duplicate-free sequence `s`:
/// a name already present leaves the sequence unchanged.
pub open spec fn ins(s: Seq<Seq<char>>, x: Seq<char>) -> Seq<Seq<char>> {
    if s.contains(x) {
        s
    } else {
        s.push(x)
    }
}

} // verus!
