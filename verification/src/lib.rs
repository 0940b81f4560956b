//! Compiler core for a markup-in-expression (JSX-like) syntax: it classifies
//! expression subtrees as static or dynamic, assembles and deduplicates
//! template markup strings, extracts and memoizes conditional branches, and
//! emits per-use-site instantiation expressions plus hoisted declarations.

pub mod escape;
pub mod expr;
pub mod names;
pub mod registry;
pub mod template;
pub mod transform;
pub mod text;
pub mod tree;

use vstd::prelude::*;

verus! {

/// Increment a counter without overflowing: the generator keeps minting the
/// last value once the counter space is exhausted.
pub open spec fn spec_bump(n: u64) -> u64 {
    if n < u64::MAX {
        (n + 1) as u64
    } else {
        n
    }
}

} // verus!
