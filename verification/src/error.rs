//! The error values this library reports.

use vstd::prelude::*;

verus! {

/// Everything that can go wrong inside this library.
#[derive(Debug, Clone, Copy, PartialEq, Eq, Structural)]
pub enum Error {
    /// A source string held no `:` separator between agent and value.
    SourceSplit,
}

} // verus!
