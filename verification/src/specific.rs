//! Domain value types: identifiers, image references, languages, sources.

use vstd::prelude::*;

pub mod id;
pub mod image;
pub mod language;
pub mod source;

verus! {

/// One of two alternatives.
#[derive(Debug, PartialEq, Eq, Clone, Copy)]
pub enum Either<A, B> {
    Left(A),
    Right(B),
}

} // verus!
