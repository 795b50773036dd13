use vstd::prelude::*;

verus! {

/// Marks the types that may carry a value of the language.
pub trait Sealed {}

} // verus!
