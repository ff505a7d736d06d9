use vstd::prelude::*;

verus! {

/// Sealing marker for the boolean extension capability.
///
/// Only `bool` implements this trait, and the module that holds it is not
/// exported, so code outside this crate cannot name it and therefore cannot
/// implement any public trait that requires it.
pub trait Sealed {}

impl Sealed for bool {}

} // verus!
