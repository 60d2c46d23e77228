//! A general-purpose wrapper for the newtype pattern.

use vstd::prelude::*;

verus! {

/// A tuple struct around one value of any type.
pub struct W<T>(pub T);

} // verus!
