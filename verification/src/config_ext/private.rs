use vstd::prelude::*;

verus! {

/// Seals [`super::ConfigExt`]: no type outside this crate can implement it.
pub trait Sealed {}

impl Sealed for crate::config::Config {}

} // verus!
