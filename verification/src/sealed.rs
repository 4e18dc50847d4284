use vstd::prelude::*;

verus! {

/// The crate-private half of sealing: this module is not public, so no
/// outside crate can name this marker, and therefore none can satisfy the
/// supertrait bound of `version::Sealed`.
pub trait Marker {}

} // verus!
