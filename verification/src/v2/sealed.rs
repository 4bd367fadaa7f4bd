use vstd::prelude::*;

verus! {

/// Restricts [`super::GpuElement`] to the element types the experimental
/// views accept.
pub trait Sealed {
}

impl Sealed for u32 {
}

} // verus!
