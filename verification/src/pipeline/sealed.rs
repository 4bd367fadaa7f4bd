use vstd::prelude::*;

verus! {

/// Restricts [`super::GpuElement`] to the element types the kernels understand.
pub trait Sealed {
}

impl Sealed for u32 {
}

impl Sealed for crate::sort::KeyValue {
}

} // verus!
