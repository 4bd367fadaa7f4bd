pub mod counted;
pub mod eight_bit;
pub mod pipeline;
pub mod radix;
pub mod routing;
pub mod soa;
pub mod sorter;
pub mod uniforms;

use vstd::prelude::*;

verus! {

/// A `u32` key and its associated `u32` value.
#[derive(Clone, Copy, Debug, Default, PartialEq, Eq, Structural)]
pub struct KeyValue {
    pub key: u32,
    pub value: u32,
}

impl KeyValue {
    pub fn new(key: u32, value: u32) -> (r: KeyValue)
        ensures
            r == (KeyValue { key, value }),
    {
        KeyValue { key, value }
    }
}

} // verus!
