use vstd::prelude::*;

use crate::common::capabilities::{Backend, DeviceType, GpuFeatures};

verus! {

pub const APPLE_VENDOR: u32 = 0x106b;
pub const NVIDIA_VENDOR: u32 = 0x10de;

/// What the feature selection reads of an adapter.
pub struct AdapterInfo {
    pub name: String,
    pub vendor: u32,
    pub device_type: DeviceType,
    pub backend: Backend,
}

/// `s` begins with `prefix`.
pub open spec fn has_prefix(s: Seq<char>, prefix: Seq<char>) -> bool {
    prefix.len() <= s.len() && s.subrange(0, prefix.len() as int) == prefix
}

/// Calls `str::starts_with`, which reports whether `s` begins with `prefix`.
#[verifier::external_body]
fn starts_with(s: &str, prefix: &str) -> (r: bool)
    ensures
        r == has_prefix(s@, prefix@),
{
    s.starts_with(prefix)
}

pub open spec fn reliable_spec(info: AdapterInfo) -> bool {
    !(info.backend == Backend::Vulkan && info.vendor == NVIDIA_VENDOR && info.device_type == DeviceType::IntegratedGpu)
}

/// Optional compute features misbehave on integrated NVIDIA Vulkan devices.
pub fn reliable_optional_compute_features(info: &AdapterInfo) -> (r: bool)
    ensures
        r == reliable_spec(*info),
{
    !(info.backend == Backend::Vulkan && info.vendor == NVIDIA_VENDOR && info.device_type
        == DeviceType::IntegratedGpu)
}

/// Whether subgroup scans can be trusted on this adapter.
pub fn reliable_subgroup_scan(info: &AdapterInfo) -> (r: bool)
    ensures
        r == reliable_spec(*info),
{
    reliable_optional_compute_features(info)
}

/// An Apple GPU driven through Metal, whose stage-boundary timestamps can be
/// left unwritten.
pub open spec fn apple_metal_spec(info: AdapterInfo) -> bool {
    info.backend == Backend::Metal && (info.vendor == APPLE_VENDOR || has_prefix(info.name@, "Apple "@))
}

/// The optional features a context requests: subgroups and timestamp
/// queries where they are reliable (no timestamps on Apple Metal), limited to
/// what the adapter supports.
pub fn context_features(info: &AdapterInfo, supported: GpuFeatures) -> (r: GpuFeatures)
    ensures
        r.subgroup == (supported.subgroup && reliable_spec(*info)),
        r.timestamp_query == (supported.timestamp_query && !apple_metal_spec(*info) && reliable_spec(*info)),
        r.subgroup ==> supported.subgroup,
        r.timestamp_query ==> supported.timestamp_query,
{
    let subgroup = reliable_subgroup_scan(info);
    let apple_metal = info.backend == Backend::Metal && (info.vendor == APPLE_VENDOR || starts_with(
        info.name.as_str(),
        "Apple ",
    ));
    let timestamps = !apple_metal && reliable_optional_compute_features(info);
    supported.intersection(GpuFeatures { subgroup, timestamp_query: timestamps })
}

} // verus!
