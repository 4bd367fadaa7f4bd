use vstd::prelude::*;

verus! {

/// The graphics API an adapter runs on.
#[derive(Clone, Copy, Debug, PartialEq, Eq, Structural)]
pub enum Backend {
    Noop,
    Vulkan,
    Metal,
    Dx12,
    Gl,
    BrowserWebGpu,
}

/// The kind of device an adapter drives.
#[derive(Clone, Copy, Debug, PartialEq, Eq, Structural)]
pub enum DeviceType {
    Other,
    IntegratedGpu,
    DiscreteGpu,
    VirtualGpu,
    Cpu,
}

/// Optional device features the library can use.
#[derive(Clone, Copy, Debug, PartialEq, Eq, Structural)]
pub struct GpuFeatures {
    pub subgroup: bool,
    pub timestamp_query: bool,
}

impl GpuFeatures {
    /// No optional feature.
    pub fn empty() -> (r: GpuFeatures)
        ensures
            !r.subgroup,
            !r.timestamp_query,
    {
        GpuFeatures { subgroup: false, timestamp_query: false }
    }

    /// The features present in either set.
    pub fn union(self, other: GpuFeatures) -> (r: GpuFeatures)
        ensures
            r.subgroup == (self.subgroup || other.subgroup),
            r.timestamp_query == (self.timestamp_query || other.timestamp_query),
    {
        GpuFeatures {
            subgroup: self.subgroup || other.subgroup,
            timestamp_query: self.timestamp_query || other.timestamp_query,
        }
    }

    /// The features present in both sets.
    pub fn intersection(self, other: GpuFeatures) -> (r: GpuFeatures)
        ensures
            r.subgroup == (self.subgroup && other.subgroup),
            r.timestamp_query == (self.timestamp_query && other.timestamp_query),
    {
        GpuFeatures {
            subgroup: self.subgroup && other.subgroup,
            timestamp_query: self.timestamp_query && other.timestamp_query,
        }
    }
}

/// Adapter and device capabilities used to select kernel backends.
#[derive(Clone, Copy, Debug, PartialEq, Eq, Structural)]
pub struct AdapterCapabilities {
    pub backend: Backend,
    pub vendor: u32,
    pub device_type: DeviceType,
    pub subgroup_min_size: u32,
    pub subgroup_max_size: u32,
    pub subgroups_enabled: bool,
    pub max_compute_invocations_per_workgroup: u32,
    pub max_compute_workgroup_size_x: u32,
    pub max_compute_workgroup_storage_size: u32,
}

pub open spec fn supports_workgroup_spec(
    c: AdapterCapabilities,
    invocations: u32,
    size_x: u32,
    storage_bytes: u32,
) -> bool {
    &&& c.max_compute_invocations_per_workgroup >= invocations
    &&& c.max_compute_workgroup_size_x >= size_x
    &&& c.max_compute_workgroup_storage_size >= storage_bytes
}

impl AdapterCapabilities {
    /// Whether a workgroup of this shape fits the device limits.
    pub fn supports_workgroup(self, invocations: u32, size_x: u32, storage_bytes: u32) -> (r: bool)
        ensures
            r == supports_workgroup_spec(self, invocations, size_x, storage_bytes),
    {
        self.max_compute_invocations_per_workgroup >= invocations
            && self.max_compute_workgroup_size_x >= size_x
            && self.max_compute_workgroup_storage_size >= storage_bytes
    }
}

} // verus!
