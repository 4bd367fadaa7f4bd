use vstd::prelude::*;

use crate::common::capabilities::{
    supports_workgroup_spec, AdapterCapabilities, Backend, DeviceType,
};

verus! {

pub const EIGHT_BIT_BLOCK_SIZE: u32 = 256;
pub const EIGHT_BIT_WORKGROUP_STORAGE_BYTES: u32 = 16_388;
pub const WIDE_RADIX_BUCKET_GROUPS: u32 = 4;
pub const WIDE_RADIX_BYTES_PER_BUCKET_GROUP: u32 = 16;
pub const NVIDIA_VENDOR: u32 = 0x10de;
pub const INTEL_VENDOR: u32 = 0x8086;

/// What a radix sort moves: bare keys or key-value records.
#[derive(Clone, Copy, Debug, PartialEq, Eq, Structural)]
pub enum SortItemKind {
    Key,
    KeyValue,
}

impl SortItemKind {
    pub open spec fn size_bytes_spec(self) -> u64 {
        match self {
            SortItemKind::Key => 4u64,
            SortItemKind::KeyValue => 8u64,
        }
    }

    /// The item size in bytes.
    pub fn size_bytes(self) -> (r: u64)
        ensures
            r == self.size_bytes_spec(),
    {
        match self {
            SortItemKind::Key => 4,
            SortItemKind::KeyValue => 8,
        }
    }

    pub open spec fn shader_item_type_spec(self) -> Seq<char> {
        match self {
            SortItemKind::Key => "u32"@,
            SortItemKind::KeyValue => "KeyValue"@,
        }
    }

    /// The kernel's item type name.
    pub fn shader_item_type(self) -> (r: &'static str)
        ensures
            r@ == self.shader_item_type_spec(),
    {
        match self {
            SortItemKind::Key => "u32",
            SortItemKind::KeyValue => "KeyValue",
        }
    }

    /// The kernel expression that reads an item's key.
    pub fn shader_key_access(self) -> (r: &'static str)
        ensures
            r@ == (match self {
                SortItemKind::Key => "item"@,
                SortItemKind::KeyValue => "item.key"@,
            }),
    {
        match self {
            SortItemKind::Key => "item",
            SortItemKind::KeyValue => "item.key",
        }
    }

    pub open spec fn shader_key_member_spec(self) -> Seq<char> {
        match self {
            SortItemKind::Key => ""@,
            SortItemKind::KeyValue => ".key"@,
        }
    }

    /// The member path from an item to its key.
    pub fn shader_key_member(self) -> (r: &'static str)
        ensures
            r@ == self.shader_key_member_spec(),
    {
        match self {
            SortItemKind::Key => "",
            SortItemKind::KeyValue => ".key",
        }
    }
}

/// The radix-sort kernel family.
#[derive(Clone, Copy, Debug, PartialEq, Eq, Structural)]
pub enum RadixVariant {
    /// Portable 2-bit passes.
    Portable,
    /// 4-bit passes on capable Intel Vulkan devices.
    IntelVulkanWide,
    /// 4-bit passes on discrete NVIDIA Vulkan devices.
    NvidiaVulkanWide,
    /// 8-bit subgroup passes on NVIDIA Vulkan devices with fixed 32-wide subgroups.
    NvidiaVulkanSubgroup,
}

/// Workgroup configuration `(items per thread, threads)` for the radix kernels.
pub open spec fn radix_workgroup_config_spec(max_workgroup_storage_size: u32) -> (u32, u32) {
    if max_workgroup_storage_size >= 32_768 {
        (8, 256)
    } else {
        (4, 128)
    }
}

pub fn radix_workgroup_config(max_workgroup_storage_size: u32) -> (r: (u32, u32))
    ensures
        r == radix_workgroup_config_spec(max_workgroup_storage_size),
{
    if max_workgroup_storage_size >= 32_768 {
        (8, 256)
    } else {
        (4, 128)
    }
}

pub open spec fn supports_wide_radix_spec(c: AdapterCapabilities) -> bool {
    let block = radix_workgroup_config_spec(c.max_compute_workgroup_storage_size).1;
    supports_workgroup_spec(c, block, block, (block * 4 * 16) as u32)
}

/// Whether the 4-bit kernel's workgroup fits the device.
pub fn supports_wide_radix(c: AdapterCapabilities) -> (r: bool)
    ensures
        r == supports_wide_radix_spec(c),
{
    let (_, block_size) = radix_workgroup_config(c.max_compute_workgroup_storage_size);
    let storage_bytes = block_size * WIDE_RADIX_BUCKET_GROUPS * WIDE_RADIX_BYTES_PER_BUCKET_GROUP;
    c.supports_workgroup(block_size, block_size, storage_bytes)
}

/// The kernel family selected for an item kind on an adapter.
pub open spec fn radix_variant_spec(item_kind: SortItemKind, c: AdapterCapabilities) -> RadixVariant {
    if !(item_kind == SortItemKind::KeyValue && c.backend == Backend::Vulkan) {
        RadixVariant::Portable
    } else if c.vendor == NVIDIA_VENDOR && c.subgroups_enabled && c.subgroup_min_size == 32
        && c.subgroup_max_size == 32 && supports_workgroup_spec(
        c,
        EIGHT_BIT_BLOCK_SIZE,
        EIGHT_BIT_BLOCK_SIZE,
        EIGHT_BIT_WORKGROUP_STORAGE_BYTES,
    ) {
        RadixVariant::NvidiaVulkanSubgroup
    } else if c.vendor == NVIDIA_VENDOR && c.device_type == DeviceType::DiscreteGpu {
        RadixVariant::NvidiaVulkanWide
    } else if c.vendor == INTEL_VENDOR && supports_wide_radix_spec(c) {
        RadixVariant::IntelVulkanWide
    } else {
        RadixVariant::Portable
    }
}

impl RadixVariant {
    /// Selects the measured fast path for this adapter, or the portable kernel.
    ///
    /// Only key-value sorts on Vulkan leave the portable kernel.
    pub fn for_capabilities(item_kind: SortItemKind, capabilities: AdapterCapabilities) -> (r:
        RadixVariant)
        ensures
            r == radix_variant_spec(item_kind, capabilities),
            r != RadixVariant::Portable ==> item_kind == SortItemKind::KeyValue
                && capabilities.backend == Backend::Vulkan,
    {
        let is_vulkan_key_value = item_kind == SortItemKind::KeyValue && capabilities.backend
            == Backend::Vulkan;
        if !is_vulkan_key_value {
            return RadixVariant::Portable;
        }
        if capabilities.vendor == NVIDIA_VENDOR && capabilities.subgroups_enabled
            && capabilities.subgroup_min_size == 32 && capabilities.subgroup_max_size == 32
            && capabilities.supports_workgroup(
            EIGHT_BIT_BLOCK_SIZE,
            EIGHT_BIT_BLOCK_SIZE,
            EIGHT_BIT_WORKGROUP_STORAGE_BYTES,
        ) {
            RadixVariant::NvidiaVulkanSubgroup
        } else if capabilities.vendor == NVIDIA_VENDOR && capabilities.device_type
            == DeviceType::DiscreteGpu {
            RadixVariant::NvidiaVulkanWide
        } else if capabilities.vendor == INTEL_VENDOR && supports_wide_radix(capabilities) {
            RadixVariant::IntelVulkanWide
        } else {
            RadixVariant::Portable
        }
    }

    /// Whether this variant runs the dedicated 8-bit pipeline.
    pub fn uses_eight_bit_pipeline(self) -> (r: bool)
        ensures
            r == (self == RadixVariant::NvidiaVulkanSubgroup),
    {
        match self {
            RadixVariant::NvidiaVulkanSubgroup => true,
            _ => false,
        }
    }

    /// Key bits consumed per pass by the reduce-then-scan kernels.
    pub fn bits_per_pass(self) -> (r: u32)
        requires
            self != RadixVariant::NvidiaVulkanSubgroup,
        ensures
            r == (if self == RadixVariant::Portable {
                2u32
            } else {
                4u32
            }),
    {
        match self {
            RadixVariant::Portable => 2,
            _ => 4,
        }
    }
}

/// Shape constants of a reduce-then-scan radix pipeline.
#[derive(Clone, Copy, Debug, PartialEq, Eq, Structural)]
pub struct SortPipelineConfig {
    pub vt: u32,
    pub block_size: u32,
    pub bits_per_pass: u32,
    pub bucket_count: u32,
    pub bucket_group_count: u32,
    pub local_histogram_size: u32,
    /// Passes that cover a 32-bit key.
    pub pass_count: u32,
}

/// The shape of the reduce-then-scan pipeline for a variant on a device.
pub fn sort_pipeline_config(variant: RadixVariant, max_workgroup_storage_size: u32) -> (r:
    SortPipelineConfig)
    requires
        variant != RadixVariant::NvidiaVulkanSubgroup,
    ensures
        (r.vt, r.block_size) == radix_workgroup_config_spec(max_workgroup_storage_size),
        r.bits_per_pass == (if variant == RadixVariant::Portable {
            2u32
        } else {
            4u32
        }),
        r.bucket_count == (if variant == RadixVariant::Portable {
            4u32
        } else {
            16u32
        }),
        r.bucket_group_count == r.bucket_count / 4,
        r.local_histogram_size == r.block_size * r.bucket_group_count,
        r.pass_count == 32u32 / r.bits_per_pass,
{
    let (vt, block_size) = radix_workgroup_config(max_workgroup_storage_size);
    let bits_per_pass = variant.bits_per_pass();
    let bucket_count: u32 = if bits_per_pass == 2 {
        4
    } else {
        16
    };
    let bucket_group_count = bucket_count / 4;
    SortPipelineConfig {
        vt,
        block_size,
        bits_per_pass,
        bucket_count,
        bucket_group_count,
        local_histogram_size: block_size * bucket_group_count,
        pass_count: 32 / bits_per_pass,
    }
}

} // verus!
