use lampshade::argmin::pipeline::{dispatch_dimensions as argmin_dispatch, pass_count, BLOCK_SIZE, MAX_WORKGROUPS_X};
use lampshade::argmin::selector::identity;
use lampshade::common::buffers::{
    effective_storage_binding_limit, validate_storage_binding_size_against_limits, DeviceLimits,
};
use lampshade::common::capabilities::{AdapterCapabilities, Backend, DeviceType, GpuFeatures};
use lampshade::common::math::{calc_groups, checked_align_to, checked_byte_size, checked_u32};
use lampshade::context::{context_features, reliable_subgroup_scan, AdapterInfo};
use lampshade::histogram::counter::{validate_bin_count, Histogram};
use lampshade::reduce::pipeline::{
    dispatch_dimensions as reduce_dispatch, reduction_output_items, reduction_pass_count,
    ITEMS_PER_BLOCK, ITEMS_PER_THREAD,
};
use lampshade::sort::counted::{pass_count as counted_pass_count, workspace_capacity};
use lampshade::sort::eight_bit::{element_count_limit, item_shader, pass_count_for_key_bits};
use lampshade::sort::pipeline::{RadixVariant, SortItemKind};
use lampshade::sort::routing::pass_buffer_slots;
use lampshade::sort::routing::BufferSlot::{Input, Output, Scratch};
use lampshade::sort::pipeline::SortItemKind::{Key, KeyValue};
use lampshade::sort::soa::{
    bridge_dispatch, bridge_workspace_capacity, KeyValueSoaRequirements, BRIDGE_BLOCK_SIZE,
};
use lampshade::pipeline::SortOptions as PipelineSortOptions;
use lampshade::v2::SortOptions as V2SortOptions;
use lampshade::{Error, KeyValueField, U32Predicate};

#[test]
fn hierarchy_and_two_dimensional_dispatch_cover_tails() {
    assert_eq!(pass_count(0), 0);
    assert_eq!(pass_count(1), 1);
    assert_eq!(pass_count(BLOCK_SIZE), 1);
    assert_eq!(pass_count(BLOCK_SIZE + 1), 2);
    assert_eq!(argmin_dispatch(MAX_WORKGROUPS_X + 1), (MAX_WORKGROUPS_X, 2));
}

#[test]
fn identity_and_parameter_layout_match_wgsl() {
    assert_eq!(identity().key, u32::MAX);
    assert_eq!(identity().value, u32::MAX);
    assert_eq!(std::mem::size_of::<[u32; 4]>(), 16);
}

#[test]
fn storage_binding_size_uses_the_stricter_device_limit() {
    assert!(validate_storage_binding_size_against_limits(512, 1_024, 512).is_ok());
    assert!(matches!(
        validate_storage_binding_size_against_limits(513, 1_024, 512),
        Err(Error::BufferLimitExceeded { requested: 513, limit: 512 })
    ));
    assert!(matches!(
        validate_storage_binding_size_against_limits(257, 256, 512),
        Err(Error::BufferLimitExceeded { requested: 257, limit: 256 })
    ));
}

#[test]
fn calculates_dispatch_groups() {
    assert_eq!(calc_groups(0, 256), 0);
    assert_eq!(calc_groups(1, 256), 1);
    assert_eq!(calc_groups(256, 256), 1);
    assert_eq!(calc_groups(257, 256), 2);
}

#[test]
fn checked_alignment_rejects_overflow() {
    assert!(matches!(checked_align_to(u64::MAX, 256), Err(Error::SizeOverflow)));
}

#[test]
fn checked_element_count_rejects_values_above_u32() {
    let count = u64::from(u32::MAX) + 1;
    assert!(matches!(
        checked_u32(count),
        Err(Error::ElementCountTooLarge { count: actual }) if actual == count
    ));
}

#[test]
fn checked_byte_size_rejects_overflow() {
    assert!(matches!(checked_byte_size(u64::MAX, 4), Err(Error::SizeOverflow)));
}

fn adapter(name: &str, vendor: u32, backend: Backend) -> AdapterInfo {
    AdapterInfo { name: name.to_owned(), vendor, device_type: DeviceType::Other, backend }
}

fn all_features() -> GpuFeatures {
    GpuFeatures { subgroup: true, timestamp_query: true }
}

#[test]
fn disables_unreliable_apple_metal_timestamps_only() {
    let supported = all_features();
    let apple_vendor = context_features(&adapter("Metal device", 0x106b, Backend::Metal), supported);
    assert!(!apple_vendor.timestamp_query);
    assert!(apple_vendor.subgroup);

    let apple_name = context_features(&adapter("Apple M3 Pro", 0, Backend::Metal), supported);
    assert!(!apple_name.timestamp_query);

    let intel_metal = context_features(&adapter("Intel GPU", 0x8086, Backend::Metal), supported);
    assert!(intel_metal.timestamp_query);

    let apple_vulkan = context_features(&adapter("Apple GPU", 0x106b, Backend::Vulkan), supported);
    assert!(apple_vulkan.timestamp_query);
}

#[test]
fn disables_subgroups_on_integrated_nvidia_vulkan() {
    let mut orin = adapter("Orin (nvgpu)", 0x10de, Backend::Vulkan);
    orin.device_type = DeviceType::IntegratedGpu;
    let enabled = context_features(&orin, all_features());

    assert!(!reliable_subgroup_scan(&orin));
    assert!(!enabled.subgroup);
    assert!(!enabled.timestamp_query);
}

#[test]
fn validates_the_portable_bin_range() {
    assert!(validate_bin_count(1).is_ok());
    assert!(validate_bin_count(Histogram::MAX_BINS).is_ok());
    assert!(matches!(validate_bin_count(0), Err(Error::InvalidHistogramBinCount { bins: 0, .. })));
    assert!(matches!(
        validate_bin_count(Histogram::MAX_BINS + 1),
        Err(Error::InvalidHistogramBinCount { .. })
    ));
}

#[test]
fn pipeline_sort_options_default_to_full_width() {
    assert_eq!(PipelineSortOptions::default().key_bits, u32::BITS);
    assert_eq!(PipelineSortOptions::default().key_bits(16).key_bits, 16);
}

#[test]
fn v2_sort_options_default_to_full_width() {
    assert_eq!(V2SortOptions::default().key_bits, u32::BITS);
    assert_eq!(V2SortOptions::default().key_bits(16).key_bits, 16);
}

#[test]
fn encodes_predicates_for_the_shader() {
    assert_eq!(U32Predicate::Equal(7).encode(), (0, 7, 0));
    assert_eq!(U32Predicate::NotEqual(7).encode(), (1, 7, 0));
    assert_eq!(U32Predicate::LessThan(7).encode(), (2, 7, 0));
    assert_eq!(U32Predicate::LessThanOrEqual(7).encode(), (3, 7, 0));
    assert_eq!(U32Predicate::GreaterThan(7).encode(), (4, 7, 0));
    assert_eq!(U32Predicate::GreaterThanOrEqual(7).encode(), (5, 7, 0));
    assert_eq!(U32Predicate::BetweenInclusive { min: 3, max: 9 }.encode(), (6, 3, 9));
}

#[test]
fn encodes_key_value_fields_for_the_shader() {
    assert_eq!(KeyValueField::Key.encode(), 0);
    assert_eq!(KeyValueField::Value.encode(), 1);
}

#[test]
fn counted_hierarchy_is_capacity_bounded() {
    assert_eq!(reduction_pass_count(0), 0);
    assert_eq!(reduction_pass_count(1), 1);
    assert_eq!(reduction_pass_count(ITEMS_PER_BLOCK), 1);
    assert_eq!(reduction_pass_count(ITEMS_PER_BLOCK + 1), 2);
    assert_eq!(reduction_output_items(ITEMS_PER_BLOCK.saturating_mul(2)), 2);
}

#[test]
fn pass_count_matches_the_reduction_hierarchy() {
    let items_per_workgroup = lampshade::reduce::pipeline::BLOCK_SIZE * ITEMS_PER_THREAD;
    assert_eq!(reduction_pass_count(0), 0);
    assert_eq!(reduction_pass_count(1), 1);
    assert_eq!(reduction_pass_count(items_per_workgroup), 1);
    assert_eq!(reduction_pass_count(items_per_workgroup + 1), 2);
    assert_eq!(reduction_pass_count(items_per_workgroup * items_per_workgroup + 1), 3);
}

#[test]
fn dispatch_dimensions_cover_the_two_dimensional_tail() {
    let max_x = lampshade::reduce::pipeline::MAX_WORKGROUPS_X;
    assert_eq!(reduce_dispatch(1), (1, 1));
    assert_eq!(reduce_dispatch(max_x), (max_x, 1));
    assert_eq!(reduce_dispatch(max_x + 1), (max_x, 2));
}

#[test]
fn storage_binding_limit_uses_the_stricter_device_limit() {
    assert_eq!(effective_storage_binding_limit(1_024, 512), 512);
    assert_eq!(effective_storage_binding_limit(256, 512), 256);
}

#[test]
fn counted_passes_preserve_output_parity() {
    assert_eq!(counted_pass_count(0), 1);
    assert_eq!(counted_pass_count(1), 1);
    assert_eq!(counted_pass_count(2), 1);
    assert_eq!(counted_pass_count(3), 2);
    assert_eq!(counted_pass_count(32), 16);
}

#[test]
fn counted_workspace_never_allocates_zero_bytes() {
    assert_eq!(workspace_capacity(0).unwrap(), 4);
    assert_eq!(workspace_capacity(5).unwrap(), 8);
}

/// The placeholder lines of the 8-bit scatter kernel template.
const SCATTER_TEMPLATE_LINES: &str = "var<storage, read> input: array<{{ITEM_TYPE}}>;\n\
     sorted_items[subgroup_id]{{KEY_MEMBER}} = lane_prefix + count;\n";

#[test]
fn specializes_eight_bit_item_shaders_without_leaving_placeholders() {
    let template = SCATTER_TEMPLATE_LINES;
    let key_shader = item_shader(template, Key);
    assert!(key_shader.contains("var<storage, read> input: array<u32>;"));
    assert!(key_shader.contains("sorted_items[subgroup_id] = lane_prefix + count;"));
    assert!(!key_shader.contains("{{"));

    let key_value_shader = item_shader(template, KeyValue);
    assert!(key_value_shader.contains("var<storage, read> input: array<KeyValue>;"));
    assert!(key_value_shader.contains("sorted_items[subgroup_id].key = lane_prefix + count;"));
    assert!(!key_value_shader.contains("{{"));
}

#[test]
fn maps_key_widths_to_active_byte_passes() {
    for (key_bits, expected) in
        [(0, 1), (1, 1), (8, 1), (9, 2), (16, 2), (17, 3), (24, 3), (25, 4), (32, 4)]
    {
        assert_eq!(pass_count_for_key_bits(key_bits), expected);
    }
}

#[test]
fn routes_every_pass_count_to_the_caller_output() {
    let expected = [
        vec![(Input, Output)],
        vec![(Input, Scratch), (Scratch, Output)],
        vec![(Input, Output), (Output, Scratch), (Scratch, Output)],
        vec![(Input, Scratch), (Scratch, Output), (Output, Scratch), (Scratch, Output)],
    ];
    for (pass_count, expected_routes) in (1..=4).zip(expected) {
        let actual: Vec<_> =
            (0..pass_count).map(|radix_pass| pass_buffer_slots(radix_pass, pass_count)).collect();
        assert_eq!(actual, expected_routes);
    }
}

#[test]
fn caps_elements_at_the_one_dimensional_dispatch_limit() {
    assert_eq!(element_count_limit(1), 1_792);
    assert_eq!(element_count_limit(65_535), 117_438_720);
    assert_eq!(element_count_limit(u32::MAX), 0x0fff_ffff);
}

#[allow(clippy::too_many_arguments)]
fn select(
    item_kind: SortItemKind,
    backend: Backend,
    vendor: u32,
    device_type: DeviceType,
    min: u32,
    max: u32,
    feature: bool,
    limits: bool,
) -> RadixVariant {
    let workgroup_limit = if limits { u32::MAX } else { 0 };
    RadixVariant::for_capabilities(
        item_kind,
        AdapterCapabilities {
            backend,
            vendor,
            device_type,
            subgroup_min_size: min,
            subgroup_max_size: max,
            subgroups_enabled: feature,
            max_compute_invocations_per_workgroup: workgroup_limit,
            max_compute_workgroup_size_x: workgroup_limit,
            max_compute_workgroup_storage_size: workgroup_limit,
        },
    )
}

#[test]
fn selects_radix_variant_from_adapter_capabilities() {
    for device_type in [DeviceType::DiscreteGpu, DeviceType::IntegratedGpu] {
        assert_eq!(
            select(KeyValue, Backend::Vulkan, 0x10de, device_type, 32, 32, true, true),
            RadixVariant::NvidiaVulkanSubgroup
        );
    }
    assert_eq!(
        select(KeyValue, Backend::Vulkan, 0x10de, DeviceType::DiscreteGpu, 32, 32, false, true),
        RadixVariant::NvidiaVulkanWide
    );
    for (device_type, expected) in [
        (DeviceType::DiscreteGpu, RadixVariant::NvidiaVulkanWide),
        (DeviceType::IntegratedGpu, RadixVariant::Portable),
    ] {
        assert_eq!(
            select(KeyValue, Backend::Vulkan, 0x10de, device_type, 32, 32, true, false),
            expected
        );
    }
    assert_eq!(
        select(Key, Backend::Vulkan, 0x10de, DeviceType::DiscreteGpu, 32, 32, true, true),
        RadixVariant::Portable
    );
    assert_eq!(
        select(Key, Backend::Vulkan, 0x8086, DeviceType::IntegratedGpu, 8, 32, true, true),
        RadixVariant::Portable
    );
    assert_eq!(
        select(KeyValue, Backend::Dx12, 0x8086, DeviceType::IntegratedGpu, 8, 32, true, true),
        RadixVariant::Portable
    );
    assert_eq!(
        select(KeyValue, Backend::Dx12, 0x10de, DeviceType::DiscreteGpu, 32, 32, true, true),
        RadixVariant::Portable
    );
    assert_eq!(
        select(KeyValue, Backend::Vulkan, 0x1002, DeviceType::DiscreteGpu, 32, 64, true, true),
        RadixVariant::Portable
    );
    assert_eq!(
        select(KeyValue, Backend::Vulkan, 0x8086, DeviceType::IntegratedGpu, 8, 32, true, true),
        RadixVariant::IntelVulkanWide
    );
    assert_eq!(
        select(KeyValue, Backend::Vulkan, 0x8086, DeviceType::IntegratedGpu, 8, 32, true, false),
        RadixVariant::Portable
    );
    assert_eq!(
        select(KeyValue, Backend::Metal, 0x106b, DeviceType::IntegratedGpu, 4, 64, true, true),
        RadixVariant::Portable
    );
}

#[test]
fn bridge_dispatch_covers_large_capacities() {
    assert_eq!(bridge_dispatch(1), (1, 1));
    assert_eq!(bridge_dispatch(BRIDGE_BLOCK_SIZE * 65_535), (65_535, 1));
    assert_eq!(bridge_dispatch(BRIDGE_BLOCK_SIZE * 65_535 + 1), (65_535, 2));
}

#[test]
fn bridge_workspace_never_allocates_zero_bytes() {
    assert_eq!(bridge_workspace_capacity(0).unwrap(), 8);
    assert_eq!(bridge_workspace_capacity(9).unwrap(), 16);
}

/// The runtime's default limits, with the overrides an application chose.
fn application_limits() -> DeviceLimits {
    DeviceLimits {
        max_buffer_size: 987_654_321,
        max_storage_buffer_binding_size: 128 << 20,
        min_storage_buffer_offset_alignment: 256,
        min_uniform_buffer_offset_alignment: 256,
        max_compute_workgroup_storage_size: 16_384,
        max_compute_workgroups_per_dimension: 65_535,
        max_compute_invocations_per_workgroup: 128,
        max_compute_workgroup_size_x: 128,
    }
}

#[test]
fn requirements_merge_without_lowering_unrelated_application_limits() {
    let requirements = KeyValueSoaRequirements {
        additional_features: GpuFeatures { subgroup: true, timestamp_query: false },
        min_compute_invocations: 256,
        min_compute_workgroup_size_x: 256,
        min_compute_workgroup_storage_size: 16_388,
        accelerated: true,
    };

    let merged_features = requirements.features(GpuFeatures { subgroup: false, timestamp_query: true });
    let merged_limits = requirements.limits(application_limits());

    assert!(merged_features.timestamp_query);
    assert!(merged_features.subgroup);
    assert_eq!(merged_limits.max_buffer_size, 987_654_321);
    assert_eq!(merged_limits.max_compute_invocations_per_workgroup, 256);
    assert_eq!(merged_limits.max_compute_workgroup_size_x, 256);
    assert_eq!(merged_limits.max_compute_workgroup_storage_size, 16_388);
}
