use lampshade::common::buffers::{DeviceLimits, GpuBuffer, USAGE_COPY_DST, USAGE_STORAGE};
use lampshade::common::capabilities::{AdapterCapabilities, Backend, DeviceType};
use lampshade::count::GpuCountPlan;
use lampshade::sort::radix::SortCommands;
use lampshade::sort::routing::BufferSlot;
use lampshade::sort::soa::{KeyValueSoaSorter, SoaRecording};
use lampshade::sort::sorter::{CountedSortCommands, KeyValueSorter, Sorter};
use lampshade::Error;

fn limits() -> DeviceLimits {
    DeviceLimits {
        max_buffer_size: 256 << 20,
        max_storage_buffer_binding_size: 128 << 20,
        min_storage_buffer_offset_alignment: 256,
        min_uniform_buffer_offset_alignment: 256,
        max_compute_workgroup_storage_size: 16_384,
        max_compute_workgroups_per_dimension: 65_535,
        max_compute_invocations_per_workgroup: 256,
        max_compute_workgroup_size_x: 256,
    }
}

fn buffer(id: u64, size: u64) -> GpuBuffer {
    GpuBuffer { id, size, usage: USAGE_STORAGE | USAGE_COPY_DST }
}

fn nvidia_subgroups() -> AdapterCapabilities {
    AdapterCapabilities {
        backend: Backend::Vulkan,
        vendor: 0x10de,
        device_type: DeviceType::DiscreteGpu,
        subgroup_min_size: 32,
        subgroup_max_size: 32,
        subgroups_enabled: true,
        max_compute_invocations_per_workgroup: 1024,
        max_compute_workgroup_size_x: 1024,
        max_compute_workgroup_storage_size: 49_152,
    }
}

#[test]
fn fixed_sorts_end_in_the_output() {
    let mut sorter = Sorter::new(limits(), false);
    let commands = sorter.record_sort(buffer(1, 4_000), buffer(2, 4_000), 1_000).unwrap();
    let SortCommands::ReduceScan(plan) = commands else {
        panic!("the portable sorter runs the reduce-then-scan kernels");
    };
    assert_eq!(plan.passes.len(), 16);
    assert_eq!(plan.passes[0].0, BufferSlot::Input);
    assert_eq!(plan.passes[15].1, BufferSlot::Output);
    assert!(matches!(sorter.record_sort(buffer(1, 4_000), buffer(2, 4_000), 0), Ok(SortCommands::Nothing)));
    assert_eq!(
        sorter.record_sort(buffer(1, 4_000), buffer(2, 4_000), 1_001).err(),
        Some(Error::BufferTooSmall { name: "sort input", required: 4_004, actual: 4_000 })
    );
}

#[test]
fn key_value_sorts_use_eight_bit_kernels_where_supported() {
    let mut sorter = KeyValueSorter::new_for_adapter(nvidia_subgroups(), limits(), true);
    let commands = sorter.record_sort(buffer(1, 8_000), buffer(2, 8_000), 1_000).unwrap();
    let SortCommands::EightBit { plan, .. } = commands else {
        panic!("subgroup-capable NVIDIA Vulkan adapters run the 8-bit kernels");
    };
    assert_eq!(plan.passes.len(), 4);
    assert_eq!(plan.passes[3].1, BufferSlot::Output);

    let counted = sorter
        .record_sort_counted_with_key_bits(buffer(1, 8_000), buffer(2, 8_000), buffer(3, 16), 1_000, 16)
        .unwrap();
    let CountedSortCommands::EightBit { plan, .. } = counted else {
        panic!("counted sorts also run the 8-bit kernels");
    };
    assert_eq!(plan.passes.len(), 2);
    assert!(sorter.counted.is_none());
}

#[test]
fn counted_sorts_build_their_sorter_on_first_use() {
    let mut sorter = Sorter::new(limits(), false);
    assert!(sorter.counted.is_none());
    let commands =
        sorter.record_sort_counted(buffer(1, 4_000), buffer(2, 4_000), buffer(3, 4), 1_000).unwrap();
    assert!(sorter.counted.is_some());
    let CountedSortCommands::Counted(plan) = commands else {
        panic!("a non-zero capacity runs the counted kernels");
    };
    assert_eq!(plan.pass_count, 16);
    assert_eq!(plan.passes[15].1, BufferSlot::Output);
    assert!(matches!(
        sorter.record_sort_counted(buffer(1, 4_000), buffer(2, 4_000), buffer(3, 4), 0),
        Ok(CountedSortCommands::Nothing)
    ));
    assert_eq!(
        sorter
            .record_sort_counted_with_key_bits(buffer(1, 4_000), buffer(2, 4_000), buffer(3, 4), 1_000, 33)
            .err(),
        Some(Error::InvalidKeyBits { bits: 33 })
    );
}

#[test]
fn shared_count_plans_drive_counted_sorts() {
    let plan = GpuCountPlan::new(buffer(3, 16), 1_000, &limits()).unwrap();
    let mut sorter = KeyValueSorter::new(limits(), false);
    let commands = sorter
        .record_sort_with_count_plan_and_key_bits(buffer(1, 8_000), buffer(2, 8_000), &plan, 8)
        .unwrap();
    let CountedSortCommands::Counted(sort_plan) = commands else {
        panic!("a shared plan runs the counted kernels");
    };
    assert_eq!(sort_plan.pass_count, 4);
}

#[test]
fn separate_buffer_sorts_reuse_their_fixed_plan() {
    let mut sorter = KeyValueSoaSorter::new_portable(limits());
    assert!(!sorter.is_accelerated());
    let keys = buffer(1, 4_000);
    let values = buffer(2, 4_000);
    let first_count = buffer(3, 4);
    let recording = sorter.record_sort(keys, values, 1_000, first_count).unwrap();
    assert!(matches!(recording, SoaRecording::Portable { groups_x: 4, groups_y: 1 }));
    let plan = sorter.fixed.unwrap();
    assert_eq!(plan.count, first_count);

    // The same count reuses the plan's count buffer.
    sorter.prepare_sort(values, keys, 1_000, buffer(4, 4)).unwrap();
    assert_eq!(sorter.fixed.unwrap().count, first_count);

    assert_eq!(
        sorter.record_reserved_sort(keys, values, 1_000).err(),
        Some(Error::BufferTooSmall { name: "SoA fixed sort plan", required: 1, actual: 0 })
    );
    sorter.reserve(2_000).unwrap();
    assert!(sorter.fixed.is_none());
}

#[test]
fn separate_buffer_sorts_pick_the_native_kernels_where_supported() {
    assert!(KeyValueSoaSorter::new(nvidia_subgroups(), limits()).is_accelerated());
    assert!(KeyValueSoaSorter::new_native_for_adapter(nvidia_subgroups(), limits()).is_some());
    let mut intel = nvidia_subgroups();
    intel.vendor = 0x8086;
    assert!(!KeyValueSoaSorter::new(intel, limits()).is_accelerated());
    assert!(KeyValueSoaSorter::new_for_adapter(intel, limits()).is_none());
    assert!(KeyValueSoaSorter::requirements(nvidia_subgroups()).accelerated);
    assert!(!KeyValueSoaSorter::requirements(intel).accelerated);

    let mut native = KeyValueSoaSorter::new(nvidia_subgroups(), limits());
    let recording = native.record_sort(buffer(1, 4_000), buffer(2, 4_000), 1_000, buffer(3, 4)).unwrap();
    assert_eq!(recording, SoaRecording::Native);
    assert_eq!(
        native.record_sort_counted(buffer(1, 4_000), buffer(1, 4_000), buffer(3, 4), 10).err(),
        Some(Error::BufferAlias { first: "sort keys", second: "sort values" })
    );
}

#[test]
fn separate_buffer_sorts_refuse_invalid_inputs_with_or_without_a_plan() {
    let mut sorter = KeyValueSoaSorter::new_portable(limits());
    assert!(sorter.record_sort(buffer(1, 4_000), buffer(1, 4_000), 1_000, buffer(3, 4)).is_err());
    assert!(sorter.fixed.is_none());
    sorter.record_sort(buffer(1, 4_000), buffer(2, 4_000), 1_000, buffer(3, 4)).unwrap();
    let plan = sorter.fixed.unwrap();
    // Same buffer ids with a shrunken key buffer reuse the plan and are refused.
    assert!(sorter.record_sort(buffer(1, 400), buffer(2, 4_000), 1_000, buffer(4, 4)).is_err());
    assert_eq!(sorter.fixed.unwrap(), plan);
}
