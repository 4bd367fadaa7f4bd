use lampshade::argmin::selector::{ArgminByKey, ArgminCommands, ArgminSlot};
use lampshade::common::buffers::{BufferRange, DeviceLimits, GpuBuffer, USAGE_COPY_DST, USAGE_COPY_SRC, USAGE_STORAGE};
use lampshade::compact::compactor::Compactor;
use lampshade::compact::core_plan::CompactCommands;
use lampshade::pipeline::{Extent, GpuCount, GpuSlice, GpuSliceMut, Primitives, SortOptions};
use lampshade::predicate::generator::MaskGenerator;
use lampshade::reduce::reducer::{HostReduction, Reducer};
use lampshade::scan::pipeline::scan_config;
use lampshade::scan::scanner::{ScanCommands, ScanKernel, Scanner};
use lampshade::sort::radix::{validate_keys, validate_record_keys, SortCommands};
use lampshade::run_length::encoder::{InputExtent, RunLengthCommands, RunLengthEncoder, RunLengthOutputRanges};
use lampshade::sort::KeyValue;
use lampshade::sort::sorter::{CountedSortCommands, Sorter};
use lampshade::{Error, KeyValueField, U32Predicate, U32Reduction};

fn limits() -> DeviceLimits {
    DeviceLimits {
        max_buffer_size: 256 << 20,
        max_storage_buffer_binding_size: 128 << 20,
        min_storage_buffer_offset_alignment: 256,
        min_uniform_buffer_offset_alignment: 256,
        max_compute_workgroup_storage_size: 16_384,
        max_compute_workgroups_per_dimension: 65_535,
        max_compute_invocations_per_workgroup: 256,
        max_compute_workgroup_size_x: 256,
    }
}

fn storage(id: u64, size: u64) -> GpuBuffer {
    GpuBuffer { id, size, usage: USAGE_STORAGE | USAGE_COPY_DST | USAGE_COPY_SRC }
}

#[test]
fn argmin_passes_read_what_the_level_before_wrote() {
    let mut selector = ArgminByKey::new(limits());
    let input = BufferRange::whole(storage(1, 70_000 * 8));
    let output = BufferRange::whole(storage(2, 8));
    let ArgminCommands::Passes { passes, .. } = selector.record_argmin(input, output, 70_000).unwrap() else {
        panic!("a non-empty input runs passes");
    };
    let routes: Vec<(ArgminSlot, ArgminSlot)> = passes.iter().map(|p| (p.source, p.destination)).collect();
    assert_eq!(
        routes,
        vec![
            (ArgminSlot::Input, ArgminSlot::ScratchA),
            (ArgminSlot::ScratchA, ArgminSlot::ScratchB),
            (ArgminSlot::ScratchB, ArgminSlot::Output),
        ]
    );
    let ArgminCommands::Passes { passes, .. } = selector.record_argmin(input, output, 100).unwrap() else {
        panic!("a non-empty input runs passes");
    };
    assert_eq!(passes.len(), 1);
    assert_eq!((passes[0].source, passes[0].destination), (ArgminSlot::Input, ArgminSlot::Output));
}

#[test]
fn host_reductions_of_nothing_answer_the_identity() {
    let reducer = Reducer::new(limits());
    assert_eq!(reducer.plan_host_reduce(0, U32Reduction::Min), Ok(HostReduction::Identity(u32::MAX)));
    assert_eq!(reducer.plan_host_reduce(0, U32Reduction::Sum), Ok(HostReduction::Identity(0)));
    assert_eq!(reducer.plan_host_reduce(0, U32Reduction::Max), Ok(HostReduction::Identity(0)));
    assert_eq!(reducer.plan_host_reduce(5, U32Reduction::Sum), Ok(HostReduction::Upload { num_items: 5 }));
    let mut tight = limits();
    tight.max_storage_buffer_binding_size = 16;
    assert!(Reducer::new(tight).plan_host_reduce(5, U32Reduction::Sum).is_err());
    assert_eq!(Reducer::new(tight).plan_host_reduce(4, U32Reduction::Max), Ok(HostReduction::Upload { num_items: 4 }));
}

#[test]
fn counted_sorts_plan_the_declared_key_width() {
    let mut sorter = Sorter::new(limits(), false);
    let full = sorter.record_sort_counted(storage(1, 4_000), storage(2, 4_000), storage(3, 4), 1_000).unwrap();
    let CountedSortCommands::Counted(full_plan) = full else {
        panic!("a valid counted sort is planned");
    };
    let narrow = sorter
        .record_sort_counted_with_key_bits(storage(1, 4_000), storage(2, 4_000), storage(3, 4), 1_000, 8)
        .unwrap();
    let CountedSortCommands::Counted(narrow_plan) = narrow else {
        panic!("a valid counted sort is planned");
    };
    assert!(narrow_plan.pass_count < full_plan.pass_count);
    assert_eq!(narrow_plan.passes.len() as u32, narrow_plan.pass_count);
    assert!(matches!(
        sorter.record_sort_counted(storage(1, 4_000), storage(2, 4_000), storage(3, 4), 0),
        Ok(CountedSortCommands::Nothing)
    ));
}

#[test]
fn compactions_of_items_scan_and_scatter() {
    let mut compactor = Compactor::new(limits(), scan_config(false, false, 16_384));
    let plan = compactor
        .record_compact(storage(1, 4_000), storage(2, 4_000), storage(3, 4_000), storage(4, 4), 1_000)
        .unwrap();
    let CompactCommands::Compact { params, groups, .. } = plan else {
        panic!("a non-empty compaction scans and scatters");
    };
    assert_eq!(groups, (4, 1));
    assert_eq!(params, vec![1_000, 4, compactor.core.scanner.config.vt * compactor.core.scanner.config.block_size, 0]);
    assert!(matches!(
        compactor.record_compact(storage(1, 4_000), storage(2, 4_000), storage(3, 4_000), storage(4, 4), 0),
        Ok(CompactCommands::ClearCount)
    ));
}

#[test]
fn scans_of_one_item_copy_or_clear_it() {
    let mut scanner = Scanner::new(scan_config(false, false, 16_384));
    assert!(matches!(scanner.record_scan(storage(1, 4), storage(2, 4), 1), Ok(ScanCommands::Copy { bytes: 4 })));
    assert!(matches!(
        scanner.record_exclusive_scan(storage(1, 4), storage(2, 4), 1),
        Ok(ScanCommands::Clear { bytes: 4 })
    ));
    assert!(matches!(
        scanner.record_scan(storage(1, 4_000), storage(2, 4_000), 1_000),
        Ok(ScanCommands::Levels { .. })
    ));
}

#[test]
fn masks_carry_the_callers_field_and_predicate() {
    let generator = MaskGenerator::new(limits());
    let input = BufferRange::whole(storage(1, 8_000));
    let mask = BufferRange::whole(storage(2, 4_000));
    let commands = generator
        .record_key_value_mask(input, mask, 1_000, KeyValueField::Value, U32Predicate::BetweenInclusive { min: 3, max: 9 })
        .unwrap()
        .unwrap();
    assert_eq!(commands.params, vec![1_000, 4, 6, 1, 3, 9, 0, 0]);
    assert_eq!(commands.input.size, 8_000);
    assert_eq!(commands.mask.size, 4_000);
    let values = generator.record_mask(mask, input, 10, U32Predicate::LessThan(7)).unwrap().unwrap();
    assert_eq!(values.params, vec![10, 1, 2, 0, 7, 0, 0, 0]);
}

#[test]
fn primitive_outputs_are_views_of_their_own_outputs() {
    let mut primitives = Primitives::new(limits());
    let input: GpuSlice<u32> = GpuSlice::from_range(storage(1, 400), 0..100).unwrap();
    let mask: GpuSlice<u32> = GpuSlice::from_range(storage(2, 400), 0..100).unwrap();
    let output: GpuSliceMut<u32> = GpuSliceMut::from_range(storage(3, 800), 100..200).unwrap();
    let count = GpuCount::new(storage(4, 4)).unwrap();
    let compacted = primitives.compact(&input, &mask, &output, count).unwrap();
    assert_eq!(compacted.output.buffer, output.buffer);
    assert_eq!(compacted.output.byte_offset, 400);
    assert_eq!(compacted.output.extent, Extent::Gpu(count));

    let (_, sorted) = primitives.sort(&input, &output, SortOptions::full_width().key_bits(16)).unwrap();
    assert_eq!((sorted.buffer, sorted.byte_offset), (output.buffer, 400));
    assert_eq!(
        primitives.sort(&input, &output, SortOptions::full_width().key_bits(33)).err(),
        Some(Error::InvalidKeyBits { bits: 33 })
    );

    let lengths: GpuSliceMut<u32> = GpuSliceMut::from_range(storage(5, 400), 0..100).unwrap();
    let run_count = GpuCount::new(storage(6, 4)).unwrap();
    let (unique, runs) = primitives.run_length_encode(&input, &output, &lengths, run_count).unwrap();
    assert_eq!((unique.buffer, unique.byte_offset), (output.buffer, 400));
    assert_eq!((runs.buffer, runs.byte_offset), (lengths.buffer, 0));
}

fn first_scan_kernel(scan: &ScanCommands) -> ScanKernel {
    let ScanCommands::Levels { steps, .. } = scan else {
        panic!("a scan of many items runs levels");
    };
    steps[0].kernel
}

#[test]
fn each_primitive_scans_in_its_own_mode() {
    let mut sorter = Sorter::new(limits(), false);
    let SortCommands::ReduceScan(plan) = sorter.record_sort(storage(1, 40_000), storage(2, 40_000), 10_000).unwrap() else {
        panic!("the portable sorter runs the reduce-then-scan kernels");
    };
    assert_eq!(first_scan_kernel(&plan.scan), ScanKernel::InclusiveInput);

    let mut compactor = Compactor::new(limits(), scan_config(false, false, 16_384));
    let CompactCommands::Compact { scan, .. } = compactor
        .record_compact(storage(1, 4_000), storage(2, 4_000), storage(3, 4_000), storage(4, 4), 1_000)
        .unwrap()
    else {
        panic!("a non-empty compaction scans and scatters");
    };
    assert_eq!(first_scan_kernel(&scan), ScanKernel::ExclusiveInput);

    let mut encoder = RunLengthEncoder::new(limits(), scan_config(false, false, 16_384));
    let outputs = RunLengthOutputRanges {
        unique_values: BufferRange::whole(storage(2, 4_000)),
        run_lengths: BufferRange::whole(storage(3, 4_000)),
        run_count: BufferRange::whole(storage(4, 4)),
    };
    let RunLengthCommands::Encode { scan, .. } = encoder
        .record_commands(BufferRange::whole(storage(1, 4_000)), outputs, InputExtent::Fixed(1_000))
        .unwrap()
    else {
        panic!("a non-empty encoding scans its run heads");
    };
    assert_eq!(first_scan_kernel(&scan), ScanKernel::ExclusiveInput);
}

#[test]
fn host_key_widths_above_thirty_two_are_refused_first() {
    assert_eq!(validate_keys(&[], 33), Err(Error::InvalidKeyBits { bits: 33 }));
    assert_eq!(validate_keys(&[1 << 20], 40), Err(Error::InvalidKeyBits { bits: 40 }));
    assert_eq!(validate_keys(&[], 0), Ok(()));
    assert_eq!(validate_record_keys(&[], 33), Err(Error::InvalidKeyBits { bits: 33 }));
    let records = [KeyValue::new(3, 9), KeyValue::new(300, 1), KeyValue::new(4_000, 2)];
    assert_eq!(validate_record_keys(&records, 8), Err(Error::KeyExceedsBitRange { key: 300, bits: 8 }));
    assert_eq!(validate_record_keys(&records, 12), Ok(()));
    assert_eq!(validate_record_keys(&[KeyValue::new(0, 7)], 0), Ok(()));
}
