use lampshade::argmin::selector::ArgminByKey;
use lampshade::common::buffers::{
    BufferRange, DeviceLimits, GpuBuffer, USAGE_COPY_DST, USAGE_STORAGE,
};
use lampshade::compact::core_plan::validate_host_mask;
use lampshade::pipeline::GpuCount;
use lampshade::profiling::TimestampSlots;
use lampshade::sort::eight_bit::EightBitSorter;
use lampshade::sort::pipeline::SortItemKind;
use lampshade::sort::radix::{validate_key_for_bits, validate_keys};
use lampshade::Error;

fn limits() -> DeviceLimits {
    DeviceLimits {
        max_buffer_size: 256 << 20,
        max_storage_buffer_binding_size: 128 << 20,
        min_storage_buffer_offset_alignment: 256,
        min_uniform_buffer_offset_alignment: 256,
        max_compute_workgroup_storage_size: 16_384,
        max_compute_workgroups_per_dimension: 65_535,
        max_compute_invocations_per_workgroup: 256,
        max_compute_workgroup_size_x: 256,
    }
}

fn buffer(id: u64, size: u64, usage: u32) -> GpuBuffer {
    GpuBuffer { id, size, usage }
}

fn argmin_output(usage: u32) -> BufferRange {
    BufferRange::whole(buffer(2, 8, usage))
}

fn argmin_input() -> BufferRange {
    BufferRange::whole(buffer(1, 800, USAGE_STORAGE))
}

#[test]
fn argmin_rejects_an_aliased_output() {
    let mut selector = ArgminByKey::new(limits());
    let shared = BufferRange::whole(buffer(1, 800, USAGE_STORAGE | USAGE_COPY_DST));
    let err = selector.record_argmin(shared, shared, 100).unwrap_err();
    assert_eq!(err, Error::BufferAlias { first: "argmin input", second: "argmin output" });
    assert_eq!(err.message(), "argmin input and argmin output must be distinct buffers");
}

#[test]
fn argmin_rejects_a_count_that_aliases_the_output() {
    let mut selector = ArgminByKey::new(limits());
    let output = argmin_output(USAGE_STORAGE | USAGE_COPY_DST);
    let err = selector.record_argmin_counted(argmin_input(), output, output, 100).unwrap_err();
    assert_eq!(err, Error::BufferAlias { first: "argmin output", second: "argmin item count" });
}

#[test]
fn argmin_rejects_an_output_without_copy_destination() {
    let mut selector = ArgminByKey::new(limits());
    let err = selector.record_argmin(argmin_input(), argmin_output(USAGE_STORAGE), 100).unwrap_err();
    assert_eq!(
        err,
        Error::MissingBufferUsage {
            name: "argmin output",
            required: USAGE_STORAGE | USAGE_COPY_DST,
            actual: USAGE_STORAGE,
        }
    );
    let message = err.message();
    assert!(message.starts_with("argmin output buffer is missing usage "));
    assert!(message.contains("COPY_DST"));
    assert!(message.contains("; actual usage is "));
    assert!(!message.contains("136"));
}

#[test]
fn argmin_rejects_a_short_input() {
    let mut selector = ArgminByKey::new(limits());
    let output = argmin_output(USAGE_STORAGE | USAGE_COPY_DST);
    let err = selector.record_argmin(argmin_input(), output, 101).unwrap_err();
    assert_eq!(err, Error::BufferTooSmall { name: "argmin input", required: 808, actual: 800 });
    assert_eq!(err.message(), "argmin input buffer is too small: requires 808 bytes, has 800 bytes");
}

#[test]
fn argmin_rejects_a_misaligned_output() {
    let mut selector = ArgminByKey::new(limits());
    let output =
        BufferRange::new(buffer(2, 64, USAGE_STORAGE | USAGE_COPY_DST), 8, 8, "argmin output").unwrap();
    let err = selector.record_argmin(argmin_input(), output, 100).unwrap_err();
    assert_eq!(err, Error::MisalignedBufferOffset { name: "argmin output", offset: 8, alignment: 256 });
    assert_eq!(err.message(), "argmin output byte offset 8 is not aligned to 256 bytes");
}

#[test]
fn argmin_rejects_an_input_beyond_the_binding_limit() {
    let small = DeviceLimits { max_storage_buffer_binding_size: 512, ..limits() };
    let mut selector = ArgminByKey::new(small);
    let output = argmin_output(USAGE_STORAGE | USAGE_COPY_DST);
    let err = selector.record_argmin(argmin_input(), output, 100).unwrap_err();
    assert_eq!(err, Error::BufferLimitExceeded { requested: 800, limit: 512 });
    assert_eq!(err.message(), "requested GPU buffer size 800 exceeds the device limit 512");
    assert!(!selector.scratch_a.allocated);
}

#[test]
fn a_count_outside_its_buffer_is_rejected() {
    let err = GpuCount::new(buffer(3, 2, USAGE_STORAGE)).unwrap_err();
    assert_eq!(
        err,
        Error::BufferRangeOutOfBounds { name: "GPU item count", offset: 0, size: 4, buffer_size: 2 }
    );
    assert_eq!(
        err.message(),
        "GPU item count range at byte offset 0 with size 4 exceeds buffer size 2"
    );
}

#[test]
fn key_widths_are_checked() {
    let err = validate_key_for_bits(0, 33).unwrap_err();
    assert_eq!(err, Error::InvalidKeyBits { bits: 33 });
    assert_eq!(err.message(), "radix-sort key width must be at most 32 bits, got 33");

    let err = validate_key_for_bits(256, 8).unwrap_err();
    assert_eq!(err, Error::KeyExceedsBitRange { key: 256, bits: 8 });
    assert_eq!(err.message(), "key 256 does not fit in the declared 8-bit radix-sort range");

    assert!(validate_key_for_bits(255, 8).is_ok());
    assert!(validate_key_for_bits(0, 0).is_ok());
    assert!(validate_key_for_bits(1, 0).is_err());
    assert!(validate_key_for_bits(u32::MAX, 32).is_ok());
    assert_eq!(validate_keys(&[1, 2, 300, 4000], 8), Err(Error::KeyExceedsBitRange { key: 300, bits: 8 }));
    assert!(validate_keys(&[1, 2, 255], 8).is_ok());
}

#[test]
fn host_masks_are_checked() {
    let err = validate_host_mask(3, &[1, 0]).unwrap_err();
    assert_eq!(err, Error::CompactionLengthMismatch { input: 3, mask: 2 });
    assert_eq!(
        err.message(),
        "compaction input and mask lengths differ: input has 3 items, mask has 2"
    );

    let err = validate_host_mask(3, &[1, 2, 0]).unwrap_err();
    assert_eq!(err, Error::InvalidCompactionFlag { index: 1, value: 2 });
    assert_eq!(err.message(), "compaction mask value at index 1 must be 0 or 1, got 2");

    assert_eq!(validate_host_mask(4, &[1, 0, 1, 1]), Ok(3));
}

#[test]
fn eight_bit_sorts_stop_at_the_packed_element_limit() {
    let narrow = DeviceLimits { max_compute_workgroups_per_dimension: 1, ..limits() };
    let mut sorter = EightBitSorter::new(SortItemKind::Key, narrow);
    let input = BufferRange::whole(buffer(1, 1 << 20, USAGE_STORAGE));
    let output = BufferRange::whole(buffer(2, 1 << 20, USAGE_STORAGE));
    let err = sorter.prepare_sort(input, output, 1_793).unwrap_err();
    assert_eq!(err, Error::RadixElementCountLimitExceeded { count: 1_793, limit: 1_792 });
    assert_eq!(err.message(), "element count 1793 exceeds the optimized radix-sort limit of 1792");
}

#[test]
fn profiling_needs_timestamp_queries() {
    let err = TimestampSlots::new(4, false).err().unwrap();
    assert_eq!(err, Error::TimestampQueriesUnsupported);
    assert_eq!(err.message(), "the selected GPU adapter does not support timestamp queries");
    let (slots, queries, bytes) = TimestampSlots::new(4, true).ok().unwrap();
    assert_eq!((slots.span_capacity, slots.used, queries, bytes), (4, 0, 8, 64));
}

#[test]
fn every_message_names_its_values() {
    assert_eq!(
        Error::ElementCountTooLarge { count: 4_294_967_296 }.message(),
        "element count 4294967296 exceeds the supported u32 range"
    );
    assert_eq!(
        Error::InvalidHistogramBinCount { bins: 0, max: 256 }.message(),
        "histogram bin count must be between 1 and 256, got 0"
    );
    assert_eq!(Error::SizeOverflow.message(), "buffer size calculation overflowed");
    assert_eq!(
        Error::UnsupportedDynamicExtent { operation: "predicate mask" }.message(),
        "predicate mask currently requires a CPU-known input extent"
    );
    assert_eq!(
        Error::ReadbackChannelClosed.message(),
        "GPU readback completed without reporting its mapping result"
    );
    assert_eq!(
        Error::RequestDevice("out of memory".to_owned()).message(),
        "failed to request a GPU device: out of memory"
    );
    assert_eq!(
        Error::BufferTooSmall { name: "scan output", required: 0, actual: 10 }.message(),
        "scan output buffer is too small: requires 0 bytes, has 10 bytes"
    );
    assert_eq!(
        Error::BufferLimitExceeded { requested: u64::MAX, limit: 1 }.message(),
        "requested GPU buffer size 18446744073709551615 exceeds the device limit 1"
    );
}
