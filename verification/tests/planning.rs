use std::time::Duration;

use lampshade::common::buffers::{BufferRange, GpuBuffer, USAGE_COPY_DST, USAGE_STORAGE};
use lampshade::histogram::counter::Histogram;
use lampshade::reduce::counted::CountedReducer;
use lampshade::reduce::reducer::Reducer;

use lampshade::common::math::{align_to, checked_align_to, div_ceil_u32, div_ceil_u64};
use lampshade::common::workspace::{checked_next_power_of_two, workspace_capacity, ReusableBuffer, WORKSPACE_GROWTH_BYTES};
use lampshade::compact::pipeline::compact_dispatch;
use lampshade::histogram::pipeline::histogram_dispatch;
use lampshade::profiling::{elapsed_ticks, span_ticks, GpuProfile};
use lampshade::run_length::encoder::run_count;
use lampshade::sort::eight_bit::{soa_params, MAX_PACKED_COUNT};

#[test]
fn division_rounds_up() {
    assert_eq!(div_ceil_u32(0, 7), 0);
    assert_eq!(div_ceil_u32(14, 7), 2);
    assert_eq!(div_ceil_u32(15, 7), 3);
    assert_eq!(div_ceil_u64(u64::MAX, 2), 1 << 63);
}

#[test]
fn alignment_rounds_up_to_the_next_multiple() {
    assert_eq!(align_to(0, 256), 0);
    assert_eq!(align_to(1, 256), 256);
    assert_eq!(align_to(256, 256), 256);
    assert_eq!(align_to(257, 256), 512);
    assert_eq!(checked_align_to(u64::MAX - 255, 256), Ok(u64::MAX - 255));
}

#[test]
fn powers_of_two_round_up() {
    assert_eq!(checked_next_power_of_two(0), Some(1));
    assert_eq!(checked_next_power_of_two(1), Some(1));
    assert_eq!(checked_next_power_of_two(3), Some(4));
    assert_eq!(checked_next_power_of_two(1 << 40), Some(1 << 40));
    assert_eq!(checked_next_power_of_two((1 << 63) + 1), None);
}

#[test]
fn workspaces_grow_by_powers_of_two_then_by_large_steps() {
    assert_eq!(workspace_capacity(0, 4), Ok(4));
    assert_eq!(workspace_capacity(5, 4), Ok(8));
    assert_eq!(workspace_capacity(1000, 4), Ok(1024));
    assert_eq!(workspace_capacity(WORKSPACE_GROWTH_BYTES, 4), Ok(WORKSPACE_GROWTH_BYTES));
    assert_eq!(workspace_capacity(WORKSPACE_GROWTH_BYTES + 1, 4), Ok(2 * WORKSPACE_GROWTH_BYTES));
}

#[test]
fn reusable_buffers_grow_only_when_too_small() {
    let mut buffer = ReusableBuffer::new();
    assert!(buffer.ensure(100));
    assert!(!buffer.ensure(50));
    assert_eq!(buffer.capacity_bytes, 100);
    assert!(buffer.ensure(200));
    assert_eq!(buffer.capacity_bytes, 200);
}

#[test]
fn histogram_grid_counts_one_workgroup_per_block() {
    let (x, y, params) = histogram_dispatch(10_000, 16, 65_535);
    assert_eq!((x, y), (5, 1));
    assert_eq!(params, vec![10_000, 16, 5, 5]);
    let (x, y, params) = histogram_dispatch(u32::MAX, 256, 1_000);
    assert_eq!((x, y), (1_000, 2_098));
    assert_eq!(params[3], 2_097_152);
}

#[test]
fn compaction_grid_covers_every_item() {
    let (x, y, params) = compact_dispatch(1_000, 2, 512);
    assert_eq!((x, y), (2, 2));
    assert_eq!(params, vec![1_000, 2, 512, 0]);
}

#[test]
fn runs_are_counted_by_neighbouring_changes() {
    assert_eq!(run_count(&[]), 0);
    assert_eq!(run_count(&[5]), 1);
    assert_eq!(run_count(&[1, 1, 2, 2, 2, 1, 3]), 4);
}

#[test]
fn timestamp_pairs_become_span_ticks() {
    let timestamps = [10, 20, 25, 45];
    assert_eq!(span_ticks(&timestamps, 2), vec![10, 20]);
    assert_eq!(elapsed_ticks(&timestamps), 35);
    assert_eq!(span_ticks(&[30, 20], 1), vec![0]);
    assert_eq!(elapsed_ticks(&[]), 0);
}

#[test]
fn an_empty_profile_has_no_time() {
    let profile = GpuProfile::empty();
    assert!(profile.spans.is_empty());
    assert_eq!(profile.gpu_elapsed, Duration::ZERO);
    assert_eq!(profile.dispatch_time, Duration::ZERO);
}

#[test]
fn separate_buffer_params_pack_the_count_word() {
    assert_eq!(soa_params(1_000, 3), vec![1_000, 4, 3, 0, 0, 0, 0, 0]);
    assert_eq!(MAX_PACKED_COUNT, 0x0fff_ffff);
}

fn reduce_limits() -> lampshade::common::buffers::DeviceLimits {
    lampshade::common::buffers::DeviceLimits {
        max_buffer_size: 256 << 20,
        max_storage_buffer_binding_size: 128 << 20,
        min_storage_buffer_offset_alignment: 256,
        min_uniform_buffer_offset_alignment: 256,
        max_compute_workgroup_storage_size: 16_384,
        max_compute_workgroups_per_dimension: 65_535,
        max_compute_invocations_per_workgroup: 256,
        max_compute_workgroup_size_x: 256,
    }
}

fn reduce_buffer(id: u64, size: u64) -> lampshade::common::buffers::BufferRange {
    BufferRange::whole(GpuBuffer { id, size, usage: USAGE_STORAGE | USAGE_COPY_DST })
}

#[test]
fn counted_reductions_grow_their_workspace_once() {
    let mut reducer = CountedReducer::new(reduce_limits());
    let capacity = 5_000_000;
    let plan = reducer
        .record_reduce(reduce_buffer(1, 20_000_000), reduce_buffer(2, 4), reduce_buffer(3, 4), capacity)
        .unwrap();
    assert_eq!(plan.pass_count, 2);
    assert_eq!(plan.plan_stride, 256);
    assert_eq!(plan.scratch_a_bytes, 1_221 * 4);
    assert_eq!(plan.scratch_b_bytes, 0);
    assert_eq!(plan.plan_bytes, 512);
    assert_eq!(plan.args_bytes, 24);
    assert_eq!(reducer.scratch_a.capacity_bytes, 1_221 * 4);
    assert!(!reducer.scratch_b.allocated);
    assert_eq!(reducer.plans.capacity_bytes, 512);

    let err = reducer
        .record_reduce(reduce_buffer(1, 20_000_000), reduce_buffer(2, 4), reduce_buffer(1, 4), capacity)
        .err();
    assert_eq!(
        err,
        Some(lampshade::Error::BufferAlias { first: "reduction input", second: "reduction item count" })
    );

    let mut reserved = CountedReducer::new(reduce_limits());
    reserved.reserve(capacity).unwrap();
    assert_eq!(reserved.scratch_a, reducer.scratch_a);
    assert_eq!(reserved.dispatch_args.capacity_bytes, 24);
    reserved.reserve(0).unwrap();
}

#[test]
fn fixed_reductions_alternate_two_scratch_buffers() {
    let mut reducer = Reducer::new(reduce_limits());
    let items = 4_096 * 4_096 + 1;
    let plan = reducer.record_reduce(
        reduce_buffer(1, u64::from(items) * 4).buffer,
        reduce_buffer(2, 4).buffer,
        items,
    );
    let plan = plan.unwrap();
    assert_eq!(plan.levels.len(), 3);
    assert_eq!(plan.scratch_a_bytes, 4_097 * 4);
    assert_eq!(plan.scratch_b_bytes, 2 * 4);
    assert!(reducer.scratch_a.allocated && reducer.scratch_b.allocated);
}

#[test]
fn host_histograms_check_the_bins_before_the_input() {
    let histogram = Histogram::new(reduce_limits());
    assert_eq!(
        histogram.plan_host_histogram(0, 0),
        Err(lampshade::Error::InvalidHistogramBinCount { bins: 0, max: 256 })
    );
    assert_eq!(histogram.plan_host_histogram(0, 16), Ok(None));
    assert_eq!(histogram.plan_host_histogram(1_000, 16), Ok(Some(1_000)));
    let small = Histogram::new(lampshade::common::buffers::DeviceLimits {
        max_storage_buffer_binding_size: 1_024,
        ..reduce_limits()
    });
    assert_eq!(
        small.plan_host_histogram(1_000, 16),
        Err(lampshade::Error::BufferLimitExceeded { requested: 4_000, limit: 1_024 })
    );
}
