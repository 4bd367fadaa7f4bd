use lampshade::common::buffers::DeviceLimits;
use lampshade::count::GpuCountPlan;
use lampshade::common::buffers::{GpuBuffer, USAGE_STORAGE};
use lampshade::predicate::pipeline::predicate_dispatch;
use lampshade::reduce::counted::{level_offsets, plan_stride, preparation_config};
use lampshade::run_length::pipeline::{dispatch_dimensions as run_length_dispatch, params};
use lampshade::scan::pipeline::{compute_pass_count, dispatch_shape, get_scratch_size, scan_config};
use lampshade::sort::eight_bit::{
    count_bytes, counted_params, dispatch_args_offset, eight_bit_uniforms, histogram_groups, uniform_offset,
};
use lampshade::sort::pipeline::{radix_workgroup_config, sort_pipeline_config, RadixVariant};
use lampshade::sort::soa::bridge_config;
use lampshade::sort::uniforms::radix_uniforms;
use lampshade::{KeyValueField, U32Predicate};

fn limits(alignment: u32) -> DeviceLimits {
    DeviceLimits {
        max_buffer_size: 256 << 20,
        max_storage_buffer_binding_size: 128 << 20,
        min_storage_buffer_offset_alignment: alignment,
        min_uniform_buffer_offset_alignment: 256,
        max_compute_workgroup_storage_size: 16_384,
        max_compute_workgroups_per_dimension: 65_535,
        max_compute_invocations_per_workgroup: 256,
        max_compute_workgroup_size_x: 256,
    }
}

#[test]
fn radix_uniform_records_hold_shift_items_and_blocks() {
    let words = radix_uniforms(3, 4, 2, 1_000, 2);
    assert_eq!(words, vec![0, 1_000, 2, 0, 2, 1_000, 2, 0, 4, 1_000, 2, 0]);
}

#[test]
fn eight_bit_uniform_records_hold_items_tiles_pass_shift_and_count() {
    let words = eight_bit_uniforms(2, 8, 5_000, 3);
    assert_eq!(words, vec![5_000, 3, 1, 0, 2, 0, 0, 0, 5_000, 3, 2, 8, 2, 0, 0, 0]);
}

#[test]
fn eight_bit_offsets_and_parameters() {
    assert_eq!(dispatch_args_offset(3), 36);
    assert_eq!(uniform_offset(3, 256), 768);
    assert_eq!(count_bytes(0), 4);
    assert_eq!(count_bytes(5), 24);
    assert_eq!(counted_params(1_000, 4, 2), vec![1_000, 4, 2, 0, 0, 0, 0, 0]);
    assert_eq!(histogram_groups(1_792), 1);
    assert_eq!(histogram_groups(1_793), 2);
    assert_eq!(histogram_groups(u32::MAX), 2_048);
}

#[test]
fn counted_reduction_records_are_aligned() {
    assert_eq!(plan_stride(&limits(256)), Ok(256));
    assert_eq!(plan_stride(&limits(1)), Ok(8));
    assert_eq!(plan_stride(&limits(32)), Ok(32));
    assert_eq!(level_offsets(2, 256), (512, 24));
    assert_eq!(preparation_config(10_000, 2, 256), vec![10_000, 2, 4_096, 64, 65_535, 0, 0, 0]);
}

#[test]
fn count_plans_size_their_records_by_level() {
    let count = GpuBuffer { id: 1, size: 4, usage: USAGE_STORAGE };
    let plan = GpuCountPlan::new(count, 5_000_000, &limits(256)).unwrap();
    assert_eq!(plan.reduction_pass_count(), 2);
    assert_eq!(plan.plan_stride(), 256);
    assert_eq!(plan.capacity(), 5_000_000);
    assert_eq!(plan.count().size, 4);
}

#[test]
fn run_length_grid_and_parameters() {
    assert_eq!(run_length_dispatch(1_000, 65_535), (4, 1));
    assert_eq!(run_length_dispatch(256 * 70_000, 65_535), (65_535, 2));
    assert_eq!(params(1_000, 600, 4, true), vec![1_000, 600, 4, 1]);
    assert_eq!(params(1_000, 600, 4, false), vec![1_000, 600, 4, 0]);
}

#[test]
fn predicate_grid_and_parameters() {
    let (x, y, words) =
        predicate_dispatch(1_000, 65_535, KeyValueField::Value, U32Predicate::BetweenInclusive { min: 3, max: 9 });
    assert_eq!((x, y), (4, 1));
    assert_eq!(words, vec![1_000, 4, 6, 1, 3, 9, 0, 0]);
}

#[test]
fn scan_shapes() {
    let portable = scan_config(false, true, 16_384);
    assert_eq!((portable.vt, portable.block_size), (4, 128));
    let wide = scan_config(false, false, 32_768);
    assert_eq!((wide.vt, wide.block_size), (8, 256));
    let subgroup = scan_config(true, true, 0);
    assert_eq!((subgroup.vt, subgroup.block_size), (1, 256));

    assert_eq!(compute_pass_count(portable, 0), 0);
    assert_eq!(compute_pass_count(portable, 1), 0);
    assert_eq!(compute_pass_count(portable, 1_000), 4);
    let shape = dispatch_shape(portable, 1_000);
    assert_eq!(shape.workgroups, 2);
    assert_eq!(shape.data_bytes, 4_000);
    assert_eq!(shape.auxiliary_bytes, 8);
    assert_eq!((shape.x, shape.y), (2, 1));
    assert_eq!(get_scratch_size(portable, 1_000), 512);
}

#[test]
fn sort_kernel_shapes() {
    assert_eq!(radix_workgroup_config(32_768), (8, 256));
    assert_eq!(radix_workgroup_config(16_384), (4, 128));
    let portable = sort_pipeline_config(RadixVariant::Portable, 16_384);
    assert_eq!((portable.bits_per_pass, portable.bucket_count, portable.pass_count), (2, 4, 16));
    let wide = sort_pipeline_config(RadixVariant::NvidiaVulkanWide, 32_768);
    assert_eq!((wide.bits_per_pass, wide.bucket_count, wide.pass_count), (4, 16, 8));
    assert_eq!(bridge_config(1_000, 3), vec![1_000, 3, 0, 0]);
}
