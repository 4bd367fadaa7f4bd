use lampshade::argmin::selector::{identity, ArgminByKey, ArgminCommands};
use lampshade::common::buffers::{
    BufferRange, DeviceLimits, GpuBuffer, USAGE_COPY_DST, USAGE_STORAGE,
};
use lampshade::common::dispatch::{hierarchy_levels, HierarchyLevel, LevelTarget};
use lampshade::count::{CountedSortDispatch, GpuCountPlan};
use lampshade::pipeline::{CountPlanCache, GpuCount};
use lampshade::reduce::pipeline::{reduction_levels, ITEMS_PER_BLOCK};
use lampshade::scan::pipeline::{get_scratch_size, scan_config};
use lampshade::scan::scanner::{scan_level_layout, scan_steps, LevelBuffer, ScanMode, Scanner};
use lampshade::sort::counted::pass_count as counted_pass_count;
use lampshade::sort::eight_bit::{pass_count_for_key_bits, soa_pass_buffers, SoaSlot, MAX_PASS_COUNT};
use lampshade::sort::radix::pass_buffers;
use lampshade::sort::routing::{pass_buffer_slots, BufferSlot};
use lampshade::sort::soa::KeyValueSoaRequirements;
use lampshade::common::capabilities::{AdapterCapabilities, Backend, DeviceType, GpuFeatures};
use lampshade::{Error, U32Predicate, U32Reduction};
use lampshade::compact::compactor::{Compactor, KeyValueCompactor};

fn limits() -> DeviceLimits {
    DeviceLimits {
        max_buffer_size: 256 << 20,
        max_storage_buffer_binding_size: 128 << 20,
        min_storage_buffer_offset_alignment: 256,
        min_uniform_buffer_offset_alignment: 256,
        max_compute_workgroup_storage_size: 16_384,
        max_compute_workgroups_per_dimension: 65_535,
        max_compute_invocations_per_workgroup: 256,
        max_compute_workgroup_size_x: 256,
    }
}

fn buffer(id: u64, size: u64, usage: u32) -> GpuBuffer {
    GpuBuffer { id, size, usage }
}

fn whole(b: GpuBuffer) -> BufferRange {
    BufferRange::whole(b)
}

fn check_hierarchy(levels: &[HierarchyLevel], items: u32) {
    assert!(!levels.is_empty());
    assert_eq!(levels[0].input_items, items);
    let last = levels[levels.len() - 1];
    assert_eq!(last.target, LevelTarget::Output);
    assert_eq!(last.output_items, 1);
    for i in 1..levels.len() {
        assert_eq!(levels[i].input_items, levels[i - 1].output_items);
        assert_ne!(levels[i].target, levels[i - 1].target);
        assert_ne!(levels[i - 1].target, LevelTarget::Output);
    }
}

#[test]
fn reduction_levels_end_in_the_caller_output() {
    for items in [1, 2, ITEMS_PER_BLOCK, ITEMS_PER_BLOCK + 1, ITEMS_PER_BLOCK * ITEMS_PER_BLOCK + 1] {
        check_hierarchy(&reduction_levels(items), items);
    }
    assert!(reduction_levels(0).is_empty());
    let levels = reduction_levels(ITEMS_PER_BLOCK * ITEMS_PER_BLOCK + 1);
    assert_eq!(levels.len(), 3);
    assert_eq!(levels[0].target, LevelTarget::ScratchA);
    assert_eq!(levels[1].target, LevelTarget::ScratchB);
    assert_eq!(levels[1].input_items, ITEMS_PER_BLOCK + 1);
    assert_eq!(levels[2].input_items, 2);
}

#[test]
fn reduction_identities_leave_values_unchanged() {
    assert_eq!(U32Reduction::Sum.identity(), 0);
    assert_eq!(U32Reduction::Min.identity(), u32::MAX);
    assert_eq!(U32Reduction::Max.identity(), 0);
}

#[test]
fn argmin_levels_alternate_scratch_and_end_in_the_output() {
    let mut selector = ArgminByKey::new(limits());
    let input = whole(buffer(1, 70_000 * 8, USAGE_STORAGE));
    let output = whole(buffer(2, 8, USAGE_STORAGE | USAGE_COPY_DST));
    let commands = selector.record_argmin(input, output, 70_000).unwrap();
    let ArgminCommands::Passes { passes, rebuilt } = commands else {
        panic!("a non-empty input runs passes");
    };
    assert!(rebuilt);
    let levels: Vec<HierarchyLevel> = passes.iter().map(|p| p.level).collect();
    check_hierarchy(&levels, 70_000);
    assert_eq!(levels, hierarchy_levels(70_000, 256));
    assert_eq!(levels.len(), 3);
    assert_eq!(levels[0].output_items, 274);
    assert_eq!(levels[1].output_items, 2);
    assert_eq!(passes[0].params, (70_000, 0, 0, 0));
    assert_eq!(passes[1].params, (274, 0, 0, 0));
    assert_eq!(passes[2].params, (2, 0, 0, 0));
    assert_eq!(passes[0].groups, (274, 1));
    assert!(selector.scratch_a.capacity_bytes >= 274 * 8);
    assert!(selector.scratch_b.capacity_bytes >= 2 * 8);

    let again = selector.record_argmin(input, output, 70_000).unwrap();
    assert!(matches!(again, ArgminCommands::Passes { rebuilt: false, .. }));
}

#[test]
fn argmin_counted_levels_carry_the_level_index() {
    let mut selector = ArgminByKey::new(limits());
    let input = whole(buffer(1, 70_000 * 8, USAGE_STORAGE));
    let output = whole(buffer(2, 8, USAGE_STORAGE | USAGE_COPY_DST));
    let count = whole(buffer(3, 4, USAGE_STORAGE));
    let commands = selector.record_argmin_counted(input, output, count, 70_000).unwrap();
    let ArgminCommands::Passes { passes, .. } = commands else {
        panic!("a non-zero capacity runs passes");
    };
    assert_eq!(passes[0].params, (70_000, 0, 274, 0));
    assert_eq!(passes[1].params, (70_000, 1, 2, 0));
    assert_eq!(passes[2].params, (70_000, 2, 1, 0));
}

#[test]
fn argmin_of_nothing_writes_the_largest_record() {
    let mut selector = ArgminByKey::new(limits());
    let input = whole(buffer(1, 0, 0));
    let output = whole(buffer(2, 8, USAGE_STORAGE | USAGE_COPY_DST));
    assert!(matches!(selector.record_argmin(input, output, 0), Ok(ArgminCommands::Identity)));
    let count = whole(buffer(3, 4, USAGE_STORAGE));
    assert!(matches!(
        selector.record_argmin_counted(input, output, count, 0),
        Ok(ArgminCommands::Identity)
    ));
    assert_eq!((identity().key, identity().value), (u32::MAX, u32::MAX));
    assert_eq!(selector.plan_host_argmin(0), Ok(None));
    assert_eq!(selector.plan_host_argmin(3), Ok(Some(3)));
}

#[test]
fn every_radix_pass_count_ends_in_the_output() {
    for pass_count in 1..=16u32 {
        let routes: Vec<(BufferSlot, BufferSlot)> =
            (0..pass_count).map(|p| pass_buffer_slots(p, pass_count)).collect();
        assert_eq!(routes[0].0, BufferSlot::Input);
        assert_eq!(routes[routes.len() - 1].1, BufferSlot::Output);
        for p in 1..routes.len() {
            assert_eq!(routes[p].0, routes[p - 1].1);
            assert_ne!(routes[p].0, routes[p].1);
        }
    }
}

#[test]
fn reduce_then_scan_routing_matches_for_even_pass_counts() {
    for pass_count in [2u32, 4, 8, 16] {
        for p in 0..pass_count {
            assert_eq!(pass_buffers(p), pass_buffer_slots(p, pass_count));
        }
    }
    assert_eq!(pass_buffers(2), (BufferSlot::Output, BufferSlot::Scratch));
}

#[test]
fn separate_buffer_sort_returns_to_the_caller_buffers() {
    assert_eq!(soa_pass_buffers(0).0, SoaSlot::Caller);
    assert_eq!(soa_pass_buffers(MAX_PASS_COUNT - 1).1, SoaSlot::Caller);
    for p in 1..MAX_PASS_COUNT {
        assert_eq!(soa_pass_buffers(p).0, soa_pass_buffers(p - 1).1);
    }
    for p in 0..MAX_PASS_COUNT {
        assert_ne!(soa_pass_buffers(p).0, soa_pass_buffers(p).1);
    }
}

#[test]
fn scan_levels_are_aligned_disjoint_and_fit_the_scratch() {
    for subgroups in [false, true] {
        let config = scan_config(subgroups, true, 16_384);
        for n in [2u32, 1_000, 1_000_000] {
            let levels = scan_level_layout(config, n);
            let scratch = get_scratch_size(config, n);
            assert_eq!(levels[0].buffer, LevelBuffer::Output);
            assert_eq!(levels[0].count, n);
            assert_eq!(levels[levels.len() - 1].count, 1);
            for k in 1..levels.len() {
                let level = levels[k];
                assert_eq!(level.buffer, LevelBuffer::Scratch);
                assert_eq!(level.offset % 256, 0);
                assert!(level.offset + u64::from(level.count) * 4 <= scratch);
                if k + 1 < levels.len() {
                    assert!(level.offset + u64::from(level.count) * 4 <= levels[k + 1].offset);
                }
            }
            let steps = scan_steps(config, n, ScanMode::Inclusive, true);
            assert_eq!(steps.len() as u32, Scanner::new(config).compute_pass_count(n));
            for step in &steps {
                assert_eq!(step.auxiliary, step.data + 1);
            }
        }
    }
}

#[test]
fn requirements_never_lower_a_limit() {
    let quiet = KeyValueSoaRequirements::for_capabilities(AdapterCapabilities {
        backend: Backend::Metal,
        vendor: 0x106b,
        device_type: DeviceType::IntegratedGpu,
        subgroup_min_size: 4,
        subgroup_max_size: 64,
        subgroups_enabled: true,
        max_compute_invocations_per_workgroup: 1024,
        max_compute_workgroup_size_x: 1024,
        max_compute_workgroup_storage_size: 32_768,
    });
    assert!(!quiet.accelerated);
    assert_eq!(quiet.limits(limits()), limits());
    let none = GpuFeatures { subgroup: false, timestamp_query: false };
    assert_eq!(quiet.features(none), none);
}

#[test]
fn distinct_predicates_reach_the_kernel_as_distinct_words() {
    let all = [
        U32Predicate::Equal(7),
        U32Predicate::NotEqual(7),
        U32Predicate::LessThan(7),
        U32Predicate::LessThanOrEqual(7),
        U32Predicate::GreaterThan(7),
        U32Predicate::GreaterThanOrEqual(7),
        U32Predicate::BetweenInclusive { min: 7, max: 0 },
        U32Predicate::Equal(8),
    ];
    for (i, p) in all.iter().enumerate() {
        assert!(p.encode().0 <= 6);
        for (j, q) in all.iter().enumerate() {
            assert_eq!(p.encode() == q.encode(), i == j);
        }
    }
}

#[test]
fn a_count_is_prepared_once_until_it_changes() {
    let limits = limits();
    let count = GpuCount::new(buffer(9, 16, USAGE_STORAGE)).unwrap();
    let other = GpuCount::new(buffer(10, 16, USAGE_STORAGE)).unwrap();
    let mut cache = CountPlanCache::new();
    cache.begin_recording();
    let (first, record_first) = cache.prepare_count(count, 1_000, &limits).unwrap();
    assert!(record_first);
    let (again, record_again) = cache.prepare_count(count, 1_000, &limits).unwrap();
    assert_eq!(again, first);
    assert!(!record_again);
    let (_, record_other) = cache.prepare_count(other, 1_000, &limits).unwrap();
    assert!(record_other);
    cache.invalidate_count(count);
    let (after, record_after) = cache.prepare_count(count, 1_000, &limits).unwrap();
    assert_eq!(after, first);
    assert!(record_after);
    let (_, record_other_again) = cache.prepare_count(other, 1_000, &limits).unwrap();
    assert!(!record_other_again);
}

#[test]
fn a_count_plan_bounds_every_consumer_by_its_capacity() {
    let count = buffer(4, 16, USAGE_STORAGE);
    let plan = GpuCountPlan::new(count, 10_000, &limits()).unwrap();
    assert_eq!(plan.capacity(), 10_000);
    assert_eq!(plan.sort_dispatch(), CountedSortDispatch::Indirect);
    assert!(plan.record_prepare());
    let empty = GpuCountPlan::new(count, 0, &limits()).unwrap();
    assert!(!empty.record_prepare());
}

#[test]
fn fewer_key_bits_never_add_passes() {
    for narrow in 0..=32u32 {
        for wide in narrow..=32u32 {
            assert!(counted_pass_count(narrow) <= counted_pass_count(wide));
            assert!(pass_count_for_key_bits(narrow) <= pass_count_for_key_bits(wide));
        }
    }
    assert_eq!(counted_pass_count(32), 16);
    assert_eq!(pass_count_for_key_bits(32), 4);
}

#[test]
fn count_plans_dispatch_indirectly_by_default() {
    assert_eq!(CountedSortDispatch::default(), CountedSortDispatch::Indirect);
}

#[test]
fn a_count_without_storage_usage_is_refused_and_cached_nowhere() {
    let limits = limits();
    let unusable = GpuCount::new(buffer(9, 16, USAGE_COPY_DST)).unwrap();
    let mut cache = CountPlanCache::new();
    cache.begin_recording();
    assert_eq!(
        cache.prepare_count(unusable, 1_000, &limits).err(),
        Some(Error::MissingBufferUsage { name: "GPU item count", required: USAGE_STORAGE, actual: USAGE_COPY_DST })
    );
    assert!(cache.plans.is_empty());
    assert!(cache.prepared.is_empty());
    let usable = GpuCount::new(buffer(9, 16, USAGE_STORAGE)).unwrap();
    assert_eq!(cache.prepare_count(usable, 1_000, &limits).unwrap(), (0, true));
}

#[test]
fn compactors_reserve_offsets_within_the_buffer_limit() {
    let mut small = limits();
    small.max_buffer_size = 100;
    let scan = scan_config(false, false, 16_384);
    let mut values = Compactor::new(small, scan);
    assert_eq!(values.reserve(26).err(), Some(Error::BufferLimitExceeded { requested: 104, limit: 100 }));
    assert!(!values.core.offsets.allocated);
    assert!(values.reserve(0).is_ok());
    assert!(values.reserve(25).is_ok());
    assert!(values.core.offsets.capacity_bytes >= 100);
    let mut pairs = KeyValueCompactor::new(small, scan);
    assert_eq!(pairs.reserve(1_000).err(), Some(Error::BufferLimitExceeded { requested: 4_000, limit: 100 }));
    assert!(pairs.reserve(10).is_ok());
    assert!(pairs.core.offsets.capacity_bytes >= 40);
}
