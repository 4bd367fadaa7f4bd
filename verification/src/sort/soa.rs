use vstd::prelude::*;

use crate::common::buffers::{
    limits_binding_spec, offset_spec, validate_spec, validate_storage_binding_size, BufferRange,
    DeviceLimits, GpuBuffer, USAGE_STORAGE,
};
use crate::common::capabilities::{AdapterCapabilities, GpuFeatures};
use crate::common::dispatch::split_dispatch;
use crate::common::math::{div_ceil, div_ceil_u32};
use crate::common::workspace::{workspace_capacity, workspace_capacity_spec};
use crate::error::Error;

use super::eight_bit::{
    allocate_spec, count_bytes, element_count_limit_spec, soa_input_error, NativeKeyValueSoaSorter,
};
use super::pipeline::{
    radix_variant_spec, RadixVariant, SortItemKind, EIGHT_BIT_BLOCK_SIZE,
    EIGHT_BIT_WORKGROUP_STORAGE_BYTES,
};

verus! {

pub const U32_SIZE_BYTES: u64 = 4;
pub const KEY_VALUE_SIZE_BYTES: u64 = 8;
/// Pairs one pack or unpack workgroup moves.
pub const BRIDGE_BLOCK_SIZE: u32 = 256;
pub const MAX_WORKGROUPS_X: u32 = 65_535;

/// The pack and unpack grid for `capacity > 0` pairs: one workgroup per
/// [`BRIDGE_BLOCK_SIZE`] pairs, spread over rows of at most
/// [`MAX_WORKGROUPS_X`] workgroups.
pub fn bridge_dispatch(capacity: u32) -> (r: (u32, u32))
    requires
        capacity > 0,
    ensures
        ({
            let groups = div_ceil(capacity as int, BRIDGE_BLOCK_SIZE as int);
            &&& r.0 == (if groups <= MAX_WORKGROUPS_X { groups } else { MAX_WORKGROUPS_X as int })
            &&& r.1 == div_ceil(groups, r.0 as int)
            &&& r.0 * r.1 >= groups
        }),
{
    let groups = div_ceil_u32(capacity, BRIDGE_BLOCK_SIZE);
    proof {
        crate::common::math::lemma_div_ceil(capacity as int, BRIDGE_BLOCK_SIZE as int);
    }
    let groups_x = if groups <= MAX_WORKGROUPS_X {
        groups
    } else {
        MAX_WORKGROUPS_X
    };
    proof {
        crate::common::math::lemma_div_ceil(groups as int, groups_x as int);
    }
    let groups_y = div_ceil_u32(groups, groups_x);
    assert(groups_x * groups_y >= groups) by (nonlinear_arith)
        requires
            groups_y * groups_x >= groups,
    ;
    (groups_x, groups_y)
}

/// The allocation size of the bridge's packed buffers for `requested` bytes:
/// never less than one pair.
pub fn bridge_workspace_capacity(requested: u64) -> (r: Result<u64, Error>)
    ensures
        r == workspace_capacity_spec(requested, KEY_VALUE_SIZE_BYTES),
        r matches Ok(c) ==> c >= requested && c >= (if requested < crate::common::workspace::WORKSPACE_GROWTH_BYTES {
            KEY_VALUE_SIZE_BYTES
        } else {
            0
        }),
{
    workspace_capacity(requested, KEY_VALUE_SIZE_BYTES)
}

/// Device features and limits that enable the accelerated separate-buffer sorter.
///
/// When `accelerated` is false the requirements add nothing.
#[derive(Clone, Copy, Debug, PartialEq, Eq, Structural)]
pub struct KeyValueSoaRequirements {
    pub additional_features: GpuFeatures,
    pub min_compute_invocations: u32,
    pub min_compute_workgroup_size_x: u32,
    pub min_compute_workgroup_storage_size: u32,
    /// Whether requesting these additions enables the native backend.
    pub accelerated: bool,
}

pub open spec fn max_u32(a: u32, b: u32) -> u32 {
    if a >= b {
        a
    } else {
        b
    }
}

/// The requirements that enable the native backend on an adapter: subgroups
/// and the 8-bit kernels' workgroup shape where that backend is selected,
/// nothing elsewhere.
pub open spec fn requirements_spec(capabilities: AdapterCapabilities) -> KeyValueSoaRequirements {
    let accelerated = radix_variant_spec(SortItemKind::KeyValue, capabilities)
        == RadixVariant::NvidiaVulkanSubgroup;
    KeyValueSoaRequirements {
        additional_features: GpuFeatures { subgroup: accelerated, timestamp_query: false },
        min_compute_invocations: if accelerated {
            EIGHT_BIT_BLOCK_SIZE
        } else {
            0
        },
        min_compute_workgroup_size_x: if accelerated {
            EIGHT_BIT_BLOCK_SIZE
        } else {
            0
        },
        min_compute_workgroup_storage_size: if accelerated {
            EIGHT_BIT_WORKGROUP_STORAGE_BYTES
        } else {
            0
        },
        accelerated,
    }
}

impl KeyValueSoaRequirements {
    /// The requirements that enable the native backend on an adapter.
    pub fn for_capabilities(capabilities: AdapterCapabilities) -> (r: KeyValueSoaRequirements)
        ensures
            r == requirements_spec(capabilities),
            r.accelerated == (radix_variant_spec(SortItemKind::KeyValue, capabilities)
                == RadixVariant::NvidiaVulkanSubgroup),
            r.additional_features == (GpuFeatures {
                subgroup: r.accelerated,
                timestamp_query: false,
            }),
            r.min_compute_invocations == (if r.accelerated { EIGHT_BIT_BLOCK_SIZE } else { 0 }),
            r.min_compute_workgroup_size_x == (if r.accelerated {
                EIGHT_BIT_BLOCK_SIZE
            } else {
                0
            }),
            r.min_compute_workgroup_storage_size == (if r.accelerated {
                EIGHT_BIT_WORKGROUP_STORAGE_BYTES
            } else {
                0
            }),
    {
        let accelerated = RadixVariant::for_capabilities(SortItemKind::KeyValue, capabilities)
            .uses_eight_bit_pipeline();
        KeyValueSoaRequirements {
            additional_features: GpuFeatures { subgroup: accelerated, timestamp_query: false },
            min_compute_invocations: if accelerated {
                EIGHT_BIT_BLOCK_SIZE
            } else {
                0
            },
            min_compute_workgroup_size_x: if accelerated {
                EIGHT_BIT_BLOCK_SIZE
            } else {
                0
            },
            min_compute_workgroup_storage_size: if accelerated {
                EIGHT_BIT_WORKGROUP_STORAGE_BYTES
            } else {
                0
            },
            accelerated,
        }
    }

    /// Adds the optional features the native backend needs.
    pub fn features(&self, existing: GpuFeatures) -> (r: GpuFeatures)
        ensures
            r.subgroup == (existing.subgroup || self.additional_features.subgroup),
            r.timestamp_query == (existing.timestamp_query
                || self.additional_features.timestamp_query),
    {
        existing.union(self.additional_features)
    }

    /// Raises only the limits the native backend needs; every other limit,
    /// storage-buffer sizes included, is kept.
    pub fn limits(&self, existing: DeviceLimits) -> (r: DeviceLimits)
        ensures
            r == (DeviceLimits {
                max_compute_invocations_per_workgroup: max_u32(
                    existing.max_compute_invocations_per_workgroup,
                    self.min_compute_invocations,
                ),
                max_compute_workgroup_size_x: max_u32(
                    existing.max_compute_workgroup_size_x,
                    self.min_compute_workgroup_size_x,
                ),
                max_compute_workgroup_storage_size: max_u32(
                    existing.max_compute_workgroup_storage_size,
                    self.min_compute_workgroup_storage_size,
                ),
                ..existing
            }),
    {
        let mut r = existing;
        if self.min_compute_invocations > r.max_compute_invocations_per_workgroup {
            r.max_compute_invocations_per_workgroup = self.min_compute_invocations;
        }
        if self.min_compute_workgroup_size_x > r.max_compute_workgroup_size_x {
            r.max_compute_workgroup_size_x = self.min_compute_workgroup_size_x;
        }
        if self.min_compute_workgroup_storage_size > r.max_compute_workgroup_storage_size {
            r.max_compute_workgroup_storage_size = self.min_compute_workgroup_storage_size;
        }
        r
    }
}

/// Requirement-merging law: merging never removes a requested feature and
/// never lowers a limit; the three compute limits reach at least the
/// requirement and every other limit is unchanged.
pub proof fn lemma_requirements_raise_only(req: KeyValueSoaRequirements, existing: DeviceLimits, merged: DeviceLimits)
    requires
        merged == (DeviceLimits {
            max_compute_invocations_per_workgroup: max_u32(
                existing.max_compute_invocations_per_workgroup,
                req.min_compute_invocations,
            ),
            max_compute_workgroup_size_x: max_u32(
                existing.max_compute_workgroup_size_x,
                req.min_compute_workgroup_size_x,
            ),
            max_compute_workgroup_storage_size: max_u32(
                existing.max_compute_workgroup_storage_size,
                req.min_compute_workgroup_storage_size,
            ),
            ..existing
        }),
    ensures
        merged.max_compute_invocations_per_workgroup >= existing.max_compute_invocations_per_workgroup,
        merged.max_compute_invocations_per_workgroup >= req.min_compute_invocations,
        merged.max_compute_workgroup_size_x >= existing.max_compute_workgroup_size_x,
        merged.max_compute_workgroup_size_x >= req.min_compute_workgroup_size_x,
        merged.max_compute_workgroup_storage_size >= existing.max_compute_workgroup_storage_size,
        merged.max_compute_workgroup_storage_size >= req.min_compute_workgroup_storage_size,
        merged.max_buffer_size == existing.max_buffer_size,
        merged.max_storage_buffer_binding_size == existing.max_storage_buffer_binding_size,
        merged.min_storage_buffer_offset_alignment == existing.min_storage_buffer_offset_alignment,
        merged.min_uniform_buffer_offset_alignment == existing.min_uniform_buffer_offset_alignment,
        merged.max_compute_workgroups_per_dimension == existing.max_compute_workgroups_per_dimension,
{
}

/// The validation error, if any, of a bridged separate-buffer sort.
pub open spec fn portable_input_error(
    keys: GpuBuffer,
    values: GpuBuffer,
    count: GpuBuffer,
    count_word: u32,
    capacity: u32,
    limits: DeviceLimits,
) -> Option<Error> {
    let count_size = ((count_word + 1) * 4) as u64;
    let items = (capacity * 4) as u64;
    let packed = (capacity * 8) as u64;
    let k = BufferRange::whole_spec(keys);
    let v = BufferRange::whole_spec(values);
    let c = BufferRange::whole_spec(count);
    let align = limits.min_storage_buffer_offset_alignment as u64;
    if keys.id == values.id {
        Some(Error::BufferAlias { first: "sort keys", second: "sort values" })
    } else if keys.id == count.id {
        Some(Error::BufferAlias { first: "sort keys", second: "sort item count" })
    } else if values.id == count.id {
        Some(Error::BufferAlias { first: "sort values", second: "sort item count" })
    } else if validate_spec(k, "sort keys", items, USAGE_STORAGE) is Err {
        Some(validate_spec(k, "sort keys", items, USAGE_STORAGE)->Err_0)
    } else if validate_spec(v, "sort values", items, USAGE_STORAGE) is Err {
        Some(validate_spec(v, "sort values", items, USAGE_STORAGE)->Err_0)
    } else if validate_spec(c, "sort item count", count_size, USAGE_STORAGE) is Err {
        Some(validate_spec(c, "sort item count", count_size, USAGE_STORAGE)->Err_0)
    } else if offset_spec(k, align, "sort keys") is Err {
        Some(offset_spec(k, align, "sort keys")->Err_0)
    } else if limits_binding_spec(limits, items) is Err {
        Some(limits_binding_spec(limits, items)->Err_0)
    } else if offset_spec(v, align, "sort values") is Err {
        Some(offset_spec(v, align, "sort values")->Err_0)
    } else if offset_spec(c, align, "sort item count") is Err {
        Some(offset_spec(c, align, "sort item count")->Err_0)
    } else if limits_binding_spec(limits, count_size) is Err {
        Some(limits_binding_spec(limits, count_size)->Err_0)
    } else if limits_binding_spec(limits, packed) is Err {
        Some(limits_binding_spec(limits, packed)->Err_0)
    } else {
        None
    }
}

/// Checks a bridged separate-buffer sort; `Some` carries the count binding
/// size when there is something to sort.
pub fn validate_portable_inputs(
    keys: GpuBuffer,
    values: GpuBuffer,
    count: GpuBuffer,
    count_word: u32,
    capacity: u32,
    limits: &DeviceLimits,
) -> (r: Result<Option<u64>, Error>)
    ensures
        match portable_input_error(keys, values, count, count_word, capacity, *limits) {
            Some(e) => r == Err::<Option<u64>, Error>(e),
            None => r == Ok::<Option<u64>, Error>(
                if capacity == 0 {
                    None
                } else {
                    Some(((count_word + 1) * 4) as u64)
                },
            ),
        },
{
    if keys.id == values.id {
        return Err(Error::BufferAlias { first: "sort keys", second: "sort values" });
    }
    if keys.id == count.id {
        return Err(Error::BufferAlias { first: "sort keys", second: "sort item count" });
    }
    if values.id == count.id {
        return Err(Error::BufferAlias { first: "sort values", second: "sort item count" });
    }
    let count_size = count_bytes(count_word);
    let items = capacity as u64 * U32_SIZE_BYTES;
    let packed = capacity as u64 * KEY_VALUE_SIZE_BYTES;
    let k = BufferRange::whole(keys);
    let v = BufferRange::whole(values);
    let c = BufferRange::whole(count);
    if let Err(e) = k.validate("sort keys", items, USAGE_STORAGE) {
        return Err(e);
    }
    if let Err(e) = v.validate("sort values", items, USAGE_STORAGE) {
        return Err(e);
    }
    if let Err(e) = c.validate("sort item count", count_size, USAGE_STORAGE) {
        return Err(e);
    }
    if let Err(e) = k.validate_storage_offset(limits, "sort keys") {
        return Err(e);
    }
    if let Err(e) = validate_storage_binding_size(limits, items) {
        return Err(e);
    }
    if let Err(e) = v.validate_storage_offset(limits, "sort values") {
        return Err(e);
    }
    if let Err(e) = validate_storage_binding_size(limits, items) {
        return Err(e);
    }
    if let Err(e) = c.validate_storage_offset(limits, "sort item count") {
        return Err(e);
    }
    if let Err(e) = validate_storage_binding_size(limits, count_size) {
        return Err(e);
    }
    if let Err(e) = validate_storage_binding_size(limits, packed) {
        return Err(e);
    }
    if capacity == 0 {
        Ok(None)
    } else {
        Ok(Some(count_size))
    }
}

/// The bridge configuration words `[capacity, count_word, 0, 0]`.
pub fn bridge_config(capacity: u32, count_word: u32) -> (r: Vec<u32>)
    ensures
        r@ == seq![capacity, count_word, 0u32, 0u32],
{
    let r = vec![capacity, count_word, 0, 0];
    assert(r@ =~= seq![capacity, count_word, 0u32, 0u32]);
    r
}

/// The inputs the bridge's cached bind groups were built for.
#[derive(Clone, Copy, Debug, PartialEq, Eq, Structural)]
pub struct BridgeBindingKey {
    pub keys: u64,
    pub values: u64,
    pub count: u64,
    pub count_word: u32,
    pub capacity: u32,
    pub workspace_capacity: u64,
}

/// State of the portable bridge: it packs the separate buffers into
/// key-value records, sorts those with the general key-value sorter and
/// unpacks them back.
pub struct PortableKeyValueSoaSorter {
    pub limits: DeviceLimits,
    /// Bytes of each packed buffer, once allocated.
    pub workspace_capacity: Option<u64>,
    pub bindings: Option<BridgeBindingKey>,
}

impl PortableKeyValueSoaSorter {
    pub open spec fn fits(&self, requested: u64) -> bool {
        self.workspace_capacity is Some && self.workspace_capacity->Some_0 >= requested
    }

    pub open spec fn key_spec(
        &self,
        keys: GpuBuffer,
        values: GpuBuffer,
        count: GpuBuffer,
        count_word: u32,
        capacity: u32,
    ) -> BridgeBindingKey {
        BridgeBindingKey {
            keys: keys.id,
            values: values.id,
            count: count.id,
            count_word,
            capacity,
            workspace_capacity: match self.workspace_capacity {
                Some(c) => c,
                None => 0,
            },
        }
    }

    /// A bridge with nothing allocated.
    pub fn new(limits: DeviceLimits) -> (r: PortableKeyValueSoaSorter)
        ensures
            r.limits == limits,
            r.workspace_capacity is None,
            r.bindings is None,
    {
        PortableKeyValueSoaSorter { limits, workspace_capacity: None, bindings: None }
    }

    /// Grows the packed buffers to hold `requested_bytes`; new buffers drop
    /// the cached bind groups.
    pub fn ensure_workspace(&mut self, requested_bytes: u64) -> (r: Result<(), Error>)
        ensures
            final(self).limits == old(self).limits,
            r is Ok ==> final(self).fits(requested_bytes),
            old(self).fits(requested_bytes) ==> r is Ok && *final(self) == *old(self),
            !old(self).fits(requested_bytes) ==> match workspace_capacity_spec(requested_bytes, 8) {
                Err(e) => r == Err::<(), Error>(e) && *final(self) == *old(self),
                Ok(c) => match limits_binding_spec(old(self).limits, c) {
                    Err(e) => r == Err::<(), Error>(e) && *final(self) == *old(self),
                    Ok(_) => r is Ok && final(self).workspace_capacity == Some(c)
                        && final(self).bindings is None,
                },
            },
    {
        if let Some(c) = self.workspace_capacity {
            if c >= requested_bytes {
                return Ok(());
            }
        }
        let capacity = match bridge_workspace_capacity(requested_bytes) {
            Ok(c) => c,
            Err(e) => return Err(e),
        };
        if let Err(e) = validate_storage_binding_size(&self.limits, capacity) {
            return Err(e);
        }
        self.workspace_capacity = Some(capacity);
        self.bindings = None;
        Ok(())
    }

    /// The error, if any, of growing the packed buffers for `capacity` pairs.
    pub open spec fn reserve_error(&self, capacity: u32) -> Option<Error> {
        let bytes = (capacity * KEY_VALUE_SIZE_BYTES) as u64;
        if capacity == 0 || self.fits(bytes) {
            None
        } else {
            match workspace_capacity_spec(bytes, KEY_VALUE_SIZE_BYTES) {
                Err(e) => Some(e),
                Ok(c) => match limits_binding_spec(self.limits, c) {
                    Err(e) => Some(e),
                    Ok(_) => None,
                },
            }
        }
    }

    /// Prepares packed buffers for sorts of up to `capacity` pairs.
    pub fn reserve(&mut self, capacity: u32) -> (r: Result<(), Error>)
        ensures
            final(self).limits == old(self).limits,
            capacity == 0 ==> r is Ok && *final(self) == *old(self),
            capacity > 0 && r is Ok ==> final(self).fits((capacity * 8) as u64),
            match old(self).reserve_error(capacity) {
                Some(e) => r == Err::<(), Error>(e) && *final(self) == *old(self),
                None => r is Ok,
            },
            old(self).fits((capacity * 8) as u64) ==> *final(self) == *old(self),
    {
        if capacity == 0 {
            return Ok(());
        }
        self.ensure_workspace(capacity as u64 * KEY_VALUE_SIZE_BYTES)
    }

    /// Whether the cached bind groups were built for these inputs.
    pub fn bindings_match(
        &self,
        keys: GpuBuffer,
        values: GpuBuffer,
        count: GpuBuffer,
        count_word: u32,
        capacity: u32,
    ) -> (r: bool)
        ensures
            r == (self.bindings == Some(self.key_spec(keys, values, count, count_word, capacity))),
    {
        let workspace_capacity = match self.workspace_capacity {
            Some(c) => c,
            None => 0,
        };
        match &self.bindings {
            Some(b) => b.keys == keys.id && b.values == values.id && b.count == count.id
                && b.count_word == count_word && b.capacity == capacity && b.workspace_capacity
                == workspace_capacity,
            None => false,
        }
    }

    /// Validates a counted sort, prepares its packed buffers and bind groups.
    pub fn prepare_counted_from_word(
        &mut self,
        keys: GpuBuffer,
        values: GpuBuffer,
        count: GpuBuffer,
        count_word: u32,
        capacity: u32,
    ) -> (r: Result<(), Error>)
        ensures
            final(self).limits == old(self).limits,
            (portable_input_error(keys, values, count, count_word, capacity, old(self).limits) matches Some(e)
                ==> r == Err::<(), Error>(e) && *final(self) == *old(self)),
            portable_input_error(keys, values, count, count_word, capacity, old(self).limits) is None
                && capacity == 0 ==> r is Ok && final(self).bindings is None,
            r is Ok && capacity > 0 ==> final(self).fits((capacity * 8) as u64) && final(self).bindings
                == Some(final(self).key_spec(keys, values, count, count_word, capacity)),
            portable_input_error(keys, values, count, count_word, capacity, old(self).limits) is None
                ==> (old(self).reserve_error(capacity) matches Some(e) ==> r == Err::<(), Error>(e)),
            portable_input_error(keys, values, count, count_word, capacity, old(self).limits) is None
                && old(self).reserve_error(capacity) is None ==> r is Ok,
    {
        match validate_portable_inputs(keys, values, count, count_word, capacity, &self.limits) {
            Err(e) => return Err(e),
            Ok(None) => {
                self.bindings = None;
                return Ok(());
            },
            Ok(Some(_)) => {},
        }
        if let Err(e) = self.reserve(capacity) {
            return Err(e);
        }
        if self.bindings_match(keys, values, count, count_word, capacity) {
            return Ok(());
        }
        let workspace_capacity = match self.workspace_capacity {
            Some(c) => c,
            None => 0,
        };
        self.bindings = Some(
            BridgeBindingKey {
                keys: keys.id,
                values: values.id,
                count: count.id,
                count_word,
                capacity,
                workspace_capacity,
            },
        );
        Ok(())
    }

    /// Checks that a prepared sort can be recorded; `Some` carries the pack
    /// and unpack grid, `None` means there is nothing to record.
    pub fn record_reserved_sort_counted_from_word(
        &self,
        keys: GpuBuffer,
        values: GpuBuffer,
        count: GpuBuffer,
        count_word: u32,
        capacity: u32,
    ) -> (r: Result<Option<(u32, u32)>, Error>)
        ensures
            match portable_input_error(keys, values, count, count_word, capacity, self.limits) {
                Some(e) => r == Err::<Option<(u32, u32)>, Error>(e),
                None => if capacity == 0 {
                    r == Ok::<Option<(u32, u32)>, Error>(None)
                } else if self.bindings != Some(
                    self.key_spec(keys, values, count, count_word, capacity),
                ) {
                    r == Err::<Option<(u32, u32)>, Error>(
                        Error::BufferTooSmall { name: "SoA sort binding plan", required: 1, actual: 0 },
                    )
                } else {
                    (r matches Ok(Some(g)) && g.0 * g.1 >= div_ceil(
                        capacity as int,
                        BRIDGE_BLOCK_SIZE as int,
                    ))
                }
            },
    {
        match validate_portable_inputs(keys, values, count, count_word, capacity, &self.limits) {
            Err(e) => return Err(e),
            Ok(None) => return Ok(None),
            Ok(Some(_)) => {},
        }
        if !self.bindings_match(keys, values, count, count_word, capacity) {
            return Err(
                Error::BufferTooSmall { name: "SoA sort binding plan", required: 1, actual: 0 },
            );
        }
        Ok(Some(bridge_dispatch(capacity)))
    }
}


/// The sorting backend of a separate-buffer sorter.
pub enum SoaBackend {
    /// The 8-bit subgroup kernels sort the separate buffers in place.
    Native(NativeKeyValueSoaSorter),
    /// The portable bridge packs, sorts and unpacks key-value records.
    Portable(PortableKeyValueSoaSorter),
}

/// A prepared fixed-count sort: the key and value buffers it was prepared
/// for, the buffer whose first word holds its item count, and that count.
#[derive(Clone, Copy, Debug, PartialEq, Eq, Structural)]
pub struct FixedSoaPlan {
    pub keys: u64,
    pub values: u64,
    pub count: GpuBuffer,
    pub num_items: u32,
}

/// What recording a prepared separate-buffer sort runs.
#[derive(Clone, Copy, Debug, PartialEq, Eq, Structural)]
pub enum SoaRecording {
    /// Nothing: the capacity is zero.
    Nothing,
    /// The native passes.
    Native,
    /// The bridge, with its pack and unpack grid.
    Portable { groups_x: u32, groups_y: u32 },
}

/// A stable in-place sort of separate `u32` key and value buffers, by the
/// native kernels where the device supports them and through the portable
/// bridge elsewhere, with a reusable fixed-count plan.
pub struct KeyValueSoaSorter {
    pub backend: SoaBackend,
    pub fixed: Option<FixedSoaPlan>,
}

impl KeyValueSoaSorter {
    pub open spec fn accelerated_spec(&self) -> bool {
        self.backend is Native
    }

    pub open spec fn limits_spec(&self) -> DeviceLimits {
        match self.backend {
            SoaBackend::Native(n) => n.limits,
            SoaBackend::Portable(p) => p.limits,
        }
    }

    /// The backend's validation error, if any, for these inputs.
    pub open spec fn input_error(
        &self,
        keys: GpuBuffer,
        values: GpuBuffer,
        count: GpuBuffer,
        count_word: u32,
        capacity: u32,
    ) -> Option<Error> {
        match self.backend {
            SoaBackend::Native(n) => soa_input_error(keys, values, count, count_word, capacity, n.limits),
            SoaBackend::Portable(p) => portable_input_error(keys, values, count, count_word, capacity, p.limits),
        }
    }

    /// The error, if any, of growing the backend's storage for `capacity` pairs.
    pub open spec fn reserve_error(&self, capacity: u32) -> Option<Error> {
        match self.backend {
            SoaBackend::Native(n) => if capacity == 0 || n.fits((capacity * 4) as u64) {
                None
            } else {
                match allocate_spec((capacity * 4) as u64, 4, n.limits) {
                    Err(e) => Some(e),
                    Ok(_) => None,
                }
            },
            SoaBackend::Portable(p) => p.reserve_error(capacity),
        }
    }

    /// The backend holds storage and bind groups for these inputs.
    pub open spec fn prepared_for(
        &self,
        keys: GpuBuffer,
        values: GpuBuffer,
        count: GpuBuffer,
        count_word: u32,
        capacity: u32,
    ) -> bool {
        match self.backend {
            SoaBackend::Native(n) => n.fits((capacity * 4) as u64) && n.bindings == Some(
                n.key_spec(keys, values, count, count_word, capacity),
            ),
            SoaBackend::Portable(p) => p.fits((capacity * 8) as u64) && p.bindings == Some(
                p.key_spec(keys, values, count, count_word, capacity),
            ),
        }
    }

    /// Preparing these inputs succeeds.
    pub open spec fn preparable(
        &self,
        keys: GpuBuffer,
        values: GpuBuffer,
        count: GpuBuffer,
        count_word: u32,
        capacity: u32,
    ) -> bool {
        &&& self.input_error(keys, values, count, count_word, capacity) is None
        &&& self.reserve_error(capacity) is None
        &&& (self.accelerated_spec() ==> capacity <= element_count_limit_spec(
            self.limits_spec().max_compute_workgroups_per_dimension,
        ))
    }

    /// Recording a prepared sort of these inputs succeeds.
    pub open spec fn recordable(
        &self,
        keys: GpuBuffer,
        values: GpuBuffer,
        count: GpuBuffer,
        count_word: u32,
        capacity: u32,
    ) -> bool {
        &&& self.input_error(keys, values, count, count_word, capacity) is None
        &&& (capacity == 0 || (self.prepared_for(keys, values, count, count_word, capacity) && (
        self.accelerated_spec() ==> capacity <= element_count_limit_spec(
            self.limits_spec().max_compute_workgroups_per_dimension,
        ))))
    }

    pub open spec fn fixed_matches_spec(&self, keys: GpuBuffer, values: GpuBuffer, num_items: u32) -> bool {
        self.fixed matches Some(p) && p.keys == keys.id && p.values == values.id && p.num_items
            == num_items
    }

    /// The count buffer a fixed-count sort of `num_items` uses: the prepared
    /// plan's when it counts as many items, else `fresh_count`.
    pub open spec fn fixed_count_spec(&self, num_items: u32, fresh_count: GpuBuffer) -> GpuBuffer {
        match self.fixed {
            Some(p) => if p.num_items == num_items {
                p.count
            } else {
                fresh_count
            },
            None => fresh_count,
        }
    }

    /// The device additions that enable the native backend on an adapter.
    pub fn requirements(capabilities: AdapterCapabilities) -> (r: KeyValueSoaRequirements)
        ensures
            r == requirements_spec(capabilities),
    {
        KeyValueSoaRequirements::for_capabilities(capabilities)
    }

    /// A sorter on the native backend where the adapter supports it and on
    /// the portable bridge elsewhere.
    pub fn new(capabilities: AdapterCapabilities, limits: DeviceLimits) -> (r: KeyValueSoaSorter)
        ensures
            r.accelerated_spec() == (radix_variant_spec(SortItemKind::KeyValue, capabilities)
                == RadixVariant::NvidiaVulkanSubgroup),
            r.limits_spec() == limits,
            r.fixed is None,
    {
        match KeyValueSoaSorter::new_native_for_adapter(capabilities, limits) {
            Some(sorter) => sorter,
            None => KeyValueSoaSorter::new_portable(limits),
        }
    }

    /// A sorter that always uses the portable bridge.
    pub fn new_portable(limits: DeviceLimits) -> (r: KeyValueSoaSorter)
        ensures
            !r.accelerated_spec(),
            r.limits_spec() == limits,
            r.fixed is None,
    {
        KeyValueSoaSorter {
            backend: SoaBackend::Portable(PortableKeyValueSoaSorter::new(limits)),
            fixed: None,
        }
    }

    /// The native backend alone, or `None` where the adapter lacks it.
    pub fn new_native_for_adapter(capabilities: AdapterCapabilities, limits: DeviceLimits) -> (r:
        Option<KeyValueSoaSorter>)
        ensures
            r is Some <==> radix_variant_spec(SortItemKind::KeyValue, capabilities)
                == RadixVariant::NvidiaVulkanSubgroup,
            r matches Some(s) ==> s.accelerated_spec() && s.limits_spec() == limits && s.fixed is None,
    {
        if RadixVariant::for_capabilities(SortItemKind::KeyValue, capabilities).uses_eight_bit_pipeline() {
            Some(
                KeyValueSoaSorter {
                    backend: SoaBackend::Native(NativeKeyValueSoaSorter::new(limits)),
                    fixed: None,
                },
            )
        } else {
            None
        }
    }

    /// The same as [`Self::new_native_for_adapter`].
    pub fn new_for_adapter(capabilities: AdapterCapabilities, limits: DeviceLimits) -> (r: Option<
        KeyValueSoaSorter,
    >)
        ensures
            r is Some <==> radix_variant_spec(SortItemKind::KeyValue, capabilities)
                == RadixVariant::NvidiaVulkanSubgroup,
            r matches Some(s) ==> s.accelerated_spec() && s.limits_spec() == limits && s.fixed is None,
    {
        KeyValueSoaSorter::new_native_for_adapter(capabilities, limits)
    }

    /// Whether the native backend sorts.
    pub fn is_accelerated(&self) -> (r: bool)
        ensures
            r == self.accelerated_spec(),
    {
        match &self.backend {
            SoaBackend::Native(_) => true,
            SoaBackend::Portable(_) => false,
        }
    }

    /// Grows the backend's storage for sorts of up to `capacity` pairs and
    /// drops the fixed-count plan.
    pub fn reserve(&mut self, capacity: u32) -> (r: Result<(), Error>)
        ensures
            final(self).fixed is None,
            final(self).accelerated_spec() == old(self).accelerated_spec(),
            final(self).limits_spec() == old(self).limits_spec(),
            match old(self).reserve_error(capacity) {
                Some(e) => r == Err::<(), Error>(e),
                None => r is Ok,
            },
    {
        self.fixed = None;
        match &mut self.backend {
            SoaBackend::Native(sorter) => sorter.reserve(capacity),
            SoaBackend::Portable(sorter) => sorter.reserve(capacity),
        }
    }

    /// Prepares storage and bind groups for a sort whose count is word
    /// `count_word` of `count`, and drops the fixed-count plan.
    pub fn prepare_counted_from_word(
        &mut self,
        keys: GpuBuffer,
        values: GpuBuffer,
        count: GpuBuffer,
        count_word: u32,
        capacity: u32,
    ) -> (r: Result<(), Error>)
        ensures
            final(self).fixed is None,
            final(self).accelerated_spec() == old(self).accelerated_spec(),
            final(self).limits_spec() == old(self).limits_spec(),
            old(self).preparable(keys, values, count, count_word, capacity) ==> r is Ok,
            r is Ok && capacity > 0 ==> final(self).prepared_for(keys, values, count, count_word, capacity),
            !old(self).accelerated_spec() ==> (old(self).input_error(keys, values, count, count_word, capacity)
                matches Some(e) ==> r == Err::<(), Error>(e)),
    {
        self.fixed = None;
        match &mut self.backend {
            SoaBackend::Native(sorter) => sorter.prepare_counted_from_word(keys, values, count, count_word, capacity),
            SoaBackend::Portable(sorter) => sorter.prepare_counted_from_word(keys, values, count, count_word, capacity),
        }
    }

    /// Checks a sort prepared by [`Self::prepare_counted_from_word`] and
    /// says what recording it runs.
    pub fn record_reserved_sort_counted_from_word(
        &self,
        keys: GpuBuffer,
        values: GpuBuffer,
        count: GpuBuffer,
        count_word: u32,
        capacity: u32,
    ) -> (r: Result<SoaRecording, Error>)
        ensures
            self.input_error(keys, values, count, count_word, capacity) matches Some(e) ==> r
                == Err::<SoaRecording, Error>(e),
            self.recordable(keys, values, count, count_word, capacity) ==> r is Ok,
            r matches Ok(rec) ==> (rec == SoaRecording::Nothing <==> capacity == 0),
            (r matches Ok(SoaRecording::Native)) ==> self.accelerated_spec() && self.prepared_for(
                keys,
                values,
                count,
                count_word,
                capacity,
            ),
            r matches Ok(SoaRecording::Portable { groups_x, groups_y }) ==> !self.accelerated_spec()
                && groups_x * groups_y
                >= div_ceil(capacity as int, BRIDGE_BLOCK_SIZE as int),
    {
        match &self.backend {
            SoaBackend::Native(sorter) => match sorter.record_reserved_sort_counted_from_word(
                keys,
                values,
                count,
                count_word,
                capacity,
            ) {
                Ok(true) => Ok(SoaRecording::Native),
                Ok(false) => Ok(SoaRecording::Nothing),
                Err(e) => Err(e),
            },
            SoaBackend::Portable(sorter) => match sorter.record_reserved_sort_counted_from_word(
                keys,
                values,
                count,
                count_word,
                capacity,
            ) {
                Ok(Some(groups)) => Ok(SoaRecording::Portable { groups_x: groups.0, groups_y: groups.1 }),
                Ok(None) => Ok(SoaRecording::Nothing),
                Err(e) => Err(e),
            },
        }
    }

    /// Prepares and checks a sort whose count is word `count_word` of
    /// `count`, clamped to `capacity`; drops the fixed-count plan.
    pub fn record_sort_counted_from_word(
        &mut self,
        keys: GpuBuffer,
        values: GpuBuffer,
        count: GpuBuffer,
        count_word: u32,
        capacity: u32,
    ) -> (r: Result<SoaRecording, Error>)
        ensures
            final(self).fixed is None,
            final(self).accelerated_spec() == old(self).accelerated_spec(),
            final(self).limits_spec() == old(self).limits_spec(),
            r matches Ok(rec) ==> (rec == SoaRecording::Nothing ==> capacity == 0),
            (r matches Ok(rec) && rec != SoaRecording::Nothing) ==> capacity > 0
                && final(self).prepared_for(keys, values, count, count_word, capacity),
            old(self).preparable(keys, values, count, count_word, capacity) && count.size >= (count_word
                + 1) * 4 ==> r is Ok,
            old(self).input_error(keys, values, count, count_word, capacity) is Some ==> r is Err,
    {
        self.fixed = None;
        match &mut self.backend {
            SoaBackend::Native(sorter) => match sorter.record_sort_counted_from_word(
                keys,
                values,
                count,
                count_word,
                capacity,
            ) {
                Ok(true) => Ok(SoaRecording::Native),
                Ok(false) => Ok(SoaRecording::Nothing),
                Err(e) => Err(e),
            },
            SoaBackend::Portable(sorter) => {
                if let Err(e) = sorter.prepare_counted_from_word(keys, values, count, count_word, capacity) {
                    return Err(e);
                }
                match sorter.record_reserved_sort_counted_from_word(
                    keys,
                    values,
                    count,
                    count_word,
                    capacity,
                ) {
                    Ok(Some(groups)) => Ok(SoaRecording::Portable { groups_x: groups.0, groups_y: groups.1 }),
                    Ok(None) => Ok(SoaRecording::Nothing),
                    Err(e) => Err(e),
                }
            },
        }
    }

    /// The same as [`Self::record_sort_counted_from_word`] with count word zero.
    pub fn record_sort_counted(
        &mut self,
        keys: GpuBuffer,
        values: GpuBuffer,
        count: GpuBuffer,
        capacity: u32,
    ) -> (r: Result<SoaRecording, Error>)
        ensures
            final(self).fixed is None,
            final(self).accelerated_spec() == old(self).accelerated_spec(),
            final(self).limits_spec() == old(self).limits_spec(),
            r matches Ok(rec) ==> (rec == SoaRecording::Nothing ==> capacity == 0),
            (r matches Ok(rec) && rec != SoaRecording::Nothing) ==> capacity > 0
                && final(self).prepared_for(keys, values, count, 0, capacity),
            old(self).preparable(keys, values, count, 0, capacity) && count.size >= 4 ==> r is Ok,
            old(self).input_error(keys, values, count, 0, capacity) is Some ==> r is Err,
    {
        self.record_sort_counted_from_word(keys, values, count, 0, capacity)
    }

    fn fixed_matches(&self, keys: GpuBuffer, values: GpuBuffer, num_items: u32) -> (r: bool)
        ensures
            r == self.fixed_matches_spec(keys, values, num_items),
    {
        match &self.fixed {
            Some(plan) => plan.keys == keys.id && plan.values == values.id && plan.num_items == num_items,
            None => false,
        }
    }

    /// Prepares a reusable fixed-count plan for `num_items` pairs.
    ///
    /// Its count buffer is the current plan's when that counts as many
    /// items, else `fresh_count`: a new `STORAGE` buffer whose first word
    /// holds `num_items`.
    pub fn prepare_sort(&mut self, keys: GpuBuffer, values: GpuBuffer, num_items: u32, fresh_count: GpuBuffer) -> (r:
        Result<(), Error>)
        ensures
            final(self).accelerated_spec() == old(self).accelerated_spec(),
            final(self).limits_spec() == old(self).limits_spec(),
            ({
                let count = old(self).fixed_count_spec(num_items, fresh_count);
                &&& old(self).preparable(keys, values, count, 0, num_items) ==> r is Ok
                &&& r is Ok ==> final(self).fixed == Some(
                    FixedSoaPlan { keys: keys.id, values: values.id, count, num_items },
                ) && (num_items > 0 ==> final(self).prepared_for(keys, values, count, 0, num_items))
                &&& r is Err ==> final(self).fixed is None
            }),
    {
        let count = match &self.fixed {
            Some(plan) => if plan.num_items == num_items {
                plan.count
            } else {
                fresh_count
            },
            None => fresh_count,
        };
        if let Err(e) = self.prepare_counted_from_word(keys, values, count, 0, num_items) {
            return Err(e);
        }
        self.fixed = Some(FixedSoaPlan { keys: keys.id, values: values.id, count, num_items });
        Ok(())
    }

    /// Checks a prepared fixed-count sort of exactly these buffers and
    /// `num_items`, and says what recording it runs.
    pub fn record_reserved_sort(&self, keys: GpuBuffer, values: GpuBuffer, num_items: u32) -> (r: Result<
        SoaRecording,
        Error,
    >)
        ensures
            !self.fixed_matches_spec(keys, values, num_items) ==> r == Err::<SoaRecording, Error>(
                Error::BufferTooSmall { name: "SoA fixed sort plan", required: 1, actual: 0 },
            ),
            self.fixed_matches_spec(keys, values, num_items) ==> {
                let count = self.fixed->Some_0.count;
                &&& self.input_error(keys, values, count, 0, num_items) matches Some(e) ==> r == Err::<
                    SoaRecording,
                    Error,
                >(e)
                &&& self.recordable(keys, values, count, 0, num_items) ==> r is Ok
                &&& r matches Ok(rec) ==> (rec == SoaRecording::Nothing <==> num_items == 0)
            },
    {
        let count = match &self.fixed {
            Some(plan) => {
                if !(plan.keys == keys.id && plan.values == values.id && plan.num_items == num_items) {
                    return Err(Error::BufferTooSmall { name: "SoA fixed sort plan", required: 1, actual: 0 });
                }
                plan.count
            },
            None => {
                return Err(Error::BufferTooSmall { name: "SoA fixed sort plan", required: 1, actual: 0 });
            },
        };
        self.record_reserved_sort_counted_from_word(keys, values, count, 0, num_items)
    }

    /// Records a fixed-count sort, preparing its plan first unless the
    /// current plan is for exactly these buffers and `num_items`.
    pub fn record_sort(&mut self, keys: GpuBuffer, values: GpuBuffer, num_items: u32, fresh_count: GpuBuffer) -> (r:
        Result<SoaRecording, Error>)
        ensures
            final(self).accelerated_spec() == old(self).accelerated_spec(),
            final(self).limits_spec() == old(self).limits_spec(),
            old(self).fixed_matches_spec(keys, values, num_items) ==> *final(self) == *old(self),
            !old(self).fixed_matches_spec(keys, values, num_items) && r is Ok ==> final(self).fixed
                == Some(
                FixedSoaPlan {
                    keys: keys.id,
                    values: values.id,
                    count: old(self).fixed_count_spec(num_items, fresh_count),
                    num_items,
                },
            ),
            r matches Ok(rec) ==> (rec == SoaRecording::Nothing <==> num_items == 0),
            old(self).fixed_matches_spec(keys, values, num_items) ==> {
                let count = old(self).fixed->Some_0.count;
                &&& old(self).input_error(keys, values, count, 0, num_items) matches Some(e) ==> r == Err::<
                    SoaRecording,
                    Error,
                >(e)
                &&& old(self).recordable(keys, values, count, 0, num_items) ==> r is Ok
            },
            !old(self).fixed_matches_spec(keys, values, num_items) ==> {
                let count = old(self).fixed_count_spec(num_items, fresh_count);
                &&& old(self).input_error(keys, values, count, 0, num_items) is Some ==> r is Err
                &&& old(self).preparable(keys, values, count, 0, num_items) ==> r is Ok
            },
    {
        if !self.fixed_matches(keys, values, num_items) {
            if let Err(e) = self.prepare_sort(keys, values, num_items, fresh_count) {
                return Err(e);
            }
        }
        self.record_reserved_sort(keys, values, num_items)
    }
}

} // verus!
