use vstd::prelude::*;

use crate::error::Error;

verus! {

/// Buffer usage flags, with the bit values of the WebGPU specification.
pub const USAGE_MAP_READ: u32 = 0x0001;
pub const USAGE_MAP_WRITE: u32 = 0x0002;
pub const USAGE_COPY_SRC: u32 = 0x0004;
pub const USAGE_COPY_DST: u32 = 0x0008;
pub const USAGE_INDEX: u32 = 0x0010;
pub const USAGE_VERTEX: u32 = 0x0020;
pub const USAGE_UNIFORM: u32 = 0x0040;
pub const USAGE_STORAGE: u32 = 0x0080;
pub const USAGE_INDIRECT: u32 = 0x0100;
pub const USAGE_QUERY_RESOLVE: u32 = 0x0200;

/// Every flag of `required` is present in `actual`.
pub open spec fn usage_contains(actual: u32, required: u32) -> bool {
    actual & required == required
}

/// A caller-owned GPU buffer: its handle identity, byte size and usages.
///
/// Two values with the same `id` describe the same underlying buffer.
#[derive(Clone, Copy, Debug, PartialEq, Eq, Structural)]
pub struct GpuBuffer {
    pub id: u64,
    pub size: u64,
    pub usage: u32,
}

/// The device limits that buffer planning depends on.
#[derive(Clone, Copy, Debug, PartialEq, Eq, Structural)]
pub struct DeviceLimits {
    pub max_buffer_size: u64,
    pub max_storage_buffer_binding_size: u64,
    pub min_storage_buffer_offset_alignment: u32,
    pub min_uniform_buffer_offset_alignment: u32,
    pub max_compute_workgroup_storage_size: u32,
    pub max_compute_workgroups_per_dimension: u32,
    pub max_compute_invocations_per_workgroup: u32,
    pub max_compute_workgroup_size_x: u32,
}

/// A byte range within one GPU buffer.
#[derive(Clone, Copy, Debug, PartialEq, Eq, Structural)]
pub struct BufferRange {
    pub buffer: GpuBuffer,
    pub offset: u64,
    pub size: u64,
}

/// `offset` is a multiple of `alignment` (a zero alignment admits only offset zero).
pub open spec fn is_multiple(offset: u64, alignment: u64) -> bool {
    if alignment == 0 {
        offset == 0
    } else {
        offset % alignment == 0
    }
}

/// The outcome of checking a range's size and usages.
pub open spec fn validate_spec(
    range: BufferRange,
    name: &'static str,
    required_bytes: u64,
    required_usage: u32,
) -> Result<(), Error> {
    if range.size < required_bytes {
        Err(Error::BufferTooSmall { name, required: required_bytes, actual: range.size })
    } else if !usage_contains(range.buffer.usage, required_usage) {
        Err(
            Error::MissingBufferUsage {
                name,
                required: required_usage,
                actual: range.buffer.usage,
            },
        )
    } else {
        Ok(())
    }
}

/// The outcome of checking a range's offset against the storage alignment.
pub open spec fn offset_spec(range: BufferRange, alignment: u64, name: &'static str) -> Result<
    (),
    Error,
> {
    if is_multiple(range.offset, alignment) {
        Ok(())
    } else {
        Err(Error::MisalignedBufferOffset { name, offset: range.offset, alignment })
    }
}

/// The outcome of checking a storage binding of `requested` bytes against the limits.
pub open spec fn binding_size_spec(requested: u64, max_buffer: u64, max_binding: u64) -> Result<
    (),
    Error,
> {
    let limit = if max_buffer <= max_binding {
        max_buffer
    } else {
        max_binding
    };
    if requested > limit {
        Err(Error::BufferLimitExceeded { requested, limit })
    } else {
        Ok(())
    }
}

pub open spec fn limits_binding_spec(limits: DeviceLimits, requested: u64) -> Result<(), Error> {
    binding_size_spec(requested, limits.max_buffer_size, limits.max_storage_buffer_binding_size)
}

impl BufferRange {
    /// The whole buffer.
    pub fn whole(buffer: GpuBuffer) -> (r: BufferRange)
        ensures
            r == (BufferRange { buffer, offset: 0, size: buffer.size }),
    {
        BufferRange { buffer, offset: 0, size: buffer.size }
    }

    /// A checked sub-range of `buffer`.
    pub fn new(buffer: GpuBuffer, offset: u64, size: u64, name: &'static str) -> (r: Result<
        BufferRange,
        Error,
    >)
        ensures
            match r {
                Ok(range) => offset + size <= buffer.size && range == (BufferRange {
                    buffer,
                    offset,
                    size,
                }),
                Err(e) => offset + size > buffer.size && e == (Error::BufferRangeOutOfBounds {
                    name,
                    offset,
                    size,
                    buffer_size: buffer.size,
                }),
            },
    {
        match offset.checked_add(size) {
            Some(end) => {
                if end > buffer.size {
                    Err(
                        Error::BufferRangeOutOfBounds {
                            name,
                            offset,
                            size,
                            buffer_size: buffer.size,
                        },
                    )
                } else {
                    Ok(BufferRange { buffer, offset, size })
                }
            },
            None => Err(
                Error::BufferRangeOutOfBounds { name, offset, size, buffer_size: buffer.size },
            ),
        }
    }

    /// Checks that the range holds `required_bytes` and the buffer has `required_usage`.
    pub fn validate(self, name: &'static str, required_bytes: u64, required_usage: u32) -> (r:
        Result<(), Error>)
        ensures
            r == validate_spec(self, name, required_bytes, required_usage),
    {
        if self.size < required_bytes {
            return Err(Error::BufferTooSmall { name, required: required_bytes, actual: self.size });
        }
        let actual = self.buffer.usage;
        if actual & required_usage != required_usage {
            return Err(Error::MissingBufferUsage { name, required: required_usage, actual });
        }
        Ok(())
    }

    /// Checks the range's offset against the device's storage-offset alignment.
    pub fn validate_storage_offset(self, limits: &DeviceLimits, name: &'static str) -> (r: Result<
        (),
        Error,
    >)
        ensures
            r == offset_spec(self, limits.min_storage_buffer_offset_alignment as u64, name),
    {
        let alignment = limits.min_storage_buffer_offset_alignment as u64;
        if !self.offset.is_multiple_of(alignment) {
            return Err(Error::MisalignedBufferOffset { name, offset: self.offset, alignment });
        }
        Ok(())
    }

    /// The same range, restricted to its first `size` bytes.
    pub fn with_size(self, size: u64) -> (r: BufferRange)
        ensures
            r == (BufferRange { size, ..self }),
    {
        BufferRange { size, ..self }
    }
}

/// The stricter of the device's buffer-size and storage-binding limits.
pub fn effective_storage_binding_limit(max_buffer_size: u64, max_storage_buffer_binding_size: u64) -> (r: u64)
    ensures
        r == if max_buffer_size <= max_storage_buffer_binding_size {
            max_buffer_size
        } else {
            max_storage_buffer_binding_size
        },
        r <= max_buffer_size,
        r <= max_storage_buffer_binding_size,
{
    if max_buffer_size <= max_storage_buffer_binding_size {
        max_buffer_size
    } else {
        max_storage_buffer_binding_size
    }
}

/// Checks a storage binding of `requested` bytes against both device limits.
pub fn validate_storage_binding_size_against_limits(
    requested: u64,
    max_buffer_size: u64,
    max_storage_buffer_binding_size: u64,
) -> (r: Result<(), Error>)
    ensures
        r == binding_size_spec(requested, max_buffer_size, max_storage_buffer_binding_size),
{
    let limit = effective_storage_binding_limit(max_buffer_size, max_storage_buffer_binding_size);
    if requested > limit {
        Err(Error::BufferLimitExceeded { requested, limit })
    } else {
        Ok(())
    }
}

/// Checks a storage binding of `requested` bytes against the device limits.
pub fn validate_storage_binding_size(limits: &DeviceLimits, requested: u64) -> (r: Result<
    (),
    Error,
>)
    ensures
        r == limits_binding_spec(*limits, requested),
{
    validate_storage_binding_size_against_limits(
        requested,
        limits.max_buffer_size,
        limits.max_storage_buffer_binding_size,
    )
}

/// Checks a whole buffer's size and usages.
pub fn validate_buffer(
    buffer: GpuBuffer,
    name: &'static str,
    required_bytes: u64,
    required_usage: u32,
) -> (r: Result<(), Error>)
    ensures
        r == validate_spec(BufferRange::whole_spec(buffer), name, required_bytes, required_usage),
{
    BufferRange::whole(buffer).validate(name, required_bytes, required_usage)
}

impl BufferRange {
    pub open spec fn whole_spec(buffer: GpuBuffer) -> BufferRange {
        BufferRange { buffer, offset: 0, size: buffer.size }
    }
}

/// Two buffers that one primitive must not bind to the same handle.
#[derive(Clone, Copy, Debug)]
pub struct AliasPair {
    pub first: GpuBuffer,
    pub first_name: &'static str,
    pub second: GpuBuffer,
    pub second_name: &'static str,
}

/// The first aliased pair, in order, as an error; `Ok` when no pair aliases.
pub open spec fn alias_spec(pairs: Seq<AliasPair>) -> Result<(), Error>
    decreases pairs.len(),
{
    if pairs.len() == 0 {
        Ok(())
    } else if pairs[0].first.id == pairs[0].second.id {
        Err(Error::BufferAlias { first: pairs[0].first_name, second: pairs[0].second_name })
    } else {
        alias_spec(pairs.drop_first())
    }
}

/// No pair binds one handle twice.
pub open spec fn all_distinct(pairs: Seq<AliasPair>) -> bool {
    forall|i: int| 0 <= i < pairs.len() ==> #[trigger] pairs[i].first.id != pairs[i].second.id
}

pub proof fn lemma_alias_spec_ok(pairs: Seq<AliasPair>)
    ensures
        alias_spec(pairs) is Ok <==> all_distinct(pairs),
    decreases pairs.len(),
{
    if pairs.len() > 0 {
        lemma_alias_spec_ok(pairs.drop_first());
        if all_distinct(pairs.drop_first()) && pairs[0].first.id != pairs[0].second.id {
            assert forall|i: int| 0 <= i < pairs.len() implies #[trigger] pairs[i].first.id
                != pairs[i].second.id by {
                if i > 0 {
                    assert(pairs[i] == pairs.drop_first()[i - 1]);
                }
            }
        }
        if all_distinct(pairs) {
            assert forall|i: int| 0 <= i < pairs.drop_first().len() implies #[trigger] pairs.drop_first()[i].first.id
                != pairs.drop_first()[i].second.id by {
                assert(pairs.drop_first()[i] == pairs[i + 1]);
            }
        }
    }
}

/// Rejects the first pair that binds one buffer handle twice.
pub fn validate_distinct(pairs: &Vec<AliasPair>) -> (r: Result<(), Error>)
    ensures
        r == alias_spec(pairs@),
        r is Ok <==> all_distinct(pairs@),
{
    proof {
        lemma_alias_spec_ok(pairs@);
        assert(pairs@.skip(0) =~= pairs@);
    }
    let mut i: usize = 0;
    while i < pairs.len()
        invariant
            0 <= i <= pairs.len(),
            alias_spec(pairs@) == alias_spec(pairs@.skip(i as int)),
        decreases pairs.len() - i,
    {
        let pair = pairs[i];
        assert(pairs@.skip(i as int)[0] == pair);
        if pair.first.id == pair.second.id {
            return Err(Error::BufferAlias { first: pair.first_name, second: pair.second_name });
        }
        assert(pairs@.skip(i as int).drop_first() =~= pairs@.skip(i + 1));
        i = i + 1;
    }
    assert(pairs@.skip(i as int).len() == 0);
    Ok(())
}

/// An alias pair.
pub fn alias_pair(
    first: GpuBuffer,
    first_name: &'static str,
    second: GpuBuffer,
    second_name: &'static str,
) -> (r: AliasPair)
    ensures
        r == (AliasPair { first, first_name, second, second_name }),
{
    AliasPair { first, first_name, second, second_name }
}

} // verus!
