//! Typed, recording-first composition of the GPU primitives: typed buffer
//! views with fixed or GPU-resident extents, and the count-plan cache that
//! shares one preparation dispatch among the consumers of a GPU count.

mod sealed;

use vstd::prelude::*;

use std::marker::PhantomData;
use std::ops::Range;

use crate::common::buffers::{BufferRange, DeviceLimits, GpuBuffer};
use crate::count::{count_plan_error, CountedSortDispatch, GpuCountPlan};
use crate::error::Error;
use crate::sort::counted::{validate_key_bits, FULL_KEY_BITS};
use crate::sort::KeyValue;


verus! {

/// Element types the typed views accept; the kernels know their exact layout.
pub trait GpuElement: sealed::Sealed {
    spec fn size_spec() -> u64;

    /// Bytes of one element.
    fn size_bytes() -> (r: u64)
        ensures
            r == Self::size_spec(),
            r == 4 || r == 8;
}

impl GpuElement for u32 {
    open spec fn size_spec() -> u64 {
        4
    }

    fn size_bytes() -> (r: u64) {
        4
    }
}

impl GpuElement for KeyValue {
    open spec fn size_spec() -> u64 {
        8
    }

    fn size_bytes() -> (r: u64) {
        8
    }
}

/// A GPU-resident `u32` item count at a byte offset of a buffer.
#[derive(Clone, Copy, Debug, PartialEq, Eq, Structural)]
pub struct GpuCount {
    pub buffer: GpuBuffer,
    pub offset: u64,
}

impl GpuCount {
    /// The first word of `buffer`.
    pub fn new(buffer: GpuBuffer) -> (r: Result<GpuCount, Error>)
        ensures
            buffer.size >= 4 ==> r == Ok::<GpuCount, Error>(GpuCount { buffer, offset: 0 }),
            buffer.size < 4 ==> r == Err::<GpuCount, Error>(
                Error::BufferRangeOutOfBounds { name: "GPU item count", offset: 0, size: 4, buffer_size: buffer.size },
            ),
    {
        GpuCount::at(buffer, 0)
    }

    /// The word at `byte_offset` of `buffer`, which must lie within it.
    pub fn at(buffer: GpuBuffer, byte_offset: u64) -> (r: Result<GpuCount, Error>)
        ensures
            byte_offset + 4 <= buffer.size ==> r == Ok::<GpuCount, Error>(GpuCount { buffer, offset: byte_offset }),
            byte_offset + 4 > buffer.size ==> r == Err::<GpuCount, Error>(
                Error::BufferRangeOutOfBounds {
                    name: "GPU item count",
                    offset: byte_offset,
                    size: 4,
                    buffer_size: buffer.size,
                },
            ),
    {
        match BufferRange::new(buffer, byte_offset, 4, "GPU item count") {
            Ok(_) => Ok(GpuCount { buffer, offset: byte_offset }),
            Err(e) => Err(e),
        }
    }

    pub fn buffer(self) -> (r: GpuBuffer)
        ensures
            r == self.buffer,
    {
        self.buffer
    }

    pub fn byte_offset(self) -> (r: u64)
        ensures
            r == self.offset,
    {
        self.offset
    }

    pub open spec fn range_spec(self) -> BufferRange {
        BufferRange { buffer: self.buffer, offset: self.offset, size: 4 }
    }

    /// The count word's range.
    pub fn range(self) -> (r: BufferRange)
        ensures
            r == self.range_spec(),
    {
        BufferRange { buffer: self.buffer, offset: self.offset, size: 4 }
    }
}

/// How many elements of a view are initialized.
#[derive(Clone, Copy, Debug, PartialEq, Eq, Structural)]
pub enum Extent {
    /// Known on the host.
    Fixed(u32),
    /// Held by a GPU count; the view's capacity bounds it.
    Gpu(GpuCount),
}

/// A typed read-only view of elements of a caller-owned buffer.
pub struct GpuSlice<T: GpuElement> {
    pub buffer: GpuBuffer,
    pub byte_offset: u64,
    pub capacity: u32,
    pub extent: Extent,
    pub element: PhantomData<T>,
}

impl<T: GpuElement> Clone for GpuSlice<T> {
    fn clone(&self) -> (r: Self)
        ensures
            r == *self,
    {
        GpuSlice {
            buffer: self.buffer,
            byte_offset: self.byte_offset,
            capacity: self.capacity,
            extent: self.extent,
            element: PhantomData,
        }
    }
}

/// Where a view of `capacity` elements starting at element `first` lies, if
/// it lies within `buffer`.
pub open spec fn view_spec(buffer: GpuBuffer, first: u32, capacity: u32, size: u64, name: &'static str) -> Result<(u64, u64), Error> {
    let offset = (first * size) as u64;
    let bytes = (capacity * size) as u64;
    if offset + bytes <= buffer.size {
        Ok((offset, bytes))
    } else {
        Err(Error::BufferRangeOutOfBounds { name, offset, size: bytes, buffer_size: buffer.size })
    }
}

/// Checks a view of elements `first..first + capacity`.
fn locate(buffer: GpuBuffer, first: u32, capacity: u32, size: u64, name: &'static str) -> (r: Result<(u64, u64), Error>)
    requires
        size == 4 || size == 8,
    ensures
        r == view_spec(buffer, first, capacity, size, name),
{
    let offset = first as u64 * size;
    let bytes = capacity as u64 * size;
    match BufferRange::new(buffer, offset, bytes, name) {
        Ok(_) => Ok((offset, bytes)),
        Err(e) => Err(e),
    }
}

impl<T: GpuElement> GpuSlice<T> {
    /// A fixed-length view of the elements in `range`.
    pub fn from_range(buffer: GpuBuffer, range: Range<u32>) -> (r: Result<GpuSlice<T>, Error>)
        ensures
            range.end < range.start ==> r == Err::<GpuSlice<T>, Error>(Error::SizeOverflow),
            range.start <= range.end ==> match view_spec(buffer, range.start, (range.end - range.start) as u32, T::size_spec(), "GPU slice") {
                Err(e) => r == Err::<GpuSlice<T>, Error>(e),
                Ok((offset, _)) => r matches Ok(s) && s.buffer == buffer && s.byte_offset == offset
                    && s.capacity == range.end - range.start && s.extent == Extent::Fixed((range.end - range.start) as u32),
            },
    {
        if range.end < range.start {
            return Err(Error::SizeOverflow);
        }
        let capacity = range.end - range.start;
        GpuSlice::from_parts(buffer, range.start, capacity, Extent::Fixed(capacity))
    }

    /// A view of the elements in `range` whose exact length is `count`.
    pub fn counted(buffer: GpuBuffer, range: Range<u32>, count: GpuCount) -> (r: Result<GpuSlice<T>, Error>)
        ensures
            range.end < range.start ==> r == Err::<GpuSlice<T>, Error>(Error::SizeOverflow),
            range.start <= range.end ==> match view_spec(buffer, range.start, (range.end - range.start) as u32, T::size_spec(), "GPU slice") {
                Err(e) => r == Err::<GpuSlice<T>, Error>(e),
                Ok((offset, _)) => r matches Ok(s) && s.buffer == buffer && s.byte_offset == offset
                    && s.capacity == range.end - range.start && s.extent == Extent::Gpu(count),
            },
    {
        if range.end < range.start {
            return Err(Error::SizeOverflow);
        }
        let capacity = range.end - range.start;
        GpuSlice::from_parts(buffer, range.start, capacity, Extent::Gpu(count))
    }

    /// A view of `capacity` elements starting at element `first_element`.
    pub fn from_parts(buffer: GpuBuffer, first_element: u32, capacity: u32, extent: Extent) -> (r: Result<GpuSlice<T>, Error>)
        ensures
            match view_spec(buffer, first_element, capacity, T::size_spec(), "GPU slice") {
                Err(e) => r == Err::<GpuSlice<T>, Error>(e),
                Ok((offset, _)) => r matches Ok(s) && s.buffer == buffer && s.byte_offset == offset
                    && s.capacity == capacity && s.extent == extent,
            },
    {
        match locate(buffer, first_element, capacity, T::size_bytes(), "GPU slice") {
            Ok((offset, _)) => Ok(GpuSlice { buffer, byte_offset: offset, capacity, extent, element: PhantomData }),
            Err(e) => Err(e),
        }
    }

    /// The allocation bound in elements.
    pub fn capacity(&self) -> (r: u32)
        ensures
            r == self.capacity,
    {
        self.capacity
    }

    /// The fixed or GPU-resident extent.
    pub fn extent(&self) -> (r: Extent)
        ensures
            r == self.extent,
    {
        self.extent
    }

    pub fn buffer(&self) -> (r: GpuBuffer)
        ensures
            r == self.buffer,
    {
        self.buffer
    }

    pub fn byte_offset(&self) -> (r: u64)
        ensures
            r == self.byte_offset,
    {
        self.byte_offset
    }

    /// The bytes the view covers.
    pub fn range(&self) -> (r: BufferRange)
        ensures
            r == (BufferRange { buffer: self.buffer, offset: self.byte_offset, size: (self.capacity * T::size_spec()) as u64 }),
    {
        BufferRange { buffer: self.buffer, offset: self.byte_offset, size: self.capacity as u64 * T::size_bytes() }
    }
}

/// A typed writable view of elements of a caller-owned buffer.
pub struct GpuSliceMut<T: GpuElement> {
    pub buffer: GpuBuffer,
    pub byte_offset: u64,
    pub capacity: u32,
    pub element: PhantomData<T>,
}

impl<T: GpuElement> Clone for GpuSliceMut<T> {
    fn clone(&self) -> (r: Self)
        ensures
            r == *self,
    {
        GpuSliceMut { buffer: self.buffer, byte_offset: self.byte_offset, capacity: self.capacity, element: PhantomData }
    }
}

impl<T: GpuElement> GpuSliceMut<T> {
    /// A writable view of the elements in `range`.
    pub fn from_range(buffer: GpuBuffer, range: Range<u32>) -> (r: Result<GpuSliceMut<T>, Error>)
        ensures
            range.end < range.start ==> r == Err::<GpuSliceMut<T>, Error>(Error::SizeOverflow),
            range.start <= range.end ==> match view_spec(buffer, range.start, (range.end - range.start) as u32, T::size_spec(), "writable GPU slice") {
                Err(e) => r == Err::<GpuSliceMut<T>, Error>(e),
                Ok((offset, _)) => r matches Ok(s) && s.buffer == buffer && s.byte_offset == offset
                    && s.capacity == range.end - range.start,
            },
    {
        if range.end < range.start {
            return Err(Error::SizeOverflow);
        }
        let capacity = range.end - range.start;
        match locate(buffer, range.start, capacity, T::size_bytes(), "writable GPU slice") {
            Ok((offset, _)) => Ok(GpuSliceMut { buffer, byte_offset: offset, capacity, element: PhantomData }),
            Err(e) => Err(e),
        }
    }

    pub fn capacity(&self) -> (r: u32)
        ensures
            r == self.capacity,
    {
        self.capacity
    }

    pub fn buffer(&self) -> (r: GpuBuffer)
        ensures
            r == self.buffer,
    {
        self.buffer
    }

    pub fn byte_offset(&self) -> (r: u64)
        ensures
            r == self.byte_offset,
    {
        self.byte_offset
    }

    /// The bytes the view covers.
    pub fn range(&self) -> (r: BufferRange)
        ensures
            r == (BufferRange { buffer: self.buffer, offset: self.byte_offset, size: (self.capacity * T::size_spec()) as u64 }),
    {
        BufferRange { buffer: self.buffer, offset: self.byte_offset, size: self.capacity as u64 * T::size_bytes() }
    }

    /// The read-only view of what a primitive wrote: the first `capacity`
    /// elements, with `extent` initialized.
    pub fn initialized(&self, capacity: u32, extent: Extent) -> (r: GpuSlice<T>)
        requires
            capacity <= self.capacity,
        ensures
            r.buffer == self.buffer,
            r.byte_offset == self.byte_offset,
            r.capacity == capacity,
            r.extent == extent,
    {
        GpuSlice { buffer: self.buffer, byte_offset: self.byte_offset, capacity, extent, element: PhantomData }
    }
}

/// Radix-sort options: the number of significant low key bits.
#[derive(Clone, Copy, Debug, PartialEq, Eq, Structural)]
pub struct SortOptions {
    pub key_bits: u32,
}

impl SortOptions {
    /// Sorts the full 32-bit key width.
    pub fn full_width() -> (r: SortOptions)
        ensures
            r.key_bits == 32,
    {
        SortOptions { key_bits: 32 }
    }

    /// Declares the number of significant low key bits.
    pub fn key_bits(self, key_bits: u32) -> (r: SortOptions)
        ensures
            r.key_bits == key_bits,
    {
        SortOptions { key_bits }
    }
}

impl Default for SortOptions {
    fn default() -> (r: SortOptions)
        ensures
            r.key_bits == 32,
    {
        SortOptions::full_width()
    }
}

/// The primitives and capacity-dependent workspaces to prepare before
/// recording; fixed and GPU-counted paths are chosen independently.
#[derive(Clone, Copy, Debug, PartialEq, Eq, Structural)]
pub struct WorkspaceRequirements {
    pub capacity: u32,
    pub predicate: bool,
    pub compact: bool,
    pub compact_key_values: bool,
    pub fixed_sort: bool,
    pub counted_sort: bool,
    pub fixed_key_value_sort: bool,
    pub counted_key_value_sort: bool,
    pub fixed_reduce: bool,
    pub counted_reduce: bool,
    pub run_length_encode: bool,
}

impl WorkspaceRequirements {
    /// A request for at most `capacity` elements with nothing selected.
    pub fn new(capacity: u32) -> (r: WorkspaceRequirements)
        ensures
            r == (WorkspaceRequirements {
                capacity,
                predicate: false,
                compact: false,
                compact_key_values: false,
                fixed_sort: false,
                counted_sort: false,
                fixed_key_value_sort: false,
                counted_key_value_sort: false,
                fixed_reduce: false,
                counted_reduce: false,
                run_length_encode: false,
            }),
    {
        WorkspaceRequirements {
            capacity,
            predicate: false,
            compact: false,
            compact_key_values: false,
            fixed_sort: false,
            counted_sort: false,
            fixed_key_value_sort: false,
            counted_key_value_sort: false,
            fixed_reduce: false,
            counted_reduce: false,
            run_length_encode: false,
        }
    }

    /// Also prepares the predicate pipelines.
    pub fn predicate(self) -> (r: WorkspaceRequirements)
        ensures
            r == (WorkspaceRequirements { predicate: true, ..self }),
    {
        WorkspaceRequirements { predicate: true, ..self }
    }

    /// Also reserves stream compaction.
    pub fn compact(self) -> (r: WorkspaceRequirements)
        ensures
            r == (WorkspaceRequirements { compact: true, ..self }),
    {
        WorkspaceRequirements { compact: true, ..self }
    }

    /// Also reserves key-value compaction.
    pub fn compact_key_values(self) -> (r: WorkspaceRequirements)
        ensures
            r == (WorkspaceRequirements { compact_key_values: true, ..self }),
    {
        WorkspaceRequirements { compact_key_values: true, ..self }
    }

    /// Also reserves the fixed-length `u32` sort.
    pub fn fixed_sort(self) -> (r: WorkspaceRequirements)
        ensures
            r == (WorkspaceRequirements { fixed_sort: true, ..self }),
    {
        WorkspaceRequirements { fixed_sort: true, ..self }
    }

    /// Also reserves the GPU-counted `u32` sort.
    pub fn counted_sort(self) -> (r: WorkspaceRequirements)
        ensures
            r == (WorkspaceRequirements { counted_sort: true, ..self }),
    {
        WorkspaceRequirements { counted_sort: true, ..self }
    }

    /// Also reserves the fixed-length key-value sort.
    pub fn fixed_key_value_sort(self) -> (r: WorkspaceRequirements)
        ensures
            r == (WorkspaceRequirements { fixed_key_value_sort: true, ..self }),
    {
        WorkspaceRequirements { fixed_key_value_sort: true, ..self }
    }

    /// Also reserves the GPU-counted key-value sort.
    pub fn counted_key_value_sort(self) -> (r: WorkspaceRequirements)
        ensures
            r == (WorkspaceRequirements { counted_key_value_sort: true, ..self }),
    {
        WorkspaceRequirements { counted_key_value_sort: true, ..self }
    }

    /// Also reserves the fixed-length reduction.
    pub fn fixed_reduce(self) -> (r: WorkspaceRequirements)
        ensures
            r == (WorkspaceRequirements { fixed_reduce: true, ..self }),
    {
        WorkspaceRequirements { fixed_reduce: true, ..self }
    }

    /// Also reserves the GPU-counted reduction.
    pub fn counted_reduce(self) -> (r: WorkspaceRequirements)
        ensures
            r == (WorkspaceRequirements { counted_reduce: true, ..self }),
    {
        WorkspaceRequirements { counted_reduce: true, ..self }
    }

    /// Also reserves run-length encoding.
    pub fn run_length_encode(self) -> (r: WorkspaceRequirements)
        ensures
            r == (WorkspaceRequirements { run_length_encode: true, ..self }),
    {
        WorkspaceRequirements { run_length_encode: true, ..self }
    }
}

/// A cached count plan and the count word and capacity it was built for.
pub struct CachedCountPlan {
    pub count: GpuCount,
    pub capacity: u32,
    pub plan: GpuCountPlan,
}

/// Count plans shared by the consumers of GPU counts while recording, and the
/// ones whose preparation is already recorded since their count last changed.
pub struct CountPlanCache {
    pub plans: Vec<CachedCountPlan>,
    pub prepared: Vec<usize>,
}

pub open spec fn plan_key_matches(p: CachedCountPlan, count: GpuCount, capacity: u32) -> bool {
    p.count.buffer.id == count.buffer.id && p.count.offset == count.offset && p.capacity == capacity
}

impl CountPlanCache {
    pub open spec fn wf(&self) -> bool {
        forall|i: int| 0 <= i < self.prepared@.len() ==> #[trigger] self.prepared@[i] < self.plans@.len()
    }

    /// An empty cache.
    pub fn new() -> (r: CountPlanCache)
        ensures
            r.wf(),
            r.plans@.len() == 0,
            r.prepared@.len() == 0,
    {
        CountPlanCache { plans: Vec::new(), prepared: Vec::new() }
    }

    /// Starts a recording: no preparation is recorded in it yet.
    pub fn begin_recording(&mut self)
        ensures
            final(self).wf(),
            final(self).prepared@.len() == 0,
            final(self).plans@ == old(self).plans@,
    {
        self.prepared.clear();
    }

    /// Drops every cached plan.
    pub fn clear(&mut self)
        ensures
            final(self).wf(),
            final(self).plans@.len() == 0,
            final(self).prepared@.len() == 0,
    {
        self.plans.clear();
        self.prepared.clear();
    }

    /// The cached plan for `count` and `capacity`, created and appended when
    /// there is none.
    pub fn count_plan_index(&mut self, count: GpuCount, capacity: u32, limits: &DeviceLimits) -> (r: Result<usize, Error>)
        requires
            old(self).wf(),
        ensures
            final(self).wf(),
            final(self).prepared@ == old(self).prepared@,
            match r {
                Ok(i) => i < final(self).plans@.len() && plan_key_matches(final(self).plans@[i as int], count, capacity)
                    && (forall|j: int| 0 <= j < i ==> !plan_key_matches(#[trigger] old(self).plans@[j], count, capacity))
                    && (i < old(self).plans@.len() ==> final(self).plans@ == old(self).plans@)
                    && (i == old(self).plans@.len() ==> final(self).plans@.len() == old(self).plans@.len() + 1
                        && final(self).plans@.take(i as int) == old(self).plans@
                        && final(self).plans@[i as int].plan.wf(count.range_spec(), capacity, CountedSortDispatch::Indirect, *limits)),
                Err(e) => final(self).plans@ == old(self).plans@
                    && (forall|j: int| 0 <= j < old(self).plans@.len() ==> !plan_key_matches(#[trigger] old(self).plans@[j], count, capacity))
                    && count_plan_error(count.range_spec(), capacity, *limits) == Some(e),
            },
    {
        let mut i: usize = 0;
        while i < self.plans.len()
            invariant
                self.wf(),
                i <= self.plans@.len(),
                self.plans@ == old(self).plans@,
                self.prepared@ == old(self).prepared@,
                forall|j: int| 0 <= j < i ==> !plan_key_matches(#[trigger] old(self).plans@[j], count, capacity),
            decreases self.plans.len() - i,
        {
            let cached = &self.plans[i];
            if cached.count.buffer.id == count.buffer.id && cached.count.offset == count.offset && cached.capacity == capacity {
                return Ok(i);
            }
            i = i + 1;
        }
        match GpuCountPlan::new_with_count_range(count.range(), capacity, CountedSortDispatch::Indirect, limits) {
            Ok(plan) => {
                self.plans.push(CachedCountPlan { count, capacity, plan });
                assert(self.plans@.take(i as int) =~= old(self).plans@);
                Ok(i)
            },
            Err(e) => Err(e),
        }
    }

    /// Looks up or creates the plan for `count` and reports whether its
    /// preparation must be recorded now: only the first time since the count
    /// last changed.
    pub fn prepare_count(&mut self, count: GpuCount, capacity: u32, limits: &DeviceLimits) -> (r: Result<(usize, bool), Error>)
        requires
            old(self).wf(),
        ensures
            final(self).wf(),
            r matches Ok((i, record)) ==> i < final(self).plans@.len()
                && plan_key_matches(final(self).plans@[i as int], count, capacity)
                && record == !old(self).prepared@.contains(i)
                && final(self).prepared@.contains(i)
                && (record ==> final(self).prepared@ == old(self).prepared@.push(i))
                && (!record ==> final(self).prepared@ == old(self).prepared@)
                && (forall|j: int| 0 <= j < i ==> !plan_key_matches(#[trigger] old(self).plans@[j], count, capacity))
                && (i < old(self).plans@.len() ==> final(self).plans@ == old(self).plans@)
                && (i == old(self).plans@.len() ==> final(self).plans@ == old(self).plans@.push(final(self).plans@[i as int])
                    && final(self).plans@[i as int].plan.wf(count.range_spec(), capacity, CountedSortDispatch::Indirect, *limits)),
            r matches Err(e) ==> final(self).prepared@ == old(self).prepared@
                && final(self).plans@ == old(self).plans@
                && (forall|j: int| 0 <= j < old(self).plans@.len() ==> !plan_key_matches(#[trigger] old(self).plans@[j], count, capacity))
                && count_plan_error(count.range_spec(), capacity, *limits) == Some(e),
            (count_plan_error(count.range_spec(), capacity, *limits) is None
                || exists|j: int| 0 <= j < old(self).plans@.len() && plan_key_matches(#[trigger] old(self).plans@[j], count, capacity))
                ==> r is Ok,
    {
        let index = match self.count_plan_index(count, capacity, limits) {
            Ok(i) => i,
            Err(e) => return Err(e),
        };
        let mut found = false;
        let mut k: usize = 0;
        while k < self.prepared.len()
            invariant
                k <= self.prepared@.len(),
                found == exists|j: int| 0 <= j < k && self.prepared@[j] == index,
            decreases self.prepared.len() - k,
        {
            if self.prepared[k] == index {
                found = true;
            }
            k = k + 1;
        }
        proof {
            if found {
                let j = choose|j: int| 0 <= j < k && self.prepared@[j] == index;
                assert(self.prepared@.contains(index));
            } else {
                assert(!self.prepared@.contains(index));
            }
        }
        if found {
            return Ok((index, false));
        }
        self.prepared.push(index);
        assert(self.prepared@.last() == index);
        Ok((index, true))
    }

    /// Forgets the recorded preparations of every plan over `count`: a
    /// producer has just rewritten that word.
    pub fn invalidate_count(&mut self, count: GpuCount)
        requires
            old(self).wf(),
        ensures
            final(self).wf(),
            final(self).plans@ == old(self).plans@,
            final(self).prepared@ == old(self).prepared@.filter(other_count(old(self).plans@, count)),
            forall|i: int| 0 <= i < final(self).prepared@.len() ==> {
                let p = #[trigger] final(self).plans@[final(self).prepared@[i] as int];
                !(p.count.buffer.id == count.buffer.id && p.count.offset == count.offset)
            },
    {
        let ghost pred = other_count(self.plans@, count);
        let mut kept: Vec<usize> = Vec::new();
        let mut k: usize = 0;
        while k < self.prepared.len()
            invariant
                self.wf(),
                k <= self.prepared@.len(),
                self.plans@ == old(self).plans@,
                self.prepared@ == old(self).prepared@,
                pred == other_count(self.plans@, count),
                kept@ == self.prepared@.take(k as int).filter(pred),
            decreases self.prepared.len() - k,
        {
            let index = self.prepared[k];
            let cached = &self.plans[index];
            let ghost t = self.prepared@.take(k + 1);
            assert(t.drop_last() =~= self.prepared@.take(k as int));
            assert(t.last() == index);
            assert(t.len() > 0);
            proof {
                reveal(Seq::filter);
            }
            assert(t.filter(pred) == (if pred(index) {
                t.drop_last().filter(pred).push(index)
            } else {
                t.drop_last().filter(pred)
            }));
            assert(pred(index) == !(self.plans@[index as int].count.buffer.id == count.buffer.id
                && self.plans@[index as int].count.offset == count.offset));
            if !(cached.count.buffer.id == count.buffer.id && cached.count.offset == count.offset) {
                kept.push(index);
            }
            k = k + 1;
        }
        assert(self.prepared@.take(k as int) =~= self.prepared@);
        proof {
            #[allow(deprecated)]
            self.prepared@.filter_lemma(pred);
            assert forall|i: int| 0 <= i < kept@.len() implies #[trigger] kept@[i] < self.plans@.len() by {
                assert(kept@.contains(kept@[i]));
                self.prepared@.lemma_filter_contains_rev(pred, kept@[i]);
            }
        }
        self.prepared = kept;
    }
}

/// Count-plan law: the cache answers a count word and capacity with the
/// first plan built for them, so once that plan's preparation is recorded,
/// every later consumer of the same count finds it prepared and records no
/// second preparation until a producer invalidates the count.
pub proof fn lemma_prepared_once(
    plans: Seq<CachedCountPlan>,
    prepared: Seq<usize>,
    count: GpuCount,
    capacity: u32,
    first: usize,
    later: usize,
)
    requires
        first < plans.len(),
        plan_key_matches(plans[first as int], count, capacity),
        forall|k: int| 0 <= k < first ==> !plan_key_matches(#[trigger] plans[k], count, capacity),
        later < plans.len(),
        plan_key_matches(plans[later as int], count, capacity),
        forall|k: int| 0 <= k < later ==> !plan_key_matches(#[trigger] plans[k], count, capacity),
        prepared.contains(first),
    ensures
        later == first,
        prepared.contains(later),
{
    if later < first {
        assert(!plan_key_matches(plans[later as int], count, capacity));
    }
    if first < later {
        assert(!plan_key_matches(plans[first as int], count, capacity));
    }
}

/// Whether a cached plan index refers to a count word other than `count`.
pub open spec fn other_count(plans: Seq<CachedCountPlan>, count: GpuCount) -> spec_fn(usize) -> bool {
    |x: usize| !(plans[x as int].count.buffer.id == count.buffer.id && plans[x as int].count.offset == count.offset)
}


/// One component reservation, in the order [`Primitives::reserve_workspace`]
/// performs them.
#[derive(Clone, Copy, Debug, PartialEq, Eq, Structural)]
pub enum Reservation {
    Predicate,
    Compact,
    CompactKeyValues,
    FixedSort,
    CountedSort,
    FixedKeyValueSort,
    CountedKeyValueSort,
    FixedReduce,
    CountedReduce,
    RunLengthEncode,
}

/// The reservations a request selects, in order.
pub open spec fn reservations_spec(req: WorkspaceRequirements) -> Seq<Reservation> {
    (if req.predicate { seq![Reservation::Predicate] } else { Seq::empty() })
        + (if req.compact { seq![Reservation::Compact] } else { Seq::empty() })
        + (if req.compact_key_values { seq![Reservation::CompactKeyValues] } else { Seq::empty() })
        + (if req.fixed_sort { seq![Reservation::FixedSort] } else { Seq::empty() })
        + (if req.counted_sort { seq![Reservation::CountedSort] } else { Seq::empty() })
        + (if req.fixed_key_value_sort { seq![Reservation::FixedKeyValueSort] } else { Seq::empty() })
        + (if req.counted_key_value_sort { seq![Reservation::CountedKeyValueSort] } else { Seq::empty() })
        + (if req.fixed_reduce { seq![Reservation::FixedReduce] } else { Seq::empty() })
        + (if req.counted_reduce { seq![Reservation::CountedReduce] } else { Seq::empty() })
        + (if req.run_length_encode { seq![Reservation::RunLengthEncode] } else { Seq::empty() })
}

fn push_if(v: &mut Vec<Reservation>, selected: bool, r: Reservation)
    ensures
        final(v)@ == old(v)@ + (if selected { seq![r] } else { Seq::empty() }),
{
    if selected {
        v.push(r);
    }
    assert(final(v)@ =~= old(v)@ + (if selected { seq![r] } else { Seq::<Reservation>::empty() }));
}

/// A GPU-counted or host-known input to a consumer: for a GPU count, the
/// cached plan and whether its preparation must be recorded first.
#[derive(Clone, Copy, Debug, PartialEq, Eq, Structural)]
pub enum ConsumerExtent {
    Fixed(u32),
    Counted { plan: usize, record_prepare: bool },
}

/// What a typed recording prepared: the items to process and the view of
/// the output that results.
pub struct Recorded<T: GpuElement> {
    pub items: u32,
    pub output: GpuSlice<T>,
}

/// Recording state shared across primitives: the device limits and the
/// count plans of GPU-resident counts.
pub struct Primitives {
    pub limits: DeviceLimits,
    pub count_plans: CountPlanCache,
}

impl Primitives {
    pub open spec fn wf(&self) -> bool {
        self.count_plans.wf()
    }

    /// Nothing cached yet.
    pub fn new(limits: DeviceLimits) -> (r: Primitives)
        ensures
            r.wf(),
            r.limits == limits,
            r.count_plans.plans@.len() == 0,
    {
        Primitives { limits, count_plans: CountPlanCache::new() }
    }

    /// The component reservations `requirements` selects, in order; each is
    /// made for `requirements.capacity` elements.
    pub fn reserve_workspace(&self, requirements: WorkspaceRequirements) -> (r: Vec<Reservation>)
        ensures
            r@ == reservations_spec(requirements),
    {
        let mut v: Vec<Reservation> = Vec::new();
        push_if(&mut v, requirements.predicate, Reservation::Predicate);
        push_if(&mut v, requirements.compact, Reservation::Compact);
        push_if(&mut v, requirements.compact_key_values, Reservation::CompactKeyValues);
        push_if(&mut v, requirements.fixed_sort, Reservation::FixedSort);
        push_if(&mut v, requirements.counted_sort, Reservation::CountedSort);
        push_if(&mut v, requirements.fixed_key_value_sort, Reservation::FixedKeyValueSort);
        push_if(&mut v, requirements.counted_key_value_sort, Reservation::CountedKeyValueSort);
        push_if(&mut v, requirements.fixed_reduce, Reservation::FixedReduce);
        push_if(&mut v, requirements.counted_reduce, Reservation::CountedReduce);
        push_if(&mut v, requirements.run_length_encode, Reservation::RunLengthEncode);
        assert(v@ =~= reservations_spec(requirements));
        v
    }

    /// Creates and caches the plan for `count` ahead of recording.
    pub fn reserve_count(&mut self, count: GpuCount, capacity: u32) -> (r: Result<(), Error>)
        requires
            old(self).wf(),
        ensures
            final(self).wf(),
            final(self).limits == old(self).limits,
            r is Ok ==> exists|i: int| 0 <= i < final(self).count_plans.plans@.len()
                && plan_key_matches(#[trigger] final(self).count_plans.plans@[i], count, capacity),
            r matches Err(e) ==> count_plan_error(count.range_spec(), capacity, old(self).limits) == Some(e)
                && final(self).count_plans.plans@ == old(self).count_plans.plans@,
            count_plan_error(count.range_spec(), capacity, old(self).limits) is None ==> r is Ok,
    {
        match self.count_plans.count_plan_index(count, capacity, &self.limits) {
            Ok(i) => {
                assert(plan_key_matches(self.count_plans.plans@[i as int], count, capacity));
                Ok(())
            },
            Err(e) => Err(e),
        }
    }

    /// Drops every cached count plan.
    pub fn clear_count_cache(&mut self)
        ensures
            final(self).wf(),
            final(self).limits == old(self).limits,
            final(self).count_plans.plans@.len() == 0,
    {
        self.count_plans.clear();
    }

    /// Starts recording into a new encoder: every plan's preparation must be
    /// recorded again before its first consumer.
    pub fn record(&mut self)
        requires
            old(self).wf(),
        ensures
            final(self).wf(),
            final(self).limits == old(self).limits,
            final(self).count_plans.plans@ == old(self).count_plans.plans@,
            final(self).count_plans.prepared@.len() == 0,
    {
        self.count_plans.begin_recording();
    }

    /// The extent a consumer of `input` reads: for a GPU count, the plan
    /// over the view's capacity, prepared once until the count changes.
    pub fn consumer_extent<T: GpuElement>(&mut self, input: &GpuSlice<T>) -> (r: Result<ConsumerExtent, Error>)
        requires
            old(self).wf(),
        ensures
            final(self).wf(),
            final(self).limits == old(self).limits,
            (input.extent matches Extent::Fixed(n) ==> r == Ok::<ConsumerExtent, Error>(ConsumerExtent::Fixed(n))
                && final(self).count_plans.prepared@ == old(self).count_plans.prepared@),
            (r matches Ok(ConsumerExtent::Counted { plan, record_prepare }) ==> input.extent matches Extent::Gpu(c)
                && plan < final(self).count_plans.plans@.len()
                && plan_key_matches(final(self).count_plans.plans@[plan as int], c, input.capacity)
                && record_prepare == !old(self).count_plans.prepared@.contains(plan)
                && final(self).count_plans.prepared@.contains(plan)),
            (r matches Err(e) ==> input.extent matches Extent::Gpu(c) && count_plan_error(
                c.range_spec(),
                input.capacity,
                old(self).limits,
            ) == Some(e) && final(self).count_plans.prepared@ == old(self).count_plans.prepared@),
            (input.extent matches Extent::Gpu(c) ==> (count_plan_error(c.range_spec(), input.capacity, old(self).limits)
                is None ==> r is Ok)),
    {
        match input.extent {
            Extent::Fixed(n) => Ok(ConsumerExtent::Fixed(n)),
            Extent::Gpu(c) => match self.count_plans.prepare_count(c, input.capacity, &self.limits) {
                Ok((plan, record_prepare)) => Ok(ConsumerExtent::Counted { plan, record_prepare }),
                Err(e) => Err(e),
            },
        }
    }

    /// Checks a mask of a fixed-length `u32` view into `output`.
    pub fn mask(&self, input: &GpuSlice<u32>, output: &GpuSliceMut<u32>) -> (r: Result<Recorded<u32>, Error>)
        ensures
            (input.extent matches Extent::Gpu(_) ==> r == Err::<Recorded<u32>, Error>(
                Error::UnsupportedDynamicExtent { operation: "predicate mask" },
            )),
            input.extent matches Extent::Fixed(n) ==> if output.capacity < n {
                r == Err::<Recorded<u32>, Error>(
                    Error::BufferTooSmall {
                        name: "predicate mask output view",
                        required: (n * 4) as u64,
                        actual: (output.capacity * 4) as u64,
                    },
                )
            } else {
                r matches Ok(rec) && rec.items == n && rec.output.buffer == output.buffer
                    && rec.output.byte_offset == output.byte_offset && rec.output.capacity == n
                    && rec.output.extent == Extent::Fixed(n)
            },
    {
        fixed_mask(input.extent, output, "predicate mask")
    }

    /// Checks a mask of one field of a fixed-length key-value view.
    pub fn mask_key_values(&self, input: &GpuSlice<KeyValue>, output: &GpuSliceMut<u32>) -> (r: Result<Recorded<u32>, Error>)
        ensures
            (input.extent matches Extent::Gpu(_) ==> r == Err::<Recorded<u32>, Error>(
                Error::UnsupportedDynamicExtent { operation: "key-value predicate mask" },
            )),
            input.extent matches Extent::Fixed(n) ==> if output.capacity < n {
                r == Err::<Recorded<u32>, Error>(
                    Error::BufferTooSmall {
                        name: "predicate mask output view",
                        required: (n * 4) as u64,
                        actual: (output.capacity * 4) as u64,
                    },
                )
            } else {
                r matches Ok(rec) && rec.items == n && rec.output.buffer == output.buffer
                    && rec.output.byte_offset == output.byte_offset && rec.output.capacity == n
                    && rec.output.extent == Extent::Fixed(n)
            },
    {
        fixed_mask(input.extent, output, "key-value predicate mask")
    }

    /// Checks a compaction of fixed-length `u32` views; the count's plans
    /// must be prepared again afterwards.
    pub fn compact(&mut self, input: &GpuSlice<u32>, mask: &GpuSlice<u32>, output: &GpuSliceMut<u32>, count: GpuCount) -> (r: Result<Recorded<u32>, Error>)
        requires
            old(self).wf(),
        ensures
            final(self).wf(),
            final(self).limits == old(self).limits,
            match compact_check(input.extent, mask.extent, output.capacity, 4, "stream compaction", "stream-compaction mask", "compaction output view") {
                Err(e) => r == Err::<Recorded<u32>, Error>(e) && final(self).count_plans == old(self).count_plans,
                Ok(n) => r matches Ok(rec) && rec.items == n && rec.output.buffer == output.buffer
                    && rec.output.byte_offset == output.byte_offset && rec.output.capacity == n
                    && rec.output.extent == Extent::Gpu(count)
                    && final(self).count_plans.prepared@ == old(self).count_plans.prepared@.filter(
                        other_count(old(self).count_plans.plans@, count)),
            },
    {
        match check_compact(input.extent, mask.extent, output.capacity, 4, "stream compaction", "stream-compaction mask", "compaction output view") {
            Err(e) => Err(e),
            Ok(n) => {
                self.count_plans.invalidate_count(count);
                Ok(Recorded { items: n, output: output.initialized(n, Extent::Gpu(count)) })
            },
        }
    }

    /// Checks a compaction of fixed-length key-value views.
    pub fn compact_key_values(&mut self, input: &GpuSlice<KeyValue>, mask: &GpuSlice<u32>, output: &GpuSliceMut<KeyValue>, count: GpuCount) -> (r: Result<Recorded<KeyValue>, Error>)
        requires
            old(self).wf(),
        ensures
            final(self).wf(),
            final(self).limits == old(self).limits,
            match compact_check(input.extent, mask.extent, output.capacity, 8, "key-value stream compaction", "key-value stream-compaction mask", "key-value compaction output view") {
                Err(e) => r == Err::<Recorded<KeyValue>, Error>(e) && final(self).count_plans == old(self).count_plans,
                Ok(n) => r matches Ok(rec) && rec.items == n && rec.output.buffer == output.buffer
                    && rec.output.byte_offset == output.byte_offset && rec.output.capacity == n
                    && rec.output.extent == Extent::Gpu(count)
                    && final(self).count_plans.prepared@ == old(self).count_plans.prepared@.filter(
                        other_count(old(self).count_plans.plans@, count)),
            },
    {
        match check_compact(input.extent, mask.extent, output.capacity, 8, "key-value stream compaction", "key-value stream-compaction mask", "key-value compaction output view") {
            Err(e) => Err(e),
            Ok(n) => {
                self.count_plans.invalidate_count(count);
                Ok(Recorded { items: n, output: output.initialized(n, Extent::Gpu(count)) })
            },
        }
    }

    /// Checks a sort of a fixed or GPU-counted `u32` view into `output` over
    /// the low `options.key_bits` bits of each key, at most 32.
    pub fn sort(&mut self, input: &GpuSlice<u32>, output: &GpuSliceMut<u32>, options: SortOptions) -> (r: Result<(ConsumerExtent, GpuSlice<u32>), Error>)
        requires
            old(self).wf(),
        ensures
            final(self).wf(),
            final(self).limits == old(self).limits,
            output.capacity < input.capacity ==> r == Err::<(ConsumerExtent, GpuSlice<u32>), Error>(
                Error::BufferTooSmall {
                    name: "sort output view",
                    required: (input.capacity * 4) as u64,
                    actual: (output.capacity * 4) as u64,
                },
            ),
            (r matches Ok((e, view)) ==> output.capacity >= input.capacity && options.key_bits <= FULL_KEY_BITS
                && view.capacity == input.capacity && view.extent == input.extent && view.buffer == output.buffer
                && view.byte_offset == output.byte_offset
                && (input.extent matches Extent::Fixed(n) ==> e == ConsumerExtent::Fixed(n))),
            output.capacity >= input.capacity ==> (input.extent matches Extent::Fixed(_) ==> if options.key_bits
                <= FULL_KEY_BITS {
                r is Ok
            } else {
                r == Err::<(ConsumerExtent, GpuSlice<u32>), Error>(Error::InvalidKeyBits { bits: options.key_bits })
            }),
            output.capacity >= input.capacity ==> (input.extent matches Extent::Gpu(c) ==> (count_plan_error(
                c.range_spec(),
                input.capacity,
                old(self).limits,
            ) is None ==> (r is Ok <==> options.key_bits <= FULL_KEY_BITS))),
    {
        if output.capacity < input.capacity {
            return Err(
                Error::BufferTooSmall {
                    name: "sort output view",
                    required: input.capacity as u64 * 4,
                    actual: output.capacity as u64 * 4,
                },
            );
        }
        let extent = match self.consumer_extent(input) {
            Ok(e) => e,
            Err(e) => return Err(e),
        };
        if let Err(e) = validate_key_bits(options.key_bits) {
            return Err(e);
        }
        Ok((extent, output.initialized(input.capacity, input.extent)))
    }

    /// Checks a sort by key of a fixed or GPU-counted key-value view over the
    /// low `options.key_bits` bits of each key, at most 32.
    pub fn sort_by_key(&mut self, input: &GpuSlice<KeyValue>, output: &GpuSliceMut<KeyValue>, options: SortOptions) -> (r: Result<(ConsumerExtent, GpuSlice<KeyValue>), Error>)
        requires
            old(self).wf(),
        ensures
            final(self).wf(),
            final(self).limits == old(self).limits,
            output.capacity < input.capacity ==> r == Err::<(ConsumerExtent, GpuSlice<KeyValue>), Error>(
                Error::BufferTooSmall {
                    name: "key-value sort output view",
                    required: (input.capacity * 8) as u64,
                    actual: (output.capacity * 8) as u64,
                },
            ),
            (r matches Ok((e, view)) ==> output.capacity >= input.capacity && options.key_bits <= FULL_KEY_BITS
                && view.capacity == input.capacity && view.extent == input.extent && view.buffer == output.buffer
                && view.byte_offset == output.byte_offset
                && (input.extent matches Extent::Fixed(n) ==> e == ConsumerExtent::Fixed(n))),
            output.capacity >= input.capacity ==> (input.extent matches Extent::Fixed(_) ==> if options.key_bits
                <= FULL_KEY_BITS {
                r is Ok
            } else {
                r == Err::<(ConsumerExtent, GpuSlice<KeyValue>), Error>(Error::InvalidKeyBits { bits: options.key_bits })
            }),
            output.capacity >= input.capacity ==> (input.extent matches Extent::Gpu(c) ==> (count_plan_error(
                c.range_spec(),
                input.capacity,
                old(self).limits,
            ) is None ==> (r is Ok <==> options.key_bits <= FULL_KEY_BITS))),
    {
        if output.capacity < input.capacity {
            return Err(
                Error::BufferTooSmall {
                    name: "key-value sort output view",
                    required: input.capacity as u64 * 8,
                    actual: output.capacity as u64 * 8,
                },
            );
        }
        let extent = match self.consumer_extent(input) {
            Ok(e) => e,
            Err(e) => return Err(e),
        };
        if let Err(e) = validate_key_bits(options.key_bits) {
            return Err(e);
        }
        Ok((extent, output.initialized(input.capacity, input.extent)))
    }

    /// Checks a reduction of a fixed or GPU-counted view into one scalar.
    pub fn reduce(&mut self, input: &GpuSlice<u32>, output: &GpuSliceMut<u32>) -> (r: Result<ConsumerExtent, Error>)
        requires
            old(self).wf(),
        ensures
            final(self).wf(),
            final(self).limits == old(self).limits,
            output.capacity < 1 ==> r == Err::<ConsumerExtent, Error>(
                Error::BufferTooSmall { name: "reduction output view", required: 4, actual: 0 },
            ),
            output.capacity >= 1 ==> (input.extent matches Extent::Fixed(n) ==> r == Ok::<ConsumerExtent, Error>(ConsumerExtent::Fixed(n))),
    {
        if output.capacity < 1 {
            return Err(Error::BufferTooSmall { name: "reduction output view", required: 4, actual: 0 });
        }
        self.consumer_extent(input)
    }

    /// Checks a run-length encoding of a fixed or GPU-counted view; both
    /// outputs take the run count as their extent, whose plans must then be
    /// prepared again.
    pub fn run_length_encode(
        &mut self,
        input: &GpuSlice<u32>,
        unique_values: &GpuSliceMut<u32>,
        run_lengths: &GpuSliceMut<u32>,
        run_count: GpuCount,
    ) -> (r: Result<(GpuSlice<u32>, GpuSlice<u32>), Error>)
        requires
            old(self).wf(),
        ensures
            final(self).wf(),
            final(self).limits == old(self).limits,
            unique_values.capacity < input.capacity ==> r == Err::<(GpuSlice<u32>, GpuSlice<u32>), Error>(
                Error::BufferTooSmall {
                    name: "run-length unique-values output view",
                    required: (input.capacity * 4) as u64,
                    actual: (unique_values.capacity * 4) as u64,
                },
            ),
            unique_values.capacity >= input.capacity && run_lengths.capacity < input.capacity ==> r == Err::<(GpuSlice<u32>, GpuSlice<u32>), Error>(
                Error::BufferTooSmall {
                    name: "run-length lengths output view",
                    required: (input.capacity * 4) as u64,
                    actual: (run_lengths.capacity * 4) as u64,
                },
            ),
            unique_values.capacity >= input.capacity && run_lengths.capacity >= input.capacity ==> (r matches Ok((u, l))
                && u.buffer == unique_values.buffer && u.byte_offset == unique_values.byte_offset
                && l.buffer == run_lengths.buffer && l.byte_offset == run_lengths.byte_offset
                && u.capacity == input.capacity && l.capacity == input.capacity
                && u.extent == Extent::Gpu(run_count) && l.extent == Extent::Gpu(run_count)
                && final(self).count_plans.prepared@ == old(self).count_plans.prepared@.filter(
                    other_count(old(self).count_plans.plans@, run_count))),
    {
        if unique_values.capacity < input.capacity {
            return Err(
                Error::BufferTooSmall {
                    name: "run-length unique-values output view",
                    required: input.capacity as u64 * 4,
                    actual: unique_values.capacity as u64 * 4,
                },
            );
        }
        if run_lengths.capacity < input.capacity {
            return Err(
                Error::BufferTooSmall {
                    name: "run-length lengths output view",
                    required: input.capacity as u64 * 4,
                    actual: run_lengths.capacity as u64 * 4,
                },
            );
        }
        self.count_plans.invalidate_count(run_count);
        let extent = Extent::Gpu(run_count);
        Ok((unique_values.initialized(input.capacity, extent), run_lengths.initialized(input.capacity, extent)))
    }
}

/// The item count of a compaction, or its error.
pub open spec fn compact_check(
    input: Extent,
    mask: Extent,
    output_capacity: u32,
    size: u64,
    input_op: &'static str,
    mask_op: &'static str,
    view: &'static str,
) -> Result<u32, Error> {
    match input {
        Extent::Gpu(_) => Err(Error::UnsupportedDynamicExtent { operation: input_op }),
        Extent::Fixed(n) => match mask {
            Extent::Gpu(_) => Err(Error::UnsupportedDynamicExtent { operation: mask_op }),
            Extent::Fixed(m) => if n != m {
                Err(Error::CompactionLengthMismatch { input: n as usize, mask: m as usize })
            } else if output_capacity < n {
                Err(Error::BufferTooSmall { name: view, required: (n * size) as u64, actual: (output_capacity * size) as u64 })
            } else {
                Ok(n)
            },
        },
    }
}

fn check_compact(
    input: Extent,
    mask: Extent,
    output_capacity: u32,
    size: u64,
    input_op: &'static str,
    mask_op: &'static str,
    view: &'static str,
) -> (r: Result<u32, Error>)
    requires
        size == 4 || size == 8,
    ensures
        r == compact_check(input, mask, output_capacity, size, input_op, mask_op, view),
        (r matches Ok(n) ==> n <= output_capacity),
{
    let n = match input {
        Extent::Gpu(_) => return Err(Error::UnsupportedDynamicExtent { operation: input_op }),
        Extent::Fixed(n) => n,
    };
    let m = match mask {
        Extent::Gpu(_) => return Err(Error::UnsupportedDynamicExtent { operation: mask_op }),
        Extent::Fixed(m) => m,
    };
    if n != m {
        return Err(Error::CompactionLengthMismatch { input: n as usize, mask: m as usize });
    }
    if output_capacity < n {
        return Err(Error::BufferTooSmall { name: view, required: n as u64 * size, actual: output_capacity as u64 * size });
    }
    Ok(n)
}

fn fixed_mask(extent: Extent, output: &GpuSliceMut<u32>, operation: &'static str) -> (r: Result<Recorded<u32>, Error>)
    ensures
        (extent matches Extent::Gpu(_) ==> r == Err::<Recorded<u32>, Error>(Error::UnsupportedDynamicExtent { operation })),
        extent matches Extent::Fixed(n) ==> if output.capacity < n {
            r == Err::<Recorded<u32>, Error>(
                Error::BufferTooSmall {
                    name: "predicate mask output view",
                    required: (n * 4) as u64,
                    actual: (output.capacity * 4) as u64,
                },
            )
        } else {
            r matches Ok(rec) && rec.items == n && rec.output.buffer == output.buffer
                && rec.output.byte_offset == output.byte_offset && rec.output.capacity == n
                && rec.output.extent == Extent::Fixed(n)
        },
{
    let n = match extent {
        Extent::Gpu(_) => return Err(Error::UnsupportedDynamicExtent { operation }),
        Extent::Fixed(n) => n,
    };
    if output.capacity < n {
        return Err(
            Error::BufferTooSmall {
                name: "predicate mask output view",
                required: n as u64 * 4,
                actual: output.capacity as u64 * 4,
            },
        );
    }
    Ok(Recorded { items: n, output: output.initialized(n, Extent::Fixed(n)) })
}

} // verus!
