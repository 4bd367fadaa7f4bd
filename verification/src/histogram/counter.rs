use vstd::prelude::*;

use crate::common::buffers::{
    limits_binding_spec, usage_contains, validate_buffer, validate_spec, validate_storage_binding_size,
    BufferRange, DeviceLimits, GpuBuffer, USAGE_COPY_DST, USAGE_STORAGE,
};
use crate::common::math::div_ceil;
use crate::error::Error;

use super::pipeline::{histogram_dispatch, ITEMS_PER_WORKGROUP, MAX_BINS};

verus! {

pub const VALUE_SIZE_BYTES: u64 = 4;

/// Accepts bin counts from one to [`MAX_BINS`].
pub fn validate_bin_count(bin_count: u32) -> (r: Result<(), Error>)
    ensures
        r == (if 1 <= bin_count <= MAX_BINS {
            Ok(())
        } else {
            Err(Error::InvalidHistogramBinCount { bins: bin_count, max: MAX_BINS })
        }),
{
    if 1 <= bin_count && bin_count <= MAX_BINS {
        Ok(())
    } else {
        Err(Error::InvalidHistogramBinCount { bins: bin_count, max: MAX_BINS })
    }
}

/// The validation error, if any, of counting `n` items into `bins` bins.
pub open spec fn histogram_error(input: GpuBuffer, output: GpuBuffer, n: u32, bins: u32, limits: DeviceLimits) -> Option<Error> {
    let out_bytes = (bins * VALUE_SIZE_BYTES) as u64;
    let in_bytes = (n * VALUE_SIZE_BYTES) as u64;
    let o = validate_spec(BufferRange::whole_spec(output), "histogram output", out_bytes, USAGE_STORAGE | USAGE_COPY_DST);
    let i = validate_spec(BufferRange::whole_spec(input), "histogram input", in_bytes, USAGE_STORAGE);
    if input.id == output.id {
        Some(Error::BufferAlias { first: "histogram input", second: "histogram output" })
    } else if !(1 <= bins <= MAX_BINS) {
        Some(Error::InvalidHistogramBinCount { bins, max: MAX_BINS })
    } else if o is Err {
        Some(o->Err_0)
    } else if n == 0 {
        None
    } else if limits_binding_spec(limits, in_bytes) is Err {
        Some(limits_binding_spec(limits, in_bytes)->Err_0)
    } else if i is Err {
        Some(i->Err_0)
    } else {
        None
    }
}

/// Every bin count from one to [`MAX_BINS`] is accepted: with distinct
/// buffers, an output of one word per bin usable as storage and copy
/// destination, and an input of one word per item usable as storage within
/// the device's binding limit, a histogram of any such bin count is valid.
pub proof fn lemma_histogram_accepts_every_bin_count(
    input: GpuBuffer,
    output: GpuBuffer,
    n: u32,
    bins: u32,
    limits: DeviceLimits,
)
    requires
        1 <= bins <= 256,
        input.id != output.id,
        output.size >= bins * 4,
        usage_contains(output.usage, USAGE_STORAGE | USAGE_COPY_DST),
        input.size >= n * 4,
        usage_contains(input.usage, USAGE_STORAGE),
        n * 4 <= limits.max_buffer_size,
        n * 4 <= limits.max_storage_buffer_binding_size,
    ensures
        histogram_error(input, output, n, bins, limits) is None,
{
}

/// The commands of one histogram.
pub enum HistogramCommands {
    /// No items: the bins are cleared to zero.
    ClearOnly { output_bytes: u64 },
    /// Clear the bins, then count on this grid with these parameters.
    Count { output_bytes: u64, groups: (u32, u32), params: Vec<u32> },
}

/// Counts `u32` values into 1 to 256 bins; values outside the bins are ignored.
pub struct Histogram {
    pub limits: DeviceLimits,
}

impl Histogram {
    pub const MAX_BINS: u32 = 256;

    /// A histogram for a device with these limits.
    pub fn new(limits: DeviceLimits) -> (r: Histogram)
        ensures
            r.limits == limits,
    {
        Histogram { limits }
    }

    /// Bytes of the output buffer for `bin_count` bins.
    pub fn output_buffer_size(bin_count: u32) -> (r: Result<u64, Error>)
        ensures
            r == (if 1 <= bin_count <= MAX_BINS {
                Ok((bin_count * VALUE_SIZE_BYTES) as u64)
            } else {
                Err(Error::InvalidHistogramBinCount { bins: bin_count, max: MAX_BINS })
            }),
    {
        if let Err(e) = validate_bin_count(bin_count) {
            return Err(e);
        }
        Ok(bin_count as u64 * VALUE_SIZE_BYTES)
    }

    /// Checks a binding of `requested` bytes against the device limits.
    pub fn validate_storage_binding_size(&self, requested: u64) -> (r: Result<(), Error>)
        ensures
            r == limits_binding_spec(self.limits, requested),
    {
        validate_storage_binding_size(&self.limits, requested)
    }

    /// Checks a host slice of `len` values before it is uploaded: `None`
    /// when it is empty (every one of the `bin_count` bins is zero), else
    /// its item count. The bin count is checked first.
    pub fn plan_host_histogram(&self, len: usize, bin_count: u32) -> (r: Result<Option<u32>, Error>)
        ensures
            !(1 <= bin_count <= MAX_BINS) ==> r == Err::<Option<u32>, Error>(
                Error::InvalidHistogramBinCount { bins: bin_count, max: MAX_BINS },
            ),
            1 <= bin_count <= MAX_BINS ==> {
                &&& len == 0 ==> r == Ok::<Option<u32>, Error>(None)
                &&& len > u32::MAX ==> r == Err::<Option<u32>, Error>(
                    Error::ElementCountTooLarge { count: len as u64 },
                )
                &&& 0 < len <= u32::MAX ==> r == match limits_binding_spec(
                    self.limits,
                    (len * VALUE_SIZE_BYTES) as u64,
                ) {
                    Ok(_) => Ok::<Option<u32>, Error>(Some(len as u32)),
                    Err(e) => Err(e),
                }
            },
    {
        if let Err(e) = Histogram::output_buffer_size(bin_count) {
            return Err(e);
        }
        if len == 0 {
            return Ok(None);
        }
        let n = match crate::common::math::checked_u32(len as u64) {
            Ok(n) => n,
            Err(e) => return Err(e),
        };
        match self.validate_storage_binding_size(n as u64 * VALUE_SIZE_BYTES) {
            Ok(()) => Ok(Some(n)),
            Err(e) => Err(e),
        }
    }

    /// Validates and plans a histogram of the first `num_items` values.
    pub fn record_histogram(&self, input: GpuBuffer, output: GpuBuffer, num_items: u32, bin_count: u32) -> (r:
        Result<HistogramCommands, Error>)
        requires
            self.limits.max_compute_workgroups_per_dimension > 0,
        ensures
            match histogram_error(input, output, num_items, bin_count, self.limits) {
                Some(e) => r == Err::<HistogramCommands, Error>(e),
                None => if num_items == 0 {
                    r == Ok::<HistogramCommands, Error>(HistogramCommands::ClearOnly { output_bytes: (bin_count * 4) as u64 })
                } else {
                    r matches Ok(HistogramCommands::Count { output_bytes, groups, params }) && {
                        let w = div_ceil(num_items as int, ITEMS_PER_WORKGROUP as int);
                        let m = self.limits.max_compute_workgroups_per_dimension;
                        &&& output_bytes == bin_count * 4
                        &&& groups.0 == (if w <= m { w } else { m as int })
                        &&& groups.1 == div_ceil(w, m as int)
                        &&& params@ == seq![num_items, bin_count, groups.0, w as u32]
                    }
                },
            },
            (1 <= bin_count <= 256 && input.id != output.id && output.size >= bin_count * 4 && usage_contains(
                output.usage,
                USAGE_STORAGE | USAGE_COPY_DST,
            ) && input.size >= num_items * 4 && usage_contains(input.usage, USAGE_STORAGE) && num_items * 4
                <= self.limits.max_buffer_size && num_items * 4 <= self.limits.max_storage_buffer_binding_size)
                ==> r is Ok,
    {
        if input.id == output.id {
            return Err(Error::BufferAlias { first: "histogram input", second: "histogram output" });
        }
        let output_bytes = match Histogram::output_buffer_size(bin_count) {
            Ok(b) => b,
            Err(e) => return Err(e),
        };
        if let Err(e) = validate_buffer(output, "histogram output", output_bytes, USAGE_STORAGE | USAGE_COPY_DST) {
            return Err(e);
        }
        if num_items == 0 {
            return Ok(HistogramCommands::ClearOnly { output_bytes });
        }
        let input_bytes = num_items as u64 * VALUE_SIZE_BYTES;
        if let Err(e) = self.validate_storage_binding_size(input_bytes) {
            return Err(e);
        }
        if let Err(e) = validate_buffer(input, "histogram input", input_bytes, USAGE_STORAGE) {
            return Err(e);
        }
        proof {
            if 1 <= bin_count <= 256 && output.size >= bin_count * 4 && usage_contains(
                output.usage,
                USAGE_STORAGE | USAGE_COPY_DST,
            ) && input.size >= num_items * 4 && usage_contains(input.usage, USAGE_STORAGE) && num_items * 4
                <= self.limits.max_buffer_size && num_items * 4 <= self.limits.max_storage_buffer_binding_size {
                lemma_histogram_accepts_every_bin_count(input, output, num_items, bin_count, self.limits);
            }
        }
        let (x, y, params) = histogram_dispatch(num_items, bin_count, self.limits.max_compute_workgroups_per_dimension);
        Ok(HistogramCommands::Count { output_bytes, groups: (x, y), params })
    }
}

} // verus!
