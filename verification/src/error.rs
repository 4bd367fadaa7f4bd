use vstd::prelude::*;

use vstd::string::StringExecFns;

verus! {

/// Errors returned while preparing or executing a GPU algorithm.
///
/// Failures reported by the GPU runtime itself (adapter and device requests,
/// buffer mapping and device polling) carry the runtime's message.
#[derive(Debug, Clone, PartialEq, Eq)]
pub enum Error {
    RequestAdapter(String),
    RequestDevice(String),
    BufferMap(String),
    MapRange(String),
    DevicePoll(String),
    ReadbackChannelClosed,
    TimestampQueriesUnsupported,
    ElementCountTooLarge { count: u64 },
    RadixElementCountLimitExceeded { count: u32, limit: u32 },
    InvalidKeyBits { bits: u32 },
    KeyExceedsBitRange { key: u32, bits: u32 },
    CompactionLengthMismatch { input: usize, mask: usize },
    InvalidCompactionFlag { index: usize, value: u32 },
    InvalidHistogramBinCount { bins: u32, max: u32 },
    SizeOverflow,
    BufferLimitExceeded { requested: u64, limit: u64 },
    BufferTooSmall { name: &'static str, required: u64, actual: u64 },
    BufferRangeOutOfBounds { name: &'static str, offset: u64, size: u64, buffer_size: u64 },
    MisalignedBufferOffset { name: &'static str, offset: u64, alignment: u64 },
    UnsupportedDynamicExtent { operation: &'static str },
    MissingBufferUsage { name: &'static str, required: u32, actual: u32 },
    BufferAlias { first: &'static str, second: &'static str },
}


/// The decimal digit `d` as a character.
pub open spec fn digit_char(d: nat) -> char {
    if d == 0 {
        '0'
    } else if d == 1 {
        '1'
    } else if d == 2 {
        '2'
    } else if d == 3 {
        '3'
    } else if d == 4 {
        '4'
    } else if d == 5 {
        '5'
    } else if d == 6 {
        '6'
    } else if d == 7 {
        '7'
    } else if d == 8 {
        '8'
    } else {
        '9'
    }
}

/// `n` written in decimal, without leading zeros.
pub open spec fn decimal(n: nat) -> Seq<char>
    decreases n,
{
    if n < 10 {
        seq![digit_char(n)]
    } else {
        decimal(n / 10).push(digit_char(n % 10))
    }
}

/// What the GPU runtime prints for the buffer usage flags `bits`.
pub uninterp spec fn usage_text(bits: u32) -> Seq<char>;

/// Formats usage flags the way the GPU runtime's `BufferUsages` prints
/// them with `{:?}`. The text is the `Debug` output of
/// `wgpu::BufferUsages::from_bits_retain(bits)`, a function of `bits` alone.
#[verifier::external_body]
fn usage_debug(bits: u32) -> (r: String)
    ensures
        r@ == usage_text(bits),
{
    format!("{:?}", wgpu::BufferUsages::from_bits_retain(bits))
}

fn digit_text(d: u64) -> (r: &'static str)
    requires
        d < 10,
    ensures
        r@ == seq![digit_char(d as nat)],
{
    if d == 0 {
        proof {
            reveal_strlit("0");
        }
        "0"
    } else if d == 1 {
        proof {
            reveal_strlit("1");
        }
        "1"
    } else if d == 2 {
        proof {
            reveal_strlit("2");
        }
        "2"
    } else if d == 3 {
        proof {
            reveal_strlit("3");
        }
        "3"
    } else if d == 4 {
        proof {
            reveal_strlit("4");
        }
        "4"
    } else if d == 5 {
        proof {
            reveal_strlit("5");
        }
        "5"
    } else if d == 6 {
        proof {
            reveal_strlit("6");
        }
        "6"
    } else if d == 7 {
        proof {
            reveal_strlit("7");
        }
        "7"
    } else if d == 8 {
        proof {
            reveal_strlit("8");
        }
        "8"
    } else {
        proof {
            reveal_strlit("9");
        }
        "9"
    }
}

/// Appends `n` in decimal.
pub fn push_decimal(s: &mut String, n: u64)
    ensures
        final(s)@ == old(s)@ + decimal(n as nat),
    decreases n,
{
    if n >= 10 {
        push_decimal(s, n / 10);
    }
    s.append(digit_text(n % 10));
    proof {
        if n >= 10 {
            assert(old(s)@ + decimal(n as nat) =~= old(s)@ + decimal((n / 10) as nat) + seq![
                digit_char((n % 10) as nat),
            ]);
        } else {
            assert(decimal(n as nat) == seq![digit_char(n as nat)]);
        }
    }
}

impl Error {
    /// The message that describes this error.
    pub open spec fn message_spec(&self) -> Seq<char> {
        match self {
            Error::RequestAdapter(e) => "failed to request a GPU adapter: "@ + e@,
            Error::RequestDevice(e) => "failed to request a GPU device: "@ + e@,
            Error::BufferMap(e) => "failed to map a GPU readback buffer: "@ + e@,
            Error::MapRange(e) => "failed to access a mapped GPU buffer: "@ + e@,
            Error::DevicePoll(e) => "failed while waiting for GPU work: "@ + e@,
            Error::ReadbackChannelClosed => "GPU readback completed without reporting its mapping result"@,
            Error::TimestampQueriesUnsupported => "the selected GPU adapter does not support timestamp queries"@,
            Error::ElementCountTooLarge { count } => "element count "@ + decimal(*count as nat)
                + " exceeds the supported u32 range"@,
            Error::RadixElementCountLimitExceeded { count, limit } => "element count "@ + decimal(
                *count as nat,
            ) + " exceeds the optimized radix-sort limit of "@ + decimal(*limit as nat),
            Error::InvalidKeyBits { bits } => "radix-sort key width must be at most 32 bits, got "@
                + decimal(*bits as nat),
            Error::KeyExceedsBitRange { key, bits } => "key "@ + decimal(*key as nat)
                + " does not fit in the declared "@ + decimal(*bits as nat) + "-bit radix-sort range"@,
            Error::CompactionLengthMismatch { input, mask } =>
                "compaction input and mask lengths differ: input has "@ + decimal(*input as nat)
                + " items, mask has "@ + decimal(*mask as nat),
            Error::InvalidCompactionFlag { index, value } => "compaction mask value at index "@
                + decimal(*index as nat) + " must be 0 or 1, got "@ + decimal(*value as nat),
            Error::InvalidHistogramBinCount { bins, max } => "histogram bin count must be between 1 and "@
                + decimal(*max as nat) + ", got "@ + decimal(*bins as nat),
            Error::SizeOverflow => "buffer size calculation overflowed"@,
            Error::BufferLimitExceeded { requested, limit } => "requested GPU buffer size "@ + decimal(
                *requested as nat,
            ) + " exceeds the device limit "@ + decimal(*limit as nat),
            Error::BufferTooSmall { name, required, actual } => (*name)@
                + " buffer is too small: requires "@ + decimal(*required as nat) + " bytes, has "@
                + decimal(*actual as nat) + " bytes"@,
            Error::BufferRangeOutOfBounds { name, offset, size, buffer_size } => (*name)@
                + " range at byte offset "@ + decimal(*offset as nat) + " with size "@ + decimal(
                *size as nat,
            ) + " exceeds buffer size "@ + decimal(*buffer_size as nat),
            Error::MisalignedBufferOffset { name, offset, alignment } => (*name)@ + " byte offset "@
                + decimal(*offset as nat) + " is not aligned to "@ + decimal(*alignment as nat)
                + " bytes"@,
            Error::UnsupportedDynamicExtent { operation } => (*operation)@
                + " currently requires a CPU-known input extent"@,
            Error::MissingBufferUsage { name, required, actual } => (*name)@
                + " buffer is missing usage "@ + usage_text(*required) + "; actual usage is "@
                + usage_text(*actual),
            Error::BufferAlias { first, second } => (*first)@ + " and "@ + (*second)@
                + " must be distinct buffers"@,
        }
    }

    /// Describes this error in one sentence.
    pub fn message(&self) -> (r: String)
        ensures
            r@ == self.message_spec(),
    {
        let mut s = String::new();
        match self {
            Error::RequestAdapter(e) => {
                s.append("failed to request a GPU adapter: ");
                s.append(e.as_str());
            },
            Error::RequestDevice(e) => {
                s.append("failed to request a GPU device: ");
                s.append(e.as_str());
            },
            Error::BufferMap(e) => {
                s.append("failed to map a GPU readback buffer: ");
                s.append(e.as_str());
            },
            Error::MapRange(e) => {
                s.append("failed to access a mapped GPU buffer: ");
                s.append(e.as_str());
            },
            Error::DevicePoll(e) => {
                s.append("failed while waiting for GPU work: ");
                s.append(e.as_str());
            },
            Error::ReadbackChannelClosed => {
                s.append("GPU readback completed without reporting its mapping result");
            },
            Error::TimestampQueriesUnsupported => {
                s.append("the selected GPU adapter does not support timestamp queries");
            },
            Error::ElementCountTooLarge { count } => {
                s.append("element count ");
                push_decimal(&mut s, *count);
                s.append(" exceeds the supported u32 range");
            },
            Error::RadixElementCountLimitExceeded { count, limit } => {
                s.append("element count ");
                push_decimal(&mut s, *count as u64);
                s.append(" exceeds the optimized radix-sort limit of ");
                push_decimal(&mut s, *limit as u64);
            },
            Error::InvalidKeyBits { bits } => {
                s.append("radix-sort key width must be at most 32 bits, got ");
                push_decimal(&mut s, *bits as u64);
            },
            Error::KeyExceedsBitRange { key, bits } => {
                s.append("key ");
                push_decimal(&mut s, *key as u64);
                s.append(" does not fit in the declared ");
                push_decimal(&mut s, *bits as u64);
                s.append("-bit radix-sort range");
            },
            Error::CompactionLengthMismatch { input, mask } => {
                s.append("compaction input and mask lengths differ: input has ");
                push_decimal(&mut s, *input as u64);
                s.append(" items, mask has ");
                push_decimal(&mut s, *mask as u64);
            },
            Error::InvalidCompactionFlag { index, value } => {
                s.append("compaction mask value at index ");
                push_decimal(&mut s, *index as u64);
                s.append(" must be 0 or 1, got ");
                push_decimal(&mut s, *value as u64);
            },
            Error::InvalidHistogramBinCount { bins, max } => {
                s.append("histogram bin count must be between 1 and ");
                push_decimal(&mut s, *max as u64);
                s.append(", got ");
                push_decimal(&mut s, *bins as u64);
            },
            Error::SizeOverflow => {
                s.append("buffer size calculation overflowed");
            },
            Error::BufferLimitExceeded { requested, limit } => {
                s.append("requested GPU buffer size ");
                push_decimal(&mut s, *requested);
                s.append(" exceeds the device limit ");
                push_decimal(&mut s, *limit);
            },
            Error::BufferTooSmall { name, required, actual } => {
                s.append(*name);
                s.append(" buffer is too small: requires ");
                push_decimal(&mut s, *required);
                s.append(" bytes, has ");
                push_decimal(&mut s, *actual);
                s.append(" bytes");
            },
            Error::BufferRangeOutOfBounds { name, offset, size, buffer_size } => {
                s.append(*name);
                s.append(" range at byte offset ");
                push_decimal(&mut s, *offset);
                s.append(" with size ");
                push_decimal(&mut s, *size);
                s.append(" exceeds buffer size ");
                push_decimal(&mut s, *buffer_size);
            },
            Error::MisalignedBufferOffset { name, offset, alignment } => {
                s.append(*name);
                s.append(" byte offset ");
                push_decimal(&mut s, *offset);
                s.append(" is not aligned to ");
                push_decimal(&mut s, *alignment);
                s.append(" bytes");
            },
            Error::UnsupportedDynamicExtent { operation } => {
                s.append(*operation);
                s.append(" currently requires a CPU-known input extent");
            },
            Error::MissingBufferUsage { name, required, actual } => {
                s.append(*name);
                s.append(" buffer is missing usage ");
                let required_text = usage_debug(*required);
                s.append(required_text.as_str());
                s.append("; actual usage is ");
                let actual_text = usage_debug(*actual);
                s.append(actual_text.as_str());
            },
            Error::BufferAlias { first, second } => {
                s.append(*first);
                s.append(" and ");
                s.append(*second);
                s.append(" must be distinct buffers");
            },
        }
        proof {
            assert(s@ =~= self.message_spec());
        }
        s
    }
}

} // verus!
