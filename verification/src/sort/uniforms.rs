use vstd::prelude::*;

verus! {

/// The byte stride between per-pass uniform records: the record size rounded
/// up to the device's uniform-offset alignment.
pub fn uniform_stride(min_uniform_alignment: u32, record_bytes: u64) -> (r: u64)
    ensures
        r == (if min_uniform_alignment as u64 >= record_bytes {
            min_uniform_alignment as u64
        } else {
            record_bytes
        }),
{
    let a = min_uniform_alignment as u64;
    if a >= record_bytes {
        a
    } else {
        record_bytes
    }
}

/// Word `j` of pass `p`'s four-word record `[p * bits, items, blocks, 0]`.
pub open spec fn radix_uniform_word(p: int, j: int, bits: u32, items: u32, blocks: u32) -> u32 {
    if j == 0 {
        (p * bits) as u32
    } else if j == 1 {
        items
    } else if j == 2 {
        blocks
    } else {
        0
    }
}

/// Per-pass uniform records of `words_per_record` words each, holding the
/// pass's key shift, the item count and the block count.
pub fn radix_uniforms(pass_count: u32, words_per_record: u32, bits: u32, items: u32, blocks: u32) -> (r:
    Vec<u32>)
    requires
        words_per_record >= 4,
        pass_count * bits <= u32::MAX,
    ensures
        r@.len() == pass_count * words_per_record,
        forall|i: int|
            0 <= i < r@.len() ==> #[trigger] r@[i] == radix_uniform_word(
                i / words_per_record as int,
                i % words_per_record as int,
                bits,
                items,
                blocks,
            ),
        forall|p: int|
            0 <= p < pass_count ==> {
                &&& #[trigger] r@[p * words_per_record] == p * bits
                &&& r@[p * words_per_record + 1] == items
                &&& r@[p * words_per_record + 2] == blocks
            },
{
    let mut data: Vec<u32> = Vec::new();
    let mut p: u32 = 0;
    while p < pass_count
        invariant
            p <= pass_count,
            words_per_record >= 4,
            pass_count * bits <= u32::MAX,
            data@.len() == p * words_per_record,
            forall|i: int|
                0 <= i < data@.len() ==> #[trigger] data@[i] == radix_uniform_word(
                    i / words_per_record as int,
                    i % words_per_record as int,
                    bits,
                    items,
                    blocks,
                ),
        decreases pass_count - p,
    {
        assert(p * bits <= pass_count * bits) by (nonlinear_arith)
            requires
                p <= pass_count,
        ;
        let mut j: u32 = 0;
        let ghost base = data@.len();
        while j < words_per_record
            invariant
                p < pass_count,
                words_per_record >= 4,
                p * bits <= u32::MAX,
                base == p * words_per_record,
                data@.len() == base + j,
                j <= words_per_record,
                forall|i: int|
                    0 <= i < data@.len() ==> #[trigger] data@[i] == radix_uniform_word(
                        i / words_per_record as int,
                        i % words_per_record as int,
                        bits,
                        items,
                        blocks,
                    ),
            decreases words_per_record - j,
        {
            let word = if j == 0 {
                p * bits
            } else if j == 1 {
                items
            } else if j == 2 {
                blocks
            } else {
                0
            };
            proof {
                let i = base + j;
                assert(i / words_per_record as int == p && i % words_per_record as int == j)
                    by (nonlinear_arith)
                    requires
                        i == p * words_per_record + j,
                        0 <= j < words_per_record,
                ;
            }
            data.push(word);
            j = j + 1;
        }
        assert((p + 1) * words_per_record == p * words_per_record + words_per_record)
            by (nonlinear_arith);
        p = p + 1;
    }
    assert forall|p: int| 0 <= p < pass_count implies {
        &&& #[trigger] data@[p * words_per_record] == p * bits
        &&& data@[p * words_per_record + 1] == items
        &&& data@[p * words_per_record + 2] == blocks
    } by {
        let w = words_per_record as int;
        assert(p * w + 2 < pass_count * w) by (nonlinear_arith)
            requires
                0 <= p < pass_count,
                w >= 4,
        ;
        lemma_record_word(p, w, 0);
        lemma_record_word(p, w, 1);
        lemma_record_word(p, w, 2);
        assert(p * w + 0 == p * w);
        assert(data@[p * w] == radix_uniform_word(p, 0, bits, items, blocks));
        assert(data@[p * w + 1] == radix_uniform_word(p, 1, bits, items, blocks));
        assert(data@[p * w + 2] == radix_uniform_word(p, 2, bits, items, blocks));
        assert(0 <= p * bits <= pass_count * bits) by (nonlinear_arith)
            requires
                0 <= p < pass_count,
        ;
    }
    data
}

pub proof fn lemma_record_word(p: int, w: int, j: int)
    requires
        p >= 0,
        0 <= j < w,
    ensures
        (p * w + j) / w == p,
        (p * w + j) % w == j,
{
    assert((p * w + j) / w == p && (p * w + j) % w == j) by (nonlinear_arith)
        requires
            p >= 0,
            0 <= j < w,
    ;
}

/// The radix passes sort every key bit exactly once: pass `p` shifts by
/// `p * bits`, the first starts at bit zero, each starts where the one
/// before it ended and the last ends at `pass_count * bits`, so together they
/// cover bits `0..pass_count * bits` with no bit twice.
pub proof fn lemma_radix_pass_shifts(pass_count: u32, bits: u32, items: u32, blocks: u32)
    requires
        bits > 0,
        pass_count * bits <= u32::MAX,
    ensures
        forall|p: int| 0 <= p < pass_count ==> #[trigger] radix_uniform_word(p, 0, bits, items, blocks) == p * bits,
        radix_uniform_word(0, 0, bits, items, blocks) == 0,
        forall|p: int|
            0 <= p < pass_count - 1 ==> #[trigger] radix_uniform_word(p + 1, 0, bits, items, blocks)
                == radix_uniform_word(p, 0, bits, items, blocks) + bits,
        pass_count > 0 ==> radix_uniform_word(pass_count - 1, 0, bits, items, blocks) + bits == pass_count * bits,
        forall|p: int, q: int|
            0 <= p < q < pass_count ==> #[trigger] radix_uniform_word(p, 0, bits, items, blocks) + bits
                <= #[trigger] radix_uniform_word(q, 0, bits, items, blocks),
{
    assert forall|p: int| 0 <= p < pass_count implies #[trigger] radix_uniform_word(p, 0, bits, items, blocks)
        == p * bits by {
        assert(0 <= p * bits <= pass_count * bits) by (nonlinear_arith)
            requires
                0 <= p < pass_count,
        ;
    }
    assert forall|p: int| 0 <= p < pass_count - 1 implies #[trigger] radix_uniform_word(p + 1, 0, bits, items, blocks)
        == radix_uniform_word(p, 0, bits, items, blocks) + bits by {
        assert(radix_uniform_word(p + 1, 0, bits, items, blocks) == (p + 1) * bits);
        assert((p + 1) * bits == p * bits + bits) by (nonlinear_arith);
    }
    if pass_count > 0 {
        assert(radix_uniform_word(pass_count - 1, 0, bits, items, blocks) == (pass_count - 1) * bits);
        assert((pass_count - 1) * bits + bits == pass_count * bits) by (nonlinear_arith);
    }
    assert forall|p: int, q: int| 0 <= p < q < pass_count implies #[trigger] radix_uniform_word(
        p,
        0,
        bits,
        items,
        blocks,
    ) + bits <= #[trigger] radix_uniform_word(q, 0, bits, items, blocks) by {
        assert(radix_uniform_word(p, 0, bits, items, blocks) == p * bits);
        assert(radix_uniform_word(q, 0, bits, items, blocks) == q * bits);
        assert(p * bits + bits <= q * bits) by (nonlinear_arith)
            requires
                0 <= p < q,
                bits > 0,
        ;
    }
}

} // verus!
