//! DMA buffer alignment, 32-bit window checks and scatter-gather list construction.

use vstd::prelude::*;
use vstd::arithmetic::div_mod::{lemma_fundamental_div_mod, lemma_fundamental_div_mod_converse};
use crate::align::{is_pow2, round_up, is_aligned, align_up, frames_needed, lemma_pow2_mask};

verus! {

/// Standard cache line size on x86_64.
pub const CACHE_LINE_SIZE: u64 = 64;

/// Typical IOMMU/DMA page size (4 KiB).
pub const DMA_PAGE_SIZE: u64 = 0x1000;

/// `true` if `phys_addr` meets the device's DMA alignment `dma_align`.
pub fn dma_is_aligned(phys_addr: u64, dma_align: u64) -> (r: bool)
    requires
        is_pow2(dma_align),
    ensures
        r == (phys_addr % dma_align == 0),
{
    is_aligned(phys_addr, dma_align)
}

/// The first `dma_align`-aligned address at or above `phys_addr`, and the bytes
/// skipped to reach it.
pub fn dma_align_buffer(phys_addr: u64, dma_align: u64) -> (r: (u64, u64))
    requires
        is_pow2(dma_align),
        round_up(phys_addr, dma_align) < 0x1_0000_0000_0000_0000,
    ensures
        r.0 == round_up(phys_addr, dma_align),
        r.1 == r.0 - phys_addr,
{
    let aligned = align_up(phys_addr, dma_align);
    proof {
        lemma_pow2_mask(dma_align);
        vstd::arithmetic::div_mod::lemma_small_mod(
            round_up(phys_addr, dma_align) as nat,
            0x1_0000_0000_0000_0000nat,
        );
    }
    (aligned, aligned - phys_addr)
}

/// A transfer length rounded up to a multiple of `granularity` (wrapping past 2^64).
pub fn dma_round_length(len: u64, granularity: u64) -> (r: u64)
    requires
        is_pow2(granularity),
    ensures
        r as int == round_up(len, granularity) % 0x1_0000_0000_0000_0000,
{
    align_up(len, granularity)
}

/// The number of frames `frames_needed` reports for `len` bytes.
pub open spec fn frames_for(len: u64, frame_size: u64) -> int {
    if round_up(len, frame_size) < 0x1_0000_0000_0000_0000 {
        round_up(len, frame_size) / frame_size as int
    } else {
        0
    }
}

/// Worst-case number of scatter-gather segments for `len` bytes with segments of at
/// most `max_segment_size`: the frames needed plus one for a split at the start.
pub fn dma_sg_segments_needed(len: u64, max_segment_size: u64) -> (r: u64)
    requires
        is_pow2(max_segment_size),
        frames_for(len, max_segment_size) < u64::MAX,
    ensures
        r == frames_for(len, max_segment_size) + 1,
        round_up(len, max_segment_size) < 0x1_0000_0000_0000_0000 ==> r == round_up(
            len,
            max_segment_size,
        ) / max_segment_size as int + 1,
        forall|base: u64|
            len == 0 || base + len + max_segment_size <= 0x1_0000_0000_0000_0000 ==> #[trigger] sg_count(
                base,
                len,
                max_segment_size,
            ) <= r,
{
    proof {
        assert forall|base: u64|
            len == 0 || base + len + max_segment_size <= 0x1_0000_0000_0000_0000 implies #[trigger] sg_count(
                base,
                len,
                max_segment_size,
            ) <= frames_for(len, max_segment_size) + 1 by {
            if len > 0 {
                lemma_segments_needed_bound(base, len, max_segment_size);
            } else {
                lemma_pow2_mask(max_segment_size);
                vstd::arithmetic::div_mod::lemma_small_mod(0nat, max_segment_size as nat);
                assert(round_up(len, max_segment_size) == 0);
            }
        }
    }
    frames_needed(len, max_segment_size) + 1
}

/// The bus address of a physical address: identical, with no IOMMU remapping.
pub fn phys_to_bus(phys: u64) -> (r: u64)
    ensures
        r == phys,
{
    phys
}

/// `true` if the range `[phys, phys + len)` ends at or below 4 GiB.
pub fn fits_in_32bit_dma(phys: u64, len: u64) -> (r: bool)
    ensures
        r == (phys + len <= 0x1_0000_0000),
{
    phys.saturating_add(len) <= 0x1_0000_0000
}


/// How many segments a buffer of `len` bytes at `phys_base` is cut into when no
/// segment may cross a multiple of `boundary`.
pub open spec fn sg_count(phys_base: u64, len: u64, boundary: u64) -> int {
    if len == 0 {
        0
    } else {
        (phys_base + len - 1) / (boundary as int) - (phys_base as int) / (boundary as int) + 1
    }
}

/// `segs` describes `[base, base + len)` in order, cut exactly at the multiples of
/// `boundary`: each segment is non-empty and lies inside one boundary block, each
/// starts where the previous one ended, and each but the last ends on a boundary.
pub open spec fn is_sg_split(segs: Seq<(u64, u64)>, base: u64, len: u64, boundary: u64) -> bool {
    &&& (segs.len() == 0 <==> len == 0)
    &&& segs.len() > 0 ==> segs[0].0 == base
    &&& segs.len() > 0 ==> segs.last().0 + segs.last().1 == base + len
    &&& forall|k: int|
        #![trigger segs[k]]
        0 <= k < segs.len() ==> segs[k].1 > 0 && (segs[k].0 as int / boundary as int) == (segs[k].0
            + segs[k].1 - 1) / (boundary as int)
    &&& forall|k: int|
        #![trigger segs[k]]
        0 <= k < segs.len() - 1 ==> segs[k + 1].0 == segs[k].0 + segs[k].1 && (segs[k].0
            + segs[k].1) % (boundary as int) == 0
}

/// The sum of the segment lengths.
pub open spec fn total_len(segs: Seq<(u64, u64)>) -> int
    decreases segs.len(),
{
    if segs.len() == 0 {
        0
    } else {
        total_len(segs.drop_last()) + segs.last().1
    }
}

/// The first `n` segments of a split cover `[base, end of segment n - 1)`.
proof fn lemma_prefix_len(segs: Seq<(u64, u64)>, base: u64, len: u64, boundary: u64, n: int)
    requires
        is_sg_split(segs, base, len, boundary),
        1 <= n <= segs.len(),
    ensures
        total_len(segs.take(n)) == segs[n - 1].0 + segs[n - 1].1 - base,
    decreases n,
{
    if n > 1 {
        lemma_prefix_len(segs, base, len, boundary, n - 1);
        assert(segs.take(n).drop_last() =~= segs.take(n - 1));
        assert(segs[n - 1].0 == segs[n - 2].0 + segs[n - 2].1);
        assert(segs.take(n).last() == segs[n - 1]);
    } else {
        assert(segs.take(n).drop_last() =~= Seq::<(u64, u64)>::empty());
        assert(segs.take(n).last() == segs[0]);
        assert(total_len(Seq::<(u64, u64)>::empty()) == 0);
    }
}

/// A scatter-gather split loses no byte and counts none twice: its segment lengths
/// add up to the buffer's length.
pub proof fn lemma_sg_total_len(segs: Seq<(u64, u64)>, base: u64, len: u64, boundary: u64)
    requires
        is_sg_split(segs, base, len, boundary),
    ensures
        total_len(segs) == len,
{
    if segs.len() > 0 {
        lemma_prefix_len(segs, base, len, boundary, segs.len() as int);
        assert(segs.take(segs.len() as int) =~= segs);
    }
}

/// The block of `boundary` bytes that holds `addr`, and where the next block starts.
proof fn lemma_block(addr: u64, b: u64)
    requires
        is_pow2(b),
        addr + b < 0x1_0000_0000_0000_0000,
    ensures
        ({
            let be = addr - (addr as int) % (b as int) + b;
            &&& round_up((addr + 1) as u64, b) == be
            &&& be % (b as int) == 0
            &&& be / (b as int) == (addr as int) / (b as int) + 1
            &&& be > addr
            &&& forall|x: int| addr <= x < be ==> #[trigger] (x / (b as int)) == (addr as int) / (b as int)
        }),
{
    lemma_pow2_mask(b);
    let bi = b as int;
    let q = addr as int / bi;
    let r = addr as int % bi;
    lemma_fundamental_div_mod(addr as int, bi);
    let be = addr - r + bi;
    assert(be == (q + 1) * bi) by (nonlinear_arith)
        requires
            addr == bi * q + r,
            be == addr - r + bi,
    ;
    lemma_fundamental_div_mod_converse(be, bi, q + 1, 0);
    assert forall|x: int| addr <= x < be implies #[trigger] (x / bi) == q by {
        assert(x == q * bi + (x - q * bi)) by (nonlinear_arith);
        assert(q * bi == bi * q) by (nonlinear_arith);
        lemma_fundamental_div_mod_converse(x, bi, q, x - q * bi);
    }
    if r == bi - 1 {
        assert(addr + 1 == (q + 1) * bi + 0) by (nonlinear_arith)
            requires
                addr == bi * q + r,
                r == bi - 1,
        ;
        lemma_fundamental_div_mod_converse(addr + 1, bi, q + 1, 0);
    } else {
        assert(addr + 1 == q * bi + (r + 1)) by (nonlinear_arith)
            requires
                addr == bi * q + r,
        ;
        lemma_fundamental_div_mod_converse(addr + 1, bi, q, r + 1);
    }
}

/// Split the physically contiguous buffer `[phys_base, phys_base + len)` into
/// segments that do not cross a multiple of `segment_boundary`, write them as
/// `(address, length)` pairs to the front of `out`, and return how many there are.
///
/// The buffer must end before the last boundary block below 2^64, and `out` must
/// have room for every segment.
pub fn dma_build_sg(phys_base: u64, len: u64, segment_boundary: u64, out: &mut [(u64, u64)]) -> (count: usize)
    requires
        is_pow2(segment_boundary),
        len == 0 || phys_base + len + segment_boundary <= 0x1_0000_0000_0000_0000,
        old(out)@.len() >= sg_count(phys_base, len, segment_boundary),
    ensures
        count == sg_count(phys_base, len, segment_boundary),
        final(out)@.len() == old(out)@.len(),
        is_sg_split(final(out)@.take(count as int), phys_base, len, segment_boundary),
        forall|k: int| count <= k < old(out)@.len() ==> final(out)@[k] == old(out)@[k],
{
    let ghost b = segment_boundary as int;
    proof {
        lemma_pow2_mask(segment_boundary);
    }
    let mut remaining = len;
    let mut addr = phys_base;
    let mut count: usize = 0;
    while remaining > 0
        invariant
            is_pow2(segment_boundary),
            b == segment_boundary,
            b > 0,
            len == 0 || phys_base + len + segment_boundary <= 0x1_0000_0000_0000_0000,
            out@.len() == old(out)@.len(),
            out@.len() >= sg_count(phys_base, len, segment_boundary),
            remaining <= len,
            addr == phys_base + (len - remaining),
            count <= out@.len(),
            remaining > 0 ==> (addr as int) / b == (phys_base as int) / b + count,
            remaining > 0 && count > 0 ==> (addr as int) % b == 0,
            count > 0 ==> (addr - 1) / b == (phys_base as int) / b + count - 1,
            count == 0 ==> addr == phys_base,
            len == 0 ==> count == 0,
            remaining < len ==> count > 0,
            count > 0 ==> out@[0].0 == phys_base,
            count > 0 ==> out@[count - 1].0 + out@[count - 1].1 == addr,
            forall|k: int|
                #![trigger out@[k]]
                0 <= k < count ==> out@[k].1 > 0 && (out@[k].0 as int / b) == (out@[k].0
                    + out@[k].1 - 1) / b,
            forall|k: int|
                #![trigger out@[k]]
                0 <= k < count - 1 ==> out@[k + 1].0 == out@[k].0 + out@[k].1 && (
                out@[k].0 + out@[k].1) % b == 0,
            forall|k: int| count <= k < out@.len() ==> out@[k] == old(out)@[k],
        decreases remaining,
    {
        proof {
            lemma_block(addr, segment_boundary);
            vstd::arithmetic::div_mod::lemma_div_is_ordered(
                addr as int,
                phys_base + len - 1,
                b,
            );
        }
        let boundary_end = align_up(addr + 1, segment_boundary);
        proof {
            vstd::arithmetic::div_mod::lemma_small_mod(
                round_up((addr + 1) as u64, segment_boundary) as nat,
                0x1_0000_0000_0000_0000nat,
            );
        }
        let to_boundary = boundary_end - addr;
        let chunk = if to_boundary < remaining {
            to_boundary
        } else {
            remaining
        };
        proof {
            assert(chunk > 0);
            let last = addr + chunk - 1;
            assert(addr <= last < boundary_end);
            assert((last / b) == (addr as int) / b);
        }
        let ghost prev = out@;
        out[count] = (addr, chunk);
        proof {
            assert forall|k: int| 0 <= k < count + 1 implies #[trigger] out@[k].1 > 0 && (
            out@[k].0 as int / b) == (out@[k].0 + out@[k].1 - 1) / b by {
                if k < count {
                    assert(out@[k] == prev[k]);
                    assert((prev[k].0 as int / b) == (prev[k].0 + prev[k].1 - 1) / b);
                }
            }
            assert forall|k: int| 0 <= k < count implies out@[k + 1].0 == #[trigger] out@[k].0
                + out@[k].1 && (out@[k].0 + out@[k].1) % b == 0 by {
                assert(out@[k] == prev[k]);
                if k + 1 < count {
                    assert(out@[k + 1] == prev[k + 1]);
                    assert(prev[k + 1].0 == prev[k].0 + prev[k].1);
                }
            }
        }
        count = count + 1;
        addr = addr + chunk;
        remaining = remaining - chunk;
    }
    proof {
        let segs = out@.take(count as int);
        assert(segs.len() == count);
        assert forall|k: int| 0 <= k < count implies segs[k] == out@[k] by {}
        assert(segs.len() == 0 <==> len == 0);
        assert(segs.len() > 0 ==> segs[0].0 == phys_base);
        assert(segs.len() > 0 ==> segs.last().0 + segs.last().1 == phys_base + len);
        assert forall|k: int| 0 <= k < segs.len() implies #[trigger] segs[k].1 > 0 && (
        segs[k].0 as int / b) == (segs[k].0 + segs[k].1 - 1) / b by {
            assert((out@[k].0 as int / b) == (out@[k].0 + out@[k].1 - 1) / b);
        }
        assert forall|k: int| 0 <= k < segs.len() - 1 implies segs[k + 1].0 == #[trigger] segs[k].0
            + segs[k].1 && (segs[k].0 + segs[k].1) % b == 0 by {
            assert(out@[k + 1].0 == out@[k].0 + out@[k].1);
        }
    }
    count
}

/// Wherever a buffer of `len` bytes is placed, splitting it at multiples of `size`
/// gives at most `ceil(len / size) + 1` segments, which is what
/// `dma_sg_segments_needed` returns: a list of that many entries is never too small.
pub proof fn lemma_segments_needed_bound(base: u64, len: u64, size: u64)
    requires
        is_pow2(size),
        len > 0,
        base + len + size <= 0x1_0000_0000_0000_0000,
    ensures
        round_up(len, size) < 0x1_0000_0000_0000_0000,
        frames_for(len, size) == round_up(len, size) / size as int,
        sg_count(base, len, size) <= frames_for(len, size) + 1,
{
    lemma_pow2_mask(size);
    let si = size as int;
    let q = base as int / si;
    let r = base as int % si;
    let a = len as int / si;
    let b = len as int % si;
    lemma_fundamental_div_mod(base as int, si);
    lemma_fundamental_div_mod(len as int, si);
    assert(0 <= r < si && 0 <= b < si);
    let e = base + len - 1;
    if b == 0 {
        assert(round_up(len, size) == len);
        assert(len as int == a * si) by (nonlinear_arith)
            requires
                len as int == si * a + b,
                b == 0,
        ;
        lemma_fundamental_div_mod_converse(len as int, si, a, 0);
        if r == 0 {
            assert(e == (q + a - 1) * si + (si - 1)) by (nonlinear_arith)
                requires
                    base as int == si * q + r,
                    len as int == a * si,
                    r == 0,
                    e == base + len - 1,
            ;
            lemma_fundamental_div_mod_converse(e, si, q + a - 1, si - 1);
        } else {
            assert(e == (q + a) * si + (r - 1)) by (nonlinear_arith)
                requires
                    base as int == si * q + r,
                    len as int == a * si,
                    e == base + len - 1,
            ;
            lemma_fundamental_div_mod_converse(e, si, q + a, r - 1);
        }
    } else {
        let up = len - b + si;
        assert(round_up(len, size) == up);
        assert(up == (a + 1) * si) by (nonlinear_arith)
            requires
                len as int == si * a + b,
                up == len - b + si,
        ;
        lemma_fundamental_div_mod_converse(up, si, a + 1, 0);
        if r + b - 1 < si {
            assert(e == (q + a) * si + (r + b - 1)) by (nonlinear_arith)
                requires
                    base as int == si * q + r,
                    len as int == si * a + b,
                    e == base + len - 1,
            ;
            lemma_fundamental_div_mod_converse(e, si, q + a, r + b - 1);
        } else {
            assert(e == (q + a + 1) * si + (r + b - 1 - si)) by (nonlinear_arith)
                requires
                    base as int == si * q + r,
                    len as int == si * a + b,
                    e == base + len - 1,
            ;
            lemma_fundamental_div_mod_converse(e, si, q + a + 1, r + b - 1 - si);
        }
    }
}

} // verus!
