//! General-purpose bit manipulation on `u64` values.

use vstd::prelude::*;
use crate::align::is_pow2;

verus! {

broadcast use vstd::std_specs::bits::axiom_u64_trailing_zeros;

/// Bit `j` of `x` is set (bit 0 is the least significant).
pub open spec fn bit_at(x: u64, j: u64) -> bool {
    (x >> j) & 1u64 == 1u64
}

/// The 64 bits of `x`, least significant first.
pub open spec fn bits_of(x: u64) -> Seq<bool> {
    Seq::new(64, |j: int| bit_at(x, j as u64))
}

/// How many entries of `s` are `true`.
pub open spec fn count_true(s: Seq<bool>) -> nat
    decreases s.len(),
{
    if s.len() == 0 {
        0
    } else {
        count_true(s.drop_last()) + if s.last() {
            1nat
        } else {
            0nat
        }
    }
}

/// The number of set bits of `x`.
pub open spec fn popcount_spec(x: u64) -> nat {
    count_true(bits_of(x))
}

/// `i` is the index of the lowest set bit of `n`.
pub open spec fn is_lowest_set_bit(n: u64, i: u64) -> bool {
    &&& i < 64
    &&& bit_at(n, i)
    &&& forall|j: u64| j < i ==> !bit_at(n, j)
}

/// `i` is the index of the highest set bit of `n`.
pub open spec fn is_highest_set_bit(n: u64, i: u64) -> bool {
    &&& i < 64
    &&& bit_at(n, i)
    &&& forall|j: u64| i < j < 64 ==> !bit_at(n, j)
}

/// The low `w` bits set, for `w` up to 64.
pub open spec fn low_mask(w: u64) -> u64 {
    if w >= 64 {
        0xffff_ffff_ffff_ffffu64
    } else {
        ((1u64 << w) - 1) as u64
    }
}

/// The field of bits `high..=low` of `value`, shifted down to bit 0.
pub open spec fn field_extract(value: u64, high: u64, low: u64) -> u64 {
    (value >> low) & low_mask((high - low + 1) as u64)
}

/// `value` with bits `high..=low` replaced by the low bits of `field`.
pub open spec fn field_insert(value: u64, high: u64, low: u64, field: u64) -> u64 {
    (value & !(low_mask((high - low + 1) as u64) << low)) | ((field & low_mask(
        (high - low + 1) as u64,
    )) << low)
}

/// Single-bit updates and whole-word constants, described bit by bit.
pub proof fn lemma_single_bit_updates()
    by (bit_vector)
    ensures
        forall|v: u64, j: u64|
            j < 64 ==> ((#[trigger] ((!v) >> j) & 1u64 == 1u64) <==> !((v >> j) & 1u64 == 1u64)),
        forall|j: u64| j < 64 ==> #[trigger] ((0xffff_ffff_ffff_ffffu64 >> j) & 1u64) == 1u64,
        forall|j: u64| j < 64 ==> #[trigger] ((0u64 >> j) & 1u64) == 0u64,
        forall|v: u64| v != 0xffff_ffff_ffff_ffffu64 ==> #[trigger] (!v) != 0,
        forall|v: u64, m: u64| #[trigger] ((v ^ m) ^ m) == v,
        forall|v: u64, n: u64, j: u64|
            n < 64 && j < 64 ==> ((#[trigger] ((v | (1u64 << n)) >> j) & 1u64 == 1u64) <==> (j
                == n || (v >> j) & 1u64 == 1u64)),
        forall|v: u64, n: u64, j: u64|
            n < 64 && j < 64 ==> ((#[trigger] ((v & !(1u64 << n)) >> j) & 1u64 == 1u64) <==> (j
                != n && (v >> j) & 1u64 == 1u64)),
        forall|v: u64, n: u64, j: u64|
            n < 64 && j < 64 ==> ((#[trigger] ((v ^ (1u64 << n)) >> j) & 1u64 == 1u64) <==> (((v
                >> j) & 1u64 == 1u64) != (j == n))),
{
}

/// Power-of-two facts: the `x & (x - 1)` test, and the lowest set bit `x & -x`.
proof fn lemma_pow2_bits()
    by (bit_vector)
    ensures
        forall|k: u64|
            k < 64 ==> #[trigger] (1u64 << k) != 0 && (1u64 << k) & (((1u64 << k) - 1) as u64)
                == 0,
        forall|n: u64, k: u64|
            k < 64 && n & ((n - 1) as u64) == 0 && #[trigger] ((n >> k) & 1u64) == 1u64 ==> n == (
            1u64 << k),
        forall|n: u64|
            #![trigger (n & ((0x1_0000_0000_0000_0000 - n) as u64))]
            ({
                let m = n & ((0x1_0000_0000_0000_0000 - n) as u64);
                &&& m & ((m - 1) as u64) == 0
                &&& m & n == m
                &&& n & ((m - 1) as u64) == 0
                &&& (n != 0 ==> m != 0)
                &&& (n != 0 ==> n & ((n - 1) as u64) == n & !m)
            }),
        forall|n: u64, t: u64, j: u64|
            t < 64 && j < t && #[trigger] (n & (((1u64 << t) - 1) as u64)) == 0 ==> #[trigger] ((n
                >> j) & 1u64) == 0,
        forall|n: u64, t: u64|
            t < 64 && #[trigger] ((1u64 << t) & n) == (1u64 << t) ==> (n >> t) & 1u64 == 1u64,
        forall|x: u64| #[trigger] (0u64 & x) == 0,
{
}

/// Magnitude facts used to bracket a value between powers of two.
proof fn lemma_magnitude_bits()
    by (bit_vector)
    ensures
        forall|x: u64, s: u64| 1 <= s <= 63 && #[trigger] (x >> s) == 0 ==> x < (1u64 << s),
        forall|x: u64, s: u64| s < 64 && #[trigger] ((x >> s) & 1u64) != 0 ==> x >= (1u64 << s),
        forall|s: u64| 1 <= s <= 63 ==> #[trigger] ((1u64 << s) / 2) == (1u64 << ((s - 1) as u64)),
        forall|y: u64| #[trigger] (y & 1u64) != 0 ==> (y & 1u64) == 1u64,
{
}

/// Field extraction, insertion and masks, described bit by bit.
proof fn lemma_field_bits()
    by (bit_vector)
    ensures
        forall|v: u64, w: u64, lo: u64, j: u64|
            1 <= w && w + lo <= 64 && j < 64 ==> ((#[trigger] (((v >> lo) & low_mask(w)) >> j)
                & 1u64 == 1u64) <==> (j < w && (v >> ((j + lo) as u64)) & 1u64 == 1u64)),
        forall|v: u64, f: u64, w: u64, lo: u64, j: u64|
            1 <= w && w + lo <= 64 && j < 64 ==> ((#[trigger] ((((v & !(low_mask(w) << lo)) | ((f
                & low_mask(w)) << lo)) >> j) & 1u64) == 1u64) <==> if lo <= j && j < w + lo {
                (f >> ((j - lo) as u64)) & 1u64 == 1u64
            } else {
                (v >> j) & 1u64 == 1u64
            }),
        forall|w: u64, lo: u64, j: u64|
            1 <= w && w + lo <= 64 && j < 64 ==> ((#[trigger] ((low_mask(w) << lo) >> j) & 1u64
                == 1u64) <==> (lo <= j && j < w + lo)),
{
}

/// Reading back an inserted field, and the mask as an inserted all-ones field.
proof fn lemma_field_roundtrips()
    by (bit_vector)
    ensures
        forall|v: u64, f: u64, w: u64, lo: u64|
            1 <= w && w + lo <= 64 ==> #[trigger] ((((v & !(low_mask(w) << lo)) | ((f & low_mask(
                w)) << lo)) >> lo) & low_mask(w)) == f & low_mask(w),
        forall|w: u64, lo: u64|
            1 <= w && w + lo <= 64 ==> #[trigger] ((0u64 & !(low_mask(w) << lo)) | ((
            0xffff_ffff_ffff_ffffu64 & low_mask(w)) << lo)) == low_mask(w) << lo,
{
}

/// Set bit `n` in `value`.
pub fn bit_set(value: u64, n: u32) -> (r: u64)
    requires
        n < 64,
    ensures
        r == value | (1u64 << n),
        forall|j: u64| j < 64 ==> (bit_at(r, j) <==> (j == n || bit_at(value, j))),
{
    proof {
        lemma_single_bit_updates();
    }
    value | (1u64 << n)
}

/// Clear bit `n` in `value`.
pub fn bit_clear(value: u64, n: u32) -> (r: u64)
    requires
        n < 64,
    ensures
        r == value & !(1u64 << n),
        forall|j: u64| j < 64 ==> (bit_at(r, j) <==> (j != n && bit_at(value, j))),
{
    proof {
        lemma_single_bit_updates();
    }
    value & !(1u64 << n)
}

/// Toggle bit `n` in `value`.
pub fn bit_toggle(value: u64, n: u32) -> (r: u64)
    requires
        n < 64,
    ensures
        r == value ^ (1u64 << n),
        forall|j: u64| j < 64 ==> (bit_at(r, j) <==> (bit_at(value, j) != (j == n))),
{
    proof {
        lemma_single_bit_updates();
    }
    value ^ (1u64 << n)
}

/// `true` if bit `n` of `value` is set.
pub fn bit_test(value: u64, n: u32) -> (r: bool)
    requires
        n < 64,
    ensures
        r == bit_at(value, n as u64),
{
    (value >> n) & 1 == 1
}

/// The field of bits `high..=low` of `value`, shifted down to bit 0.
pub fn bit_field_get(value: u64, high: u32, low: u32) -> (r: u64)
    requires
        low <= high < 64,
    ensures
        r == field_extract(value, high as u64, low as u64),
        forall|j: u64|
            j < 64 ==> (bit_at(r, j) <==> (j <= high - low && bit_at(value, (j + low) as u64))),
{
    let width = high - low + 1;
    proof {
        lemma_pow2_bits();
    }
    let mask = if width == 64 {
        u64::MAX
    } else {
        (1u64 << width) - 1
    };
    proof {
        lemma_field_bits();
        assert(mask == low_mask(width as u64));
    }
    (value >> low) & mask
}


/// Insert `field` into bits `high..=low` of `value`; every other bit of `value` is kept.
/// Bits of `field` above the field's width are dropped.
pub fn bit_field_set(value: u64, high: u32, low: u32, field: u64) -> (r: u64)
    requires
        low <= high < 64,
    ensures
        r == field_insert(value, high as u64, low as u64, field),
        forall|j: u64|
            j < 64 ==> (bit_at(r, j) <==> if low <= j <= high {
                bit_at(field, (j - low) as u64)
            } else {
                bit_at(value, j)
            }),
{
    let width = high - low + 1;
    proof {
        lemma_pow2_bits();
    }
    let mask = if width == 64 {
        u64::MAX
    } else {
        (1u64 << width) - 1
    };
    let positioned_mask = mask << low;
    let positioned_field = (field & mask) << low;
    proof {
        lemma_field_bits();
        assert(mask == low_mask(width as u64));
    }
    (value & !positioned_mask) | positioned_field
}

/// A mask with exactly the bits `high..=low` set.
pub fn bit_mask(high: u32, low: u32) -> (r: u64)
    requires
        low <= high < 64,
    ensures
        r == low_mask((high - low + 1) as u64) << low,
        forall|j: u64| j < 64 ==> (bit_at(r, j) <==> low <= j <= high),
{
    let width = high - low + 1;
    proof {
        lemma_pow2_bits();
    }
    let base = if width == 64 {
        u64::MAX
    } else {
        (1u64 << width) - 1
    };
    proof {
        lemma_field_bits();
        assert(base == low_mask(width as u64));
    }
    base << low
}

/// `true` if `n` is a power of two.
pub fn is_power_of_two(n: u64) -> (r: bool)
    ensures
        r == is_pow2(n),
{
    let r = n != 0 && (n & n.wrapping_sub(1)) == 0;
    proof {
        lemma_pow2_bits();
        if r {
            let k = n.trailing_zeros() as u64;
            assert((n >> k) & 1u64 == 1u64);
            assert(n == 1u64 << k);
        }
        if is_pow2(n) {
            let k = choose|k: u64| k < 64 && n == 1u64 << k;
            assert((1u64 << k) != 0);
        }
    }
    r
}

/// The smallest power of two that is at least `n` (1 for 0 and 1).
pub fn next_power_of_two(n: u64) -> (r: u64)
    requires
        n <= 0x8000_0000_0000_0000,
    ensures
        is_pow2(r),
        n <= r,
        r == 1 || r / 2 < n,
{
    proof {
        lemma_pow2_bits();
        lemma_magnitude_bits();
    }
    if n <= 1 {
        assert(1u64 == 1u64 << 0u64) by (bit_vector);
        return 1;
    }
    let leading = (n - 1).leading_zeros();
    proof {
        broadcast use vstd::std_specs::bits::axiom_u64_leading_zeros;

        let x = (n - 1) as u64;
        let lz = leading as u64;
        assert(lz >= 1) by {
            if lz == 0 {
                assert((x >> 63u64) & 1u64 != 0);
                assert(x >= (1u64 << 63u64));
                assert((1u64 << 63u64) == 0x8000_0000_0000_0000u64) by (bit_vector);
            }
        }
        let s = (64 - lz) as u64;
        assert(x >> s == 0);
        assert(x < (1u64 << s));
        assert((x >> ((s - 1) as u64)) & 1u64 != 0);
        assert(x >= (1u64 << ((s - 1) as u64)));
        assert((1u64 << s) / 2 == (1u64 << ((s - 1) as u64)));
    }
    1u64 << (64 - leading)
}

/// Isolate the lowest set bit of `n`; 0 when `n` is 0.
pub fn lowest_set_bit(n: u64) -> (r: u64)
    ensures
        n == 0 ==> r == 0,
        n != 0 ==> is_lowest_set_bit(n, n.trailing_zeros() as u64) && r == 1u64 << n.trailing_zeros(),
{
    let r = n & 0u64.wrapping_sub(n);
    proof {
        lemma_pow2_bits();
        if n == 0 {
            assert(r == 0u64 & 0u64);
        } else {
            lemma_lowest_bit_of(n);
            assert(r == n & ((0x1_0000_0000_0000_0000 - n) as u64));
        }
    }
    r
}

/// Facts that tie `n & -n` and `trailing_zeros` to the lowest set bit of `n`.
proof fn lemma_lowest_bit_of(n: u64)
    requires
        n != 0,
    ensures
        ({
            let m = n & ((0x1_0000_0000_0000_0000 - n) as u64);
            let t = n.trailing_zeros() as u64;
            &&& t < 64
            &&& is_lowest_set_bit(n, t)
            &&& m == 1u64 << t
            &&& n & ((n - 1) as u64) == n & !(1u64 << t)
        }),
{
    lemma_pow2_bits();
    let m = n & ((0x1_0000_0000_0000_0000 - n) as u64);
    let t = n.trailing_zeros() as u64;
    assert(t < 64);
    assert((n >> t) & 1u64 == 1u64);
    let k = m.trailing_zeros() as u64;
    assert((m >> k) & 1u64 == 1u64);
    assert(m == 1u64 << k);
    assert((n >> k) & 1u64 == 1u64);
    assert forall|j: u64| j < k implies (n >> j) & 1u64 == 0 by {
        assert(n & (((1u64 << k) - 1) as u64) == 0);
    }
    if k < t {
        assert((n >> k) & 1u64 == 0u64);
    }
    if t < k {
        assert((n >> t) & 1u64 == 0);
    }
    assert(k == t);
}


/// Clear the lowest set bit of `n`.
pub fn clear_lowest_set_bit(n: u64) -> (r: u64)
    requires
        n != 0,
    ensures
        is_lowest_set_bit(n, n.trailing_zeros() as u64),
        r == n & !(1u64 << n.trailing_zeros()),
        forall|j: u64|
            j < 64 ==> (bit_at(r, j) <==> (j != n.trailing_zeros() && bit_at(n, j))),
{
    proof {
        lemma_lowest_bit_of(n);
        lemma_single_bit_updates();
    }
    n & (n - 1)
}

/// The index of the lowest set bit, or `None` when `n` is 0.
pub fn lowest_set_bit_index(n: u64) -> (r: Option<u32>)
    ensures
        r is None <==> n == 0,
        r matches Some(i) ==> is_lowest_set_bit(n, i as u64),
{
    if n == 0 {
        None
    } else {
        proof {
            lemma_lowest_bit_of(n);
        }
        Some(n.trailing_zeros())
    }
}

/// The index of the highest set bit (floor of log2), or `None` when `n` is 0.
pub fn highest_set_bit_index(n: u64) -> (r: Option<u32>)
    ensures
        r is None <==> n == 0,
        r matches Some(i) ==> is_highest_set_bit(n, i as u64),
{
    if n == 0 {
        None
    } else {
        let lz = n.leading_zeros();
        proof {
            broadcast use vstd::std_specs::bits::axiom_u64_leading_zeros;

            lemma_magnitude_bits();
            let h = (63 - lz) as u64;
            assert((n >> h) & 1u64 != 0);
            assert((n >> h) & 1u64 == 1u64);
            assert forall|j: u64| h < j < 64 implies !bit_at(n, j) by {
                assert((n >> j) & 1u64 == 0u64);
            }
        }
        Some(63 - lz)
    }
}

/// The number of set bits of `n`.
pub fn popcount(n: u64) -> (r: u32)
    ensures
        r == popcount_spec(n),
        r <= 64,
{
    let mut count: u32 = 0;
    let mut i: u64 = 0;
    while i < 64
        invariant
            i <= 64,
            count <= i,
            count == count_true(bits_of(n).take(i as int)),
        decreases 64 - i,
    {
        proof {
            assert(bits_of(n).take(i + 1).drop_last() =~= bits_of(n).take(i as int));
        }
        if (n >> i) & 1 == 1 {
            count = count + 1;
        }
        i = i + 1;
    }
    proof {
        assert(bits_of(n).take(64) =~= bits_of(n));
    }
    count
}

/// `true` if `n` has an even number of set bits.
pub fn even_parity(n: u64) -> (r: bool)
    ensures
        r == (popcount_spec(n) % 2 == 0),
{
    popcount(n) % 2 == 0
}


/// Toggling the same bit twice gives the value back.
pub proof fn lemma_toggle_twice(value: u64, n: u32)
    requires
        n < 64,
    ensures
        (value ^ (1u64 << n)) ^ (1u64 << n) == value,
{
    lemma_single_bit_updates();
}

/// Extracting a field just inserted gives back the inserted value, cut to the
/// field's width.
pub proof fn lemma_field_set_get(value: u64, high: u32, low: u32, field: u64)
    requires
        low <= high < 64,
    ensures
        field_extract(field_insert(value, high as u64, low as u64, field), high as u64, low as u64)
            == field & low_mask((high - low + 1) as u64),
{
    lemma_field_roundtrips();
}

/// The mask of a field is the all-ones value inserted into that field of zero.
pub proof fn lemma_mask_is_inserted_ones(high: u32, low: u32)
    requires
        low <= high < 64,
    ensures
        low_mask((high - low + 1) as u64) << low == field_insert(
            0,
            high as u64,
            low as u64,
            0xffff_ffff_ffff_ffff,
        ),
{
    lemma_field_roundtrips();
}

/// The isolated lowest set bit is a power of two.
pub proof fn lemma_lowest_set_bit_is_pow2(n: u64)
    requires
        n != 0,
    ensures
        is_pow2(1u64 << n.trailing_zeros()),
{
    assert(n.trailing_zeros() < 64);
    let k = n.trailing_zeros() as u64;
    assert(k < 64 && (1u64 << n.trailing_zeros()) == 1u64 << k);
}

/// Clearing a `true` entry lowers `count_true` by one.
proof fn lemma_count_true_clear(s: Seq<bool>, i: int)
    requires
        0 <= i < s.len(),
        s[i],
    ensures
        count_true(s.update(i, false)) + 1 == count_true(s),
    decreases s.len(),
{
    if i < s.len() - 1 {
        lemma_count_true_clear(s.drop_last(), i);
        assert(s.update(i, false).drop_last() =~= s.drop_last().update(i, false));
    } else {
        assert(s.update(i, false).drop_last() =~= s.drop_last());
    }
}

/// Clearing the lowest set bit removes exactly one set bit, so clearing until zero
/// takes `popcount` steps.
pub proof fn lemma_clear_lowest_popcount(n: u64)
    requires
        n != 0,
    ensures
        popcount_spec(n & !(1u64 << n.trailing_zeros())) + 1 == popcount_spec(n),
{
    lemma_lowest_bit_of(n);
    lemma_single_bit_updates();
    let t = n.trailing_zeros();
    let r = n & !(1u64 << t);
    assert(bits_of(r) =~= bits_of(n).update(t as int, false));
    lemma_count_true_clear(bits_of(n), t as int);
}

/// The lowest set bit and what `clear_lowest_set_bit` leaves are disjoint and
/// together make up `n`: a loop that takes the lowest bit and clears it visits
/// every set bit once.
pub proof fn lemma_lowest_split(n: u64)
    requires
        n != 0,
    ensures
        (1u64 << n.trailing_zeros()) | (n & !(1u64 << n.trailing_zeros())) == n,
        (1u64 << n.trailing_zeros()) & (n & !(1u64 << n.trailing_zeros())) == 0,
{
    lemma_lowest_bit_of(n);
    let t = n.trailing_zeros() as u64;
    assert(((n >> t) & 1u64 == 1u64 && t < 64) ==> ((1u64 << t) | (n & !(1u64 << t)) == n
        && (1u64 << t) & (n & !(1u64 << t)) == 0)) by (bit_vector);
}

} // verus!
