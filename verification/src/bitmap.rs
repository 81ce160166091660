//! A fixed-size bitset backed by `N` 64-bit words, as used by frame allocators.

use vstd::prelude::*;
use vstd::arithmetic::power2::{pow2, lemma2_to64};
use vstd::set_lib::{set_int_range, lemma_int_range, lemma_len_subset};
use vstd::bits::{low_bits_mask, lemma_usize_shr_is_div, lemma_usize_low_bits_mask_is_mod};
use crate::bits::{
    bit_at, bits_of, count_true, is_lowest_set_bit, lemma_single_bit_updates, bit_set, bit_clear,
    bit_test, lowest_set_bit_index, clear_lowest_set_bit, popcount,
};

verus! {

/// The bits of a word sequence, word 0 first and each word least significant bit first.
pub open spec fn words_view(words: Seq<u64>) -> Seq<bool> {
    Seq::new(words.len() * 64, |i: int| bit_at(words[i / 64], (i % 64) as u64))
}

/// A fixed-size bitmap of `N * 64` bits; a set bit conventionally means "in use".
#[derive(Clone, Copy, Debug, PartialEq, Eq)]
pub struct BitArray<const N: usize> {
    words: [u64; N],
}

impl<const N: usize> View for BitArray<N> {
    type V = Seq<bool>;

    /// Bit `i` of the bitmap, for `i < N * 64`.
    closed spec fn view(&self) -> Seq<bool> {
        words_view(self.words@)
    }
}

/// `index >> 6` and `index & 63` are the word and the bit of an index.
proof fn lemma_word_and_bit(index: usize)
    ensures
        index >> 6usize == index / 64,
        index & 63usize == index % 64,
{
    lemma_usize_shr_is_div(index, 6);
    lemma_usize_low_bits_mask_is_mod(index, 6);
    lemma2_to64();
    assert(low_bits_mask(6) == 63);
}

impl<const N: usize> BitArray<N> {
    /// The bitmap has `N * 64` bits.
    pub proof fn lemma_view_len(&self)
        ensures
            self@.len() == N * 64,
    {
    }

    /// An all-clear bitmap.
    pub fn new() -> (r: Self)
        ensures
            r@ == Seq::new((N * 64) as nat, |i: int| false),
    {
        let r = Self { words: [0u64; N] };
        proof {
            lemma_single_bit_updates();
            assert(r@ =~= Seq::new((N * 64) as nat, |i: int| false));
        }
        r
    }

    /// The number of bits, `N * 64`.
    pub fn capacity() -> (r: usize)
        requires
            N * 64 <= usize::MAX,
        ensures
            r == N * 64,
    {
        N * 64
    }

    /// Set bit `index` (mark it in use).
    pub fn set(&mut self, index: usize)
        requires
            index < N * 64,
        ensures
            old(self)@.len() == N * 64,
            final(self)@ == old(self)@.update(index as int, true),
    {
        let word = index >> 6;
        let bit = (index & 63) as u32;
        proof {
            lemma_word_and_bit(index);
        }
        self.words[word] = bit_set(self.words[word], bit);
        proof {
            assert(self@ =~= old(self)@.update(index as int, true));
        }
    }

    /// Clear bit `index` (mark it free).
    pub fn clear(&mut self, index: usize)
        requires
            index < N * 64,
        ensures
            old(self)@.len() == N * 64,
            final(self)@ == old(self)@.update(index as int, false),
    {
        let word = index >> 6;
        let bit = (index & 63) as u32;
        proof {
            lemma_word_and_bit(index);
        }
        self.words[word] = bit_clear(self.words[word], bit);
        proof {
            assert(self@ =~= old(self)@.update(index as int, false));
        }
    }

    /// `true` if bit `index` is set.
    pub fn test(&self, index: usize) -> (r: bool)
        requires
            index < N * 64,
        ensures
            self@.len() == N * 64,
            r == self@[index as int],
    {
        let word = index >> 6;
        let bit = (index & 63) as u32;
        proof {
            lemma_word_and_bit(index);
        }
        bit_test(self.words[word], bit)
    }

    /// Find the lowest clear bit, set it, and return its index; `None` when every bit
    /// is set, in which case nothing changes.
    pub fn alloc_first_free(&mut self) -> (r: Option<usize>)
        requires
            N * 64 <= usize::MAX,
        ensures
            old(self)@.len() == N * 64,
            final(self)@.len() == N * 64,
            match r {
                Some(i) => {
                    &&& i < N * 64
                    &&& !old(self)@[i as int]
                    &&& forall|j: int| 0 <= j < i ==> old(self)@[j]
                    &&& final(self)@[i as int]
                    &&& final(self)@ == old(self)@.update(i as int, true)
                },
                None => {
                    &&& forall|j: int| 0 <= j < N * 64 ==> old(self)@[j]
                    &&& *final(self) == *old(self)
                },
            },
    {
        let mut i: usize = 0;
        while i < N
            invariant
                i <= N,
                N * 64 <= usize::MAX,
                self.words == old(self).words,
                forall|j: int| 0 <= j < 64 * i ==> self@[j],
            decreases N - i,
        {
            proof {
                lemma_single_bit_updates();
            }
            if self.words[i] != u64::MAX {
                let w = self.words[i];
                let free_bit = lowest_set_bit_index(!w).unwrap();
                let index = i * 64 + free_bit as usize;
                self.words[i] = bit_set(w, free_bit);
                proof {
                    assert(is_lowest_set_bit(!w, free_bit as u64));
                    assert(!bit_at(w, free_bit as u64));
                    assert forall|j: int| 0 <= j < index implies old(self)@[j] by {
                        if j >= 64 * i {
                            assert(!bit_at(!w, (j % 64) as u64));
                        }
                    }
                    assert(self@ =~= old(self)@.update(index as int, true));
                }
                return Some(index);
            }
            i = i + 1;
        }
        None
    }

    /// The number of set bits.
    pub fn count_set(&self) -> (r: usize)
        requires
            N * 64 <= usize::MAX,
        ensures
            self@.len() == N * 64,
            r == count_true(self@),
            r <= N * 64,
    {
        let mut count: usize = 0;
        let mut i: usize = 0;
        while i < N
            invariant
                i <= N,
                N * 64 <= usize::MAX,
                count <= 64 * i,
                count == count_true(self@.take(64 * i)),
            decreases N - i,
        {
            let p = popcount(self.words[i]);
            proof {
                lemma_words_view_take(self.words@, i as int);
                lemma_count_true_append(self@.take(64 * i), bits_of(self.words@[i as int]));
            }
            count = count + p as usize;
            i = i + 1;
        }
        proof {
            assert(self@.take(64 * N) =~= self@);
        }
        count
    }

    /// The number of clear bits.
    pub fn count_free(&self) -> (r: usize)
        requires
            N * 64 <= usize::MAX,
        ensures
            self@.len() == N * 64,
            r == N * 64 - count_true(self@),
    {
        let set = self.count_set();
        proof {
            lemma_count_true_le_len(self@);
        }
        N * 64 - set
    }

    /// Set every bit.
    pub fn set_all(&mut self)
        ensures
            final(self)@ == Seq::new((N * 64) as nat, |i: int| true),
    {
        let mut i: usize = 0;
        while i < N
            invariant
                i <= N,
                forall|j: int| 0 <= j < i ==> self.words@[j] == u64::MAX,
            decreases N - i,
        {
            self.words[i] = u64::MAX;
            i = i + 1;
        }
        proof {
            lemma_single_bit_updates();
            assert(self@ =~= Seq::new((N * 64) as nat, |i: int| true));
        }
    }

    /// Clear every bit.
    pub fn clear_all(&mut self)
        ensures
            final(self)@ == Seq::new((N * 64) as nat, |i: int| false),
    {
        let mut i: usize = 0;
        while i < N
            invariant
                i <= N,
                forall|j: int| 0 <= j < i ==> self.words@[j] == 0,
            decreases N - i,
        {
            self.words[i] = 0;
            i = i + 1;
        }
        proof {
            lemma_single_bit_updates();
            assert(self@ =~= Seq::new((N * 64) as nat, |i: int| false));
        }
    }
}

/// Setting a bit makes `test` report it and clearing it makes `test` report it
/// clear; no other bit changes either way.
pub proof fn lemma_set_clear_test(bits: Seq<bool>, i: int, j: int)
    requires
        0 <= i < bits.len(),
        0 <= j < bits.len(),
        i != j,
    ensures
        bits.update(i, true)[i],
        !bits.update(i, false)[i],
        bits.update(i, true)[j] == bits[j],
        bits.update(i, false)[j] == bits[j],
{
}

/// The positions of `s` that hold `true`.
pub open spec fn true_positions(s: Seq<bool>) -> Set<int> {
    Set::new(|i: int| 0 <= i < s.len() && s[i])
}

/// There are as many positions holding `true` as `count_true` counts: so a walk over
/// the set bits of a bitmap yields exactly as many indices as `count_set` returns.
pub proof fn lemma_true_positions_len(s: Seq<bool>)
    ensures
        true_positions(s).finite(),
        true_positions(s).len() == count_true(s),
    decreases s.len(),
{
    if s.len() == 0 {
        assert(true_positions(s) =~= Set::empty());
    } else {
        let p = s.drop_last();
        lemma_true_positions_len(p);
        if s.last() {
            assert(true_positions(s) =~= true_positions(p).insert(s.len() - 1));
        } else {
            assert(true_positions(s) =~= true_positions(p));
        }
    }
}

/// `count_true` adds up over concatenation.
proof fn lemma_count_true_append(a: Seq<bool>, b: Seq<bool>)
    ensures
        count_true(a + b) == count_true(a) + count_true(b),
    decreases b.len(),
{
    if b.len() == 0 {
        assert(a + b =~= a);
    } else {
        lemma_count_true_append(a, b.drop_last());
        assert((a + b).drop_last() =~= a + b.drop_last());
    }
}

/// No more entries are `true` than there are entries.
proof fn lemma_count_true_le_len(s: Seq<bool>)
    ensures
        count_true(s) <= s.len(),
    decreases s.len(),
{
    if s.len() > 0 {
        lemma_count_true_le_len(s.drop_last());
    }
}

/// The bits of the first `i + 1` words are those of the first `i` words, then word `i`.
proof fn lemma_words_view_take(words: Seq<u64>, i: int)
    requires
        0 <= i < words.len(),
    ensures
        words_view(words).take(64 * (i + 1)) =~= words_view(words).take(64 * i) + bits_of(
            words[i],
        ),
{
    let v = words_view(words);
    assert forall|j: int| 64 * i <= j < 64 * (i + 1) implies v[j] == bits_of(words[i])[j - 64 * i] by {
        assert(j / 64 == i);
        assert(j % 64 == j - 64 * i);
    }
}

impl<const N: usize> BitArray<N> {
    /// Walk the indices of the set bits in ascending order.
    pub fn iter_set(&self) -> (it: SetBitIter<'_, N>)
        requires
            N * 64 <= usize::MAX,
        ensures
            self@.len() == N * 64,
            it.wf(),
            it.bitmap() == self@,
            it.remaining() == true_positions(self@),
    {
        let first_word = if N > 0 {
            self.words[0]
        } else {
            0
        };
        let it = SetBitIter { bitmap: self, word_idx: 0, word_val: first_word };
        proof {
            lemma_single_bit_updates();
            assert(it.remaining() =~= true_positions(self@));
        }
        it
    }
}

/// The indices of the set bits of a [`BitArray`], handed out lowest first.
pub struct SetBitIter<'a, const N: usize> {
    bitmap: &'a BitArray<N>,
    word_idx: usize,
    word_val: u64,
}

impl<'a, const N: usize> SetBitIter<'a, N> {
    /// The walk's position is consistent with its bitmap.
    pub closed spec fn wf(&self) -> bool {
        &&& N * 64 <= usize::MAX
        &&& self.word_idx <= N
        &&& (self.word_idx == N ==> self.word_val == 0)
    }

    /// The bitmap being walked.
    pub closed spec fn bitmap(&self) -> Seq<bool> {
        self.bitmap@
    }

    /// The indices not handed out yet: the set bits left in the current word and
    /// every set bit of the later words.
    pub closed spec fn remaining(&self) -> Set<int> {
        Set::new(
            |i: int|
                (self.word_idx * 64 <= i < self.word_idx * 64 + 64 && bit_at(
                    self.word_val,
                    (i - self.word_idx * 64) as u64,
                )) || ((self.word_idx + 1) * 64 <= i < N * 64 && self.bitmap@[i]),
        )
    }

    /// The indices left lie below `N * 64`, so there are finitely many of them.
    proof fn lemma_remaining_bounded(&self)
        requires
            self.wf(),
        ensures
            self.remaining().finite(),
            self.remaining().len() <= N * 64,
    {
        lemma_single_bit_updates();
        lemma_int_range(0, N * 64);
        assert(self.remaining().subset_of(set_int_range(0, N * 64)));
        lemma_len_subset(self.remaining(), set_int_range(0, N * 64));
    }

    /// Hand out every index left and return how many there were.
    pub fn count(self) -> (r: usize)
        requires
            self.wf(),
        ensures
            r == self.remaining().len(),
    {
        let ghost total = self.remaining().len();
        proof {
            self.lemma_remaining_bounded();
        }
        let mut it = self;
        let mut n: usize = 0;
        loop
            invariant
                it.wf(),
                it.remaining().finite(),
                n + it.remaining().len() == total,
                total == self.remaining().len(),
                total <= N * 64,
                N * 64 <= usize::MAX,
            decreases it.remaining().len(),
        {
            let ghost before = it.remaining();
            match it.next() {
                Some(_) => {
                    n = n + 1;
                },
                None => {
                    proof {
                        broadcast use vstd::set::axiom_set_empty_len;

                        assert(before.len() == 0);
                    }
                    return n;
                },
            }
        }
    }

    /// The lowest index not handed out yet, or `None` when there is none left.
    pub fn next(&mut self) -> (r: Option<usize>)
        requires
            old(self).wf(),
        ensures
            final(self).wf(),
            final(self).bitmap() == old(self).bitmap(),
            match r {
                None => old(self).remaining() == Set::<int>::empty() && final(self).remaining()
                    == Set::<int>::empty(),
                Some(i) => {
                    &&& old(self).remaining().contains(i as int)
                    &&& forall|j: int| old(self).remaining().contains(j) ==> i <= j
                    &&& final(self).remaining() == old(self).remaining().remove(i as int)
                },
            },
    {
        loop
            invariant
                self.wf(),
                self.bitmap == old(self).bitmap,
                self.remaining() == old(self).remaining(),
            decreases N - self.word_idx,
        {
            proof {
                lemma_single_bit_updates();
            }
            if self.word_val != 0 {
                let ghost before = self.remaining();
                let w = self.word_val;
                let bit = lowest_set_bit_index(w).unwrap();
                let index = self.word_idx * 64 + bit as usize;
                self.word_val = clear_lowest_set_bit(w);
                proof {
                    assert(is_lowest_set_bit(w, bit as u64));
                    assert(before.contains(index as int));
                    assert forall|j: int| before.contains(j) implies index <= j by {
                        if j < index {
                            assert(!bit_at(w, (j - self.word_idx * 64) as u64));
                        }
                    }
                    assert(self.remaining() =~= before.remove(index as int));
                }
                return Some(index);
            }
            if self.word_idx + 1 >= N {
                proof {
                    assert(self.remaining() =~= Set::<int>::empty());
                }
                self.word_idx = N;
                proof {
                    assert(self.remaining() =~= Set::<int>::empty());
                }
                return None;
            }
            let ghost before = self.remaining();
            self.word_idx = self.word_idx + 1;
            self.word_val = self.bitmap.words[self.word_idx];
            proof {
                assert forall|i: int| self.word_idx * 64 <= i < self.word_idx * 64 + 64 implies
                    bit_at(self.word_val, (i - self.word_idx * 64) as u64) == self.bitmap@[i] by {
                    assert(i / 64 == self.word_idx);
                    assert(i % 64 == i - self.word_idx * 64);
                }
                assert(self.remaining() =~= before);
            }
        }
    }
}

impl<const N: usize> Default for BitArray<N> {
    fn default() -> (r: Self)
        ensures
            r@ == Seq::new((N * 64) as nat, |i: int| false),
    {
        Self::new()
    }
}

} // verus!
