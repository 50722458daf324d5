//! A fixed-capacity probabilistic membership structure recording
//! previously-processed request identifiers.
//!
//! The filter answers membership with one-sided error: a negative answer is
//! always correct, while a positive answer may be a false positive. It only
//! ever gains bits; nothing clears or resizes it, so capacity is fixed for
//! the life of the owning state.

use std::collections::hash_map::DefaultHasher;
use std::hash::Hasher;
use vstd::arithmetic::div_mod::lemma_mod_bound;
use vstd::prelude::*;
use vstd::std_specs::hash::DefaultHasherAdditionalSpecFns;

verus! {

/// The bit index probed for `item` on hash round `seed`: the stable 64-bit
/// hash of the item bytes followed by the one-byte round number, reduced
/// modulo the filter's 512 bits. The probe scheme must stay exactly as it
/// is: bits already recorded are only meaningful under the same probes.
pub open spec fn bloom_bit_index(item: Seq<u8>, seed: u8) -> int {
    DefaultHasher::spec_finish(seq![item, seq![seed]]) as int % 512
}

/// Whether `k` is one of the bit indices probed for `item` over `n` rounds.
pub open spec fn is_probe_index(item: Seq<u8>, n: u8, k: int) -> bool {
    exists|i: u8| i < n && k == bloom_bit_index(item, i)
}

/// Whether bit `k` of the byte sequence `bits` is set.
pub open spec fn bit_of(bits: Seq<u8>, k: int) -> bool
    recommends
        0 <= k < 8 * bits.len(),
{
    bits[k / 8] & (1u8 << ((k % 8) as u8)) != 0
}

/// Relates a filter before and after one item was recorded: the hash-round
/// count is unchanged, every bit probed for `item` is set afterwards, and no
/// other bit changes.
pub open spec fn add_relation(pre: BloomFilter, post: BloomFilter, item: Seq<u8>) -> bool {
    &&& post.spec_num_hashes() == pre.spec_num_hashes()
    &&& forall|k: int|
        0 <= k < 512 ==> (post.bit_set(k) <==> pre.bit_set(k) || is_probe_index(
            item,
            pre.spec_num_hashes(),
            k,
        ))
}

/// A Bloom filter over 512 bits (64 bytes) with a fixed number of hash rounds.
#[derive(Clone, Copy)]
pub struct BloomFilter {
    bits: [u8; 64],
    num_hashes: u8,
}

impl BloomFilter {
    /// The 64 filter bytes.
    pub closed spec fn spec_bits(self) -> Seq<u8> {
        self.bits@
    }

    /// The number of hash rounds, fixed at creation.
    pub closed spec fn spec_num_hashes(self) -> u8 {
        self.num_hashes
    }

    /// Whether bit `k` of the filter is set.
    pub open spec fn bit_set(self, k: int) -> bool
        recommends
            0 <= k < 512,
    {
        bit_of(self.spec_bits(), k)
    }

    /// Membership as the filter reports it: every probed bit for `item` is
    /// set. A false positive is possible once other items have set the same
    /// bits; a negative answer is always correct.
    pub open spec fn spec_might_contain(self, item: Seq<u8>) -> bool {
        forall|i: u8| i < self.spec_num_hashes() ==> self.bit_set(#[trigger] bloom_bit_index(item, i))
    }

    /// Creates an empty filter with the given number of hash rounds.
    pub fn new(num_hashes: u8) -> (r: BloomFilter)
        ensures
            r.spec_num_hashes() == num_hashes,
            forall|k: int| 0 <= k < 512 ==> !r.bit_set(k),
    {
        let r = BloomFilter { bits: [0; 64], num_hashes };
        proof {
            assert forall|k: int| 0 <= k < 512 implies !r.bit_set(k) by {
                lemma_and_with_zero((1u8 << ((k % 8) as u8)));
            }
        }
        r
    }

    /// Whether the filter may have recorded `item`.
    pub fn might_contain(&self, item: &[u8]) -> (r: bool)
        ensures
            r == self.spec_might_contain(item@),
    {
        let n = self.num_hashes;
        let mut i: u8 = 0;
        while i < n
            invariant
                i <= n,
                n == self.spec_num_hashes(),
                forall|j: u8| j < i ==> self.bit_set(#[trigger] bloom_bit_index(item@, j)),
            decreases n - i,
        {
            let bit_index = Self::hash(item, i);
            if !Self::get_bit(&self.bits, bit_index) {
                return false;
            }
            i = i + 1;
        }
        true
    }

    /// Records `item`: sets every probed bit. Recording an already-recorded
    /// item leaves the bit pattern unchanged.
    pub fn add(&mut self, item: &[u8])
        ensures
            add_relation(*old(self), *final(self), item@),
            final(self).spec_might_contain(item@),
    {
        let n = self.num_hashes;
        let mut i: u8 = 0;
        while i < n
            invariant
                i <= n,
                n == self.spec_num_hashes(),
                self.spec_num_hashes() == old(self).spec_num_hashes(),
                forall|k: int|
                    0 <= k < 512 ==> (self.bit_set(k) <==> old(self).bit_set(k) || (exists|j: u8|
                        j < i && k == #[trigger] bloom_bit_index(item@, j))),
            decreases n - i,
        {
            let ghost prev = *self;
            let bit_index = Self::hash(item, i);
            Self::set_bit(&mut self.bits, bit_index);
            proof {
                assert forall|k: int|
                    0 <= k < 512 implies (self.bit_set(k) <==> old(self).bit_set(k) || (exists|j: u8|
                        j < i + 1 && k == bloom_bit_index(item@, j))) by {
                    if k == bloom_bit_index(item@, i) {
                        assert(i < i + 1 && k == bloom_bit_index(item@, i));
                    } else if self.bit_set(k) && !old(self).bit_set(k) {
                        assert(prev.bit_set(k));
                        let j = choose|j: u8| j < i && k == bloom_bit_index(item@, j);
                        assert(j < i + 1 && k == bloom_bit_index(item@, j));
                    }
                }
            }
            i = i + 1;
        }
        proof {
            lemma_add_relation_contains(*old(self), *self, item@);
        }
    }

    /// Computes the probe bit index for `item` on round `seed`, always
    /// below 512.
    fn hash(item: &[u8], seed: u8) -> (r: usize)
        ensures
            r == bloom_bit_index(item@, seed),
            r < 512,
    {
        let mut hasher = DefaultHasher::new();
        hasher.write(item);
        let seed_bytes: [u8; 1] = [seed];
        hasher.write(seed_bytes.as_slice());
        let h = hasher.finish();
        proof {
            assert(seed_bytes@ =~= seq![seed]);
            assert(hasher@ =~= seq![item@, seq![seed]]);
            lemma_mod_bound(h as int, 512);
        }
        (h % 512) as usize
    }

    /// Reads bit `k` of the 512-bit array.
    fn get_bit(bits: &[u8; 64], k: usize) -> (r: bool)
        requires
            k < 512,
        ensures
            r == bit_of(bits@, k as int),
    {
        let byte_index = k / 8;
        let bit_offset: u8 = (k % 8) as u8;
        (bits[byte_index] & (1u8 << bit_offset)) != 0
    }

    /// Sets bit `k` of the 512-bit array, leaving every other bit unchanged.
    fn set_bit(bits: &mut [u8; 64], k: usize)
        requires
            k < 512,
        ensures
            forall|k2: int|
                0 <= k2 < 512 ==> (bit_of(final(bits)@, k2) <==> bit_of(old(bits)@, k2) || k2
                    == k),
    {
        let byte_index = k / 8;
        let bit_offset: u8 = (k % 8) as u8;
        bits[byte_index] = bits[byte_index] | (1u8 << bit_offset);
        proof {
            assert forall|k2: int|
                0 <= k2 < 512 implies (bit_of(bits@, k2) <==> bit_of(old(bits)@, k2) || k2
                == k) by {
                if k2 / 8 == k / 8 {
                    lemma_or_bit(old(bits)@[k as int / 8], (k % 8) as u8, (k2 % 8) as u8);
                }
            }
        }
    }
}

impl Default for BloomFilter {
    /// An empty filter with 3 hash rounds, as reward-ledger states use.
    fn default() -> (r: Self)
        ensures
            r.spec_num_hashes() == 3,
            forall|k: int| 0 <= k < 512 ==> !r.bit_set(k),
    {
        BloomFilter::new(3)
    }
}

/// Every bit probed for `item` is set after `item` was recorded.
pub proof fn lemma_add_relation_contains(pre: BloomFilter, post: BloomFilter, item: Seq<u8>)
    requires
        add_relation(pre, post, item),
    ensures
        post.spec_might_contain(item),
{
    assert forall|i: u8| i < post.spec_num_hashes() implies post.bit_set(
        #[trigger] bloom_bit_index(item, i),
    ) by {
        lemma_bloom_bit_index_range(item, i);
        assert(is_probe_index(item, pre.spec_num_hashes(), bloom_bit_index(item, i)));
    }
}

/// Membership answers are monotone: recording any further item only sets
/// bits, so an item the filter already reported stays reported.
pub proof fn lemma_might_contain_monotone(
    pre: BloomFilter,
    post: BloomFilter,
    added: Seq<u8>,
    item: Seq<u8>,
)
    requires
        add_relation(pre, post, added),
    ensures
        pre.spec_might_contain(item) ==> post.spec_might_contain(item),
{
    if pre.spec_might_contain(item) {
        assert forall|i: u8| i < post.spec_num_hashes() implies post.bit_set(
            #[trigger] bloom_bit_index(item, i),
        ) by {
            lemma_bloom_bit_index_range(item, i);
            assert(pre.bit_set(bloom_bit_index(item, i)));
        }
    }
}

/// Probe indices land within the 512-bit array.
pub proof fn lemma_bloom_bit_index_range(item: Seq<u8>, seed: u8)
    ensures
        0 <= bloom_bit_index(item, seed) < 512,
{
    lemma_mod_bound(DefaultHasher::spec_finish(seq![item, seq![seed]]) as int, 512);
}

proof fn lemma_and_with_zero(m: u8)
    by (bit_vector)
    ensures
        0u8 & m == 0,
{
}

proof fn lemma_or_bit(b: u8, o: u8, o2: u8)
    by (bit_vector)
    requires
        o < 8,
        o2 < 8,
    ensures
        ((b | (1u8 << o)) & (1u8 << o2) != 0) <==> ((b & (1u8 << o2) != 0) || o == o2),
{
}

} // verus!
