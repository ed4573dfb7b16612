use vstd::arithmetic::div_mod::{
    lemma_fundamental_div_mod, lemma_mod_multiples_vanish, lemma_small_mod,
};
use vstd::prelude::*;

verus! {

/// One 16-bit big-endian word of a byte sequence: the pair of bytes at
/// positions `2*i` and `2*i + 1`.
pub open spec fn be_word_at(b: Seq<u8>, i: int) -> int {
    (b[2 * i] as int) * 0x100 + (b[2 * i + 1] as int)
}

/// Sum of the big-endian words with indices `0 .. n`, the word at index
/// `skip` counted as zero. A `skip` of `-1` sums every word.
pub open spec fn word_sum_skipping(b: Seq<u8>, skip: int, n: int) -> int
    decreases n,
{
    if n <= 0 {
        0
    } else {
        word_sum_skipping(b, skip, n - 1) + if n - 1 == skip {
            0
        } else {
            be_word_at(b, n - 1)
        }
    }
}

/// Folds the carries of a one's-complement accumulator: while the value
/// needs more than 16 bits, the upper bits are added back into the low 16.
pub open spec fn fold_carries(s: int) -> int
    decreases s,
{
    if s < 0x10000 {
        s
    } else {
        fold_carries(s / 0x10000 + s % 0x10000)
    }
}

/// The RFC 1071 internet checksum of an even-length buffer, the 16-bit
/// word at index `skip` (the checksum field itself) counted as zero: the
/// one's complement of the folded word sum.
pub open spec fn checksum_of(b: Seq<u8>, skip: int) -> int {
    0xffff - fold_carries(word_sum_skipping(b, skip, b.len() as int / 2))
}

/// A buffer passes receiver-side checksum validation when the folded
/// one's-complement sum of all its words, checksum field included, is
/// `0xffff` — that is, its complement is zero.
pub open spec fn checksum_valid(b: Seq<u8>) -> bool {
    fold_carries(word_sum_skipping(b, -1, b.len() as int / 2)) == 0xffff
}

/// Relies on `pnet::packet::util::checksum`: the RFC 1071 one's-complement
/// checksum of `data` read as big-endian 16-bit words, the word at index
/// `skipword` regarded as zero, carries folded, low 16 bits complemented.
#[verifier::external_body]
pub(crate) fn internet_checksum(data: &Vec<u8>, skipword: usize) -> (r: u16)
    requires
        2 <= data@.len(),
        data@.len() % 2 == 0,
        data@.len() <= 4096,
    ensures
        r as int == checksum_of(data@, skipword as int),
{
    pnet::packet::util::checksum(data.as_slice(), skipword)
}

/// Receiver-side validation of an even-length buffer: sums every word,
/// folds the carries, and accepts exactly when the complement is zero.
pub fn verify_checksum(data: &Vec<u8>) -> (r: bool)
    requires
        data@.len() % 2 == 0,
        data@.len() <= 4096,
    ensures
        r == checksum_valid(data@),
{
    let n: usize = data.len() / 2;
    let mut sum: u32 = 0;
    let mut i: usize = 0;
    while i < n
        invariant
            data@.len() % 2 == 0,
            data@.len() <= 4096,
            n == data@.len() / 2,
            i <= n,
            sum as int == word_sum_skipping(data@, -1, i as int),
            sum <= i * 0xffff,
        decreases n - i,
    {
        let w: u32 = (data[2 * i] as u32) * 0x100 + (data[2 * i + 1] as u32);
        sum = sum + w;
        i = i + 1;
    }
    while sum >= 0x10000
        invariant
            fold_carries(sum as int) == fold_carries(
                word_sum_skipping(data@, -1, data@.len() as int / 2),
            ),
        decreases sum,
    {
        sum = sum / 0x10000 + sum % 0x10000;
    }
    sum == 0xffff
}

/// The folded sum of a nonnegative accumulator fits in 16 bits, and folding
/// never collapses a positive accumulator to zero.
pub(crate) proof fn lemma_fold_carries_bounds(s: int)
    requires
        0 <= s,
    ensures
        0 <= fold_carries(s) <= 0xffff,
        1 <= s ==> 1 <= fold_carries(s),
    decreases s,
{
    if s >= 0x10000 {
        lemma_fundamental_div_mod(s, 0x10000);
        lemma_fold_carries_bounds(s / 0x10000 + s % 0x10000);
    }
}

/// Folding carries preserves the value modulo `0xffff`: moving a carry out
/// of bit 16 and back into bit 0 subtracts `0xffff * carry`.
proof fn lemma_fold_carries_congruent(s: int)
    requires
        0 <= s,
    ensures
        fold_carries(s) % 0xffff == s % 0xffff,
    decreases s,
{
    if s >= 0x10000 {
        let q = s / 0x10000;
        let r = s % 0x10000;
        lemma_fundamental_div_mod(s, 0x10000);
        lemma_mod_multiples_vanish(q, q + r, 0xffff);
        lemma_fold_carries_congruent(q + r);
    }
}

/// Writing the one's complement of a buffer's folded word sum into its
/// checksum field makes the whole buffer validate: for any nonnegative
/// partial sum `s`, adding `0xffff - fold_carries(s)` folds to `0xffff`.
pub proof fn lemma_checksum_completes(s: int)
    requires
        0 <= s,
    ensures
        fold_carries(s + 0xffff - fold_carries(s)) == 0xffff,
{
    let f = fold_carries(s);
    lemma_fold_carries_bounds(s);
    let t = s + 0xffff - f;
    if s == 0 {
        assert(fold_carries(0) == 0);
        assert(fold_carries(0xffff) == 0xffff);
    } else {
        lemma_fold_carries_congruent(s);
        lemma_fundamental_div_mod(s, 0xffff);
        lemma_fundamental_div_mod(f, 0xffff);
        let qs = s / 0xffff;
        let qf = f / 0xffff;
        assert(t == 0xffff * (qs - qf + 1) + 0) by {
            assert(s == 0xffff * qs + s % 0xffff);
            assert(f == 0xffff * qf + f % 0xffff);
        }
        lemma_mod_multiples_vanish(qs - qf + 1, 0, 0xffff);
        assert(t % 0xffff == 0);
        assert(t >= 1);
        lemma_fold_carries_bounds(t);
        lemma_fold_carries_congruent(t);
        let ft = fold_carries(t);
        if ft < 0xffff {
            lemma_small_mod(ft as nat, 0xffff);
            assert(ft == 0);
        }
    }
}

} // verus!
