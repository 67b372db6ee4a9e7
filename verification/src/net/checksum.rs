//! The 16-bit one's-complement checksum of ICMP.

use crate::net::endian::{high_byte, low_byte, read_u16_le, u16_of};
use vstd::arithmetic::div_mod::{
    lemma_fundamental_div_mod, lemma_mod_multiples_vanish, lemma_small_mod,
};
use vstd::prelude::*;
use vstd::slice::slice_subrange;

verus! {

/// The sum of the 16-bit words of `bytes`, each read least significant byte
/// first, with a trailing odd byte counted as it stands.
pub open spec fn word_sum(bytes: Seq<u8>) -> nat
    decreases bytes.len(),
{
    if bytes.len() == 0 {
        0
    } else if bytes.len() == 1 {
        bytes[0] as nat
    } else {
        (bytes[0] as nat + 256 * bytes[1] as nat) + word_sum(bytes.skip(2))
    }
}

/// Adds the carries above bit 16 back into the low 16 bits until none is left.
pub open spec fn fold_carries(sum: nat) -> nat
    decreases sum,
{
    if sum < 0x1_0000 {
        sum
    } else {
        fold_carries(sum % 0x1_0000 + sum / 0x1_0000)
    }
}

/// The checksum of `bytes`: the complement of their folded word sum.
pub open spec fn checksum_of(bytes: Seq<u8>) -> u16 {
    (0xffff - fold_carries(word_sum(bytes))) as u16
}

/// Folding is reduction modulo 65535 that keeps a sum other than zero in
/// `1..=65535`.
pub proof fn lemma_fold_closed_form(sum: nat)
    ensures
        fold_carries(sum) == if sum == 0 {
            0
        } else {
            (sum - 1) % 0xffff + 1
        },
        fold_carries(sum) <= 0xffff,
    decreases sum,
{
    if sum >= 0x1_0000 {
        let q = sum / 0x1_0000;
        let next = sum % 0x1_0000 + q;
        lemma_fundamental_div_mod(sum as int, 0x1_0000);
        assert(next == sum - 0xffff * q);
        lemma_fold_closed_form(next);
        lemma_mod_multiples_vanish(q as int, next - 1, 0xffff);
    } else if sum > 0 {
        lemma_small_mod((sum - 1) as nat, 0xffff);
    }
}

/// One folding step on a part of a sum does not change what the whole folds to.
pub proof fn lemma_fold_step_inside(part: nat, rest: nat)
    ensures
        fold_carries(part % 0x1_0000 + part / 0x1_0000 + rest) == fold_carries(part + rest),
{
    let q = part / 0x1_0000;
    let stepped = part % 0x1_0000 + q;
    lemma_fundamental_div_mod(part as int, 0x1_0000);
    assert(stepped == part - 0xffff * q);
    lemma_fold_closed_form(stepped + rest);
    lemma_fold_closed_form(part + rest);
    if part + rest > 0 {
        lemma_mod_multiples_vanish(q as int, stepped + rest - 1, 0xffff);
    }
}

/// The last byte of a buffer of odd length is added to the sum as it stands.
pub proof fn lemma_word_sum_odd_tail(bytes: Seq<u8>)
    requires
        bytes.len() % 2 == 1,
    ensures
        word_sum(bytes) == word_sum(bytes.drop_last()) + bytes.last(),
    decreases bytes.len(),
{
    if bytes.len() >= 3 {
        lemma_word_sum_odd_tail(bytes.skip(2));
        assert(bytes.skip(2).drop_last() =~= bytes.drop_last().skip(2));
    }
}

/// Replacing the word at an even offset changes the word sum by the
/// difference of the two words.
pub proof fn lemma_word_sum_replace(bytes: Seq<u8>, at: int, lo: u8, hi: u8)
    requires
        0 <= at,
        at % 2 == 0,
        at + 2 <= bytes.len(),
    ensures
        word_sum(bytes.update(at, lo).update(at + 1, hi)) + bytes[at] + 256 * bytes[at
            + 1] == word_sum(bytes) + lo + 256 * hi,
    decreases at,
{
    let changed = bytes.update(at, lo).update(at + 1, hi);
    if at == 0 {
        assert(changed.skip(2) =~= bytes.skip(2));
    } else {
        lemma_word_sum_replace(bytes.skip(2), at - 2, lo, hi);
        assert(changed.skip(2) =~= bytes.skip(2).update(at - 2, lo).update(at - 1, hi));
    }
}

/// A buffer whose checksum word, at an even offset and zero while the sum was
/// taken, holds the checksum least significant byte first sums to `0xffff`,
/// so that its own checksum is zero.
pub proof fn lemma_inserted_checksum_validates(bytes: Seq<u8>, at: int)
    requires
        0 <= at,
        at % 2 == 0,
        at + 2 <= bytes.len(),
        bytes[at] == 0,
        bytes[at + 1] == 0,
    ensures
        ({
            let c = checksum_of(bytes);
            let sealed = bytes.update(at, low_byte(c)).update(at + 1, high_byte(c));
            &&& fold_carries(word_sum(sealed)) == 0xffff
            &&& checksum_of(sealed) == 0
        }),
{
    let c = checksum_of(bytes);
    let total = word_sum(bytes);
    lemma_word_sum_replace(bytes, at, low_byte(c), high_byte(c));
    lemma_fold_closed_form(total);
    lemma_fold_closed_form(total + c as nat);
    if total > 0 {
        let k = (total - 1) / 0xffff;
        lemma_fundamental_div_mod(total - 1, 0xffff);
        assert(total + c - 1 == 0xffff * k + 0xfffe);
        lemma_mod_multiples_vanish(k, 0xfffe, 0xffff);
    }
}

/// The one's-complement checksum of `buffer`: its 16-bit words, least
/// significant byte first, and a trailing odd byte are summed, the carries are
/// folded back into 16 bits, and the result is complemented.
///
/// The accumulator has 32 bits. Before it could overflow its carries are
/// folded in early, which leaves the result unchanged, so a buffer of any
/// length is summed exactly.
pub fn calc_checksum(buffer: &[u8]) -> (r: u16)
    ensures
        r == checksum_of(buffer@),
{
    let n = buffer.len();
    let mut sum: u32 = 0;
    let mut i: usize = 0;
    assert(buffer@.skip(0) =~= buffer@);
    while n - i >= 2
        invariant
            n == buffer@.len(),
            i <= n,
            sum <= 0xffff_0000,
            fold_carries(sum as nat + word_sum(buffer@.skip(i as int))) == fold_carries(
                word_sum(buffer@),
            ),
        decreases n - i,
    {
        let word = read_u16_le(slice_subrange(buffer, i, i + 2));
        proof {
            assert(buffer@.skip(i as int).skip(2) =~= buffer@.skip(i + 2));
            assert(word == u16_of(buffer@[i + 1], buffer@[i as int]));
        }
        sum = sum + word as u32;
        if sum > 0xffff_0000 {
            proof {
                let s = sum;
                assert(s & 0xffff == s % 0x1_0000 && s >> 16 == s / 0x1_0000) by (bit_vector);
                lemma_fold_step_inside(sum as nat, word_sum(buffer@.skip(i + 2)));
            }
            sum = (sum & 0xffff) + (sum >> 16);
        }
        i = i + 2;
    }
    if i < n {
        sum = sum + buffer[i] as u32;
    }
    while sum >> 16 > 0
        invariant
            fold_carries(sum as nat) == fold_carries(word_sum(buffer@)),
        decreases sum,
    {
        proof {
            let s = sum;
            assert(s & 0xffff == s % 0x1_0000 && s >> 16 == s / 0x1_0000) by (bit_vector);
            assert(s >> 16 > 0 ==> s >= 0x1_0000) by (bit_vector);
        }
        sum = (sum & 0xffff) + (sum >> 16);
    }
    proof {
        let s = sum;
        assert(!(s >> 16 > 0) ==> s < 0x1_0000 && (!s) as u16 == 0xffff - s) by (bit_vector);
    }
    #[verifier::truncate]
    (!sum as u16)
}

} // verus!
