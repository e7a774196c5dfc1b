//! Difficulty evaluation: counting the leading zero bits of a 32-byte hash
//! and comparing the count against a threshold.

use vstd::prelude::*;

verus! {

/// Number of leading zero bits in a single byte, from 0 (top bit set)
/// to 8 (the byte is zero).
pub open spec fn byte_leading_zeros(b: u8) -> int {
    if b >= 0x80 {
        0
    } else if b >= 0x40 {
        1
    } else if b >= 0x20 {
        2
    } else if b >= 0x10 {
        3
    } else if b >= 0x08 {
        4
    } else if b >= 0x04 {
        5
    } else if b >= 0x02 {
        6
    } else if b >= 0x01 {
        7
    } else {
        8
    }
}

/// Number of leading zero bits of a hash, scanning bytes left to right:
/// each zero byte contributes 8 bits, and the first nonzero byte
/// contributes its own leading zeros and stops the scan.
pub open spec fn leading_zero_bits(h: Seq<u8>) -> int
    decreases h.len(),
{
    if h.len() == 0 {
        0
    } else if h[0] == 0 {
        8 + leading_zero_bits(h.drop_first())
    } else {
        byte_leading_zeros(h[0])
    }
}

/// A hash meets a difficulty threshold when it has at least that many
/// leading zero bits.
pub open spec fn spec_meets_difficulty(h: Seq<u8>, threshold: int) -> bool {
    leading_zero_bits(h) >= threshold
}

/// Leading zero bits of one byte.
fn byte_lz(b: u8) -> (r: u8)
    ensures
        r == byte_leading_zeros(b),
{
    if b >= 0x80 {
        0
    } else if b >= 0x40 {
        1
    } else if b >= 0x20 {
        2
    } else if b >= 0x10 {
        3
    } else if b >= 0x08 {
        4
    } else if b >= 0x04 {
        5
    } else if b >= 0x02 {
        6
    } else if b >= 0x01 {
        7
    } else {
        8
    }
}

/// Skipping a prefix of zero bytes removes exactly eight leading zero bits
/// per byte skipped.
proof fn lemma_lzb_skip_zero_prefix(h: Seq<u8>, i: int)
    requires
        0 <= i <= h.len(),
        forall|j: int| 0 <= j < i ==> h[j] == 0,
    ensures
        leading_zero_bits(h) == 8 * i + leading_zero_bits(h.skip(i)),
    decreases i,
{
    if i == 0 {
        assert(h.skip(0) =~= h);
    } else {
        lemma_lzb_skip_zero_prefix(h, i - 1);
        assert(h.skip(i - 1).len() > 0);
        assert(h.skip(i - 1)[0] == h[i - 1]);
        assert(h.skip(i - 1).drop_first() =~= h.skip(i));
    }
}

/// Count the leading zero bits of a 32-byte hash; ranges over [0, 256],
/// where 256 is reached only by the all-zero hash.
pub fn calculate_difficulty(hash: &[u8; 32]) -> (difficulty: u16)
    ensures
        difficulty == leading_zero_bits(hash@),
        0 <= difficulty <= 256,
{
    let mut i: usize = 0;
    while i < 32
        invariant
            0 <= i <= 32,
            forall|j: int| 0 <= j < i ==> hash@[j] == 0,
        decreases 32 - i,
    {
        let b = hash[i];
        if b != 0 {
            let lz = byte_lz(b);
            proof {
                lemma_lzb_skip_zero_prefix(hash@, i as int);
                assert(hash@.skip(i as int)[0] == hash@[i as int]);
            }
            return (i as u16) * 8 + (lz as u16);
        }
        i = i + 1;
    }
    proof {
        lemma_lzb_skip_zero_prefix(hash@, 32);
        assert(hash@.skip(32).len() == 0);
    }
    256
}

/// Decide whether a hash meets a difficulty threshold, measured in leading
/// zero bits. A threshold of 0 always passes; 256 passes only for the
/// all-zero hash.
pub fn check_difficulty(hash: &[u8; 32], difficulty: u8) -> (r: bool)
    ensures
        r == spec_meets_difficulty(hash@, difficulty as int),
{
    calculate_difficulty(hash) >= difficulty as u16
}

/// An all-zero hash has all 256 bits zero, so it meets every threshold up
/// to 256; and a threshold of 0 is met by every hash.
pub proof fn lemma_zero_hash_meets_all(h: Seq<u8>, threshold: int)
    requires
        h.len() == 32,
        forall|j: int| 0 <= j < 32 ==> h[j] == 0,
        threshold <= 256,
    ensures
        spec_meets_difficulty(h, threshold),
{
    lemma_lzb_skip_zero_prefix(h, 32);
    assert(h.skip(32).len() == 0);
}

/// Every hash meets a threshold of zero.
pub proof fn lemma_threshold_zero_always_met(h: Seq<u8>)
    ensures
        spec_meets_difficulty(h, 0),
{
    lemma_nonnegative(h);
}

/// The leading-zero-bit count is never negative.
proof fn lemma_nonnegative(h: Seq<u8>)
    ensures
        leading_zero_bits(h) >= 0,
    decreases h.len(),
{
    if h.len() > 0 && h[0] == 0 {
        lemma_nonnegative(h.drop_first());
    }
}

/// A hash whose first bit is 1 has no leading zero bits, so it fails every
/// threshold of 1 or more.
pub proof fn lemma_leading_one_fails(h: Seq<u8>, threshold: int)
    requires
        h.len() >= 1,
        h[0] >= 0x80,
        threshold >= 1,
    ensures
        !spec_meets_difficulty(h, threshold),
{
}

/// A hash whose first byte is zero and whose second byte is of the form
/// 0b01xxxxxx has exactly 9 leading zero bits.
pub proof fn lemma_nine_leading_zero_bits(h: Seq<u8>)
    requires
        h.len() == 32,
        h[0] == 0,
        0x40 <= h[1] < 0x80,
    ensures
        leading_zero_bits(h) == 9,
{
    lemma_lzb_skip_zero_prefix(h, 1);
    assert(h.skip(1)[0] == h[1]);
}

} // verus!
