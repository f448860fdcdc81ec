//! Plain byte-string helpers: equality and appending, the big-endian
//! encoding of the 64-bit amounts a record's `content_data` carries, and the
//! little-endian integers of the stored record layout.

use vstd::arithmetic::div_mod::{
    lemma_div_denominator, lemma_fundamental_div_mod, lemma_multiply_divide_lt, lemma_small_mod,
};
use vstd::prelude::*;

verus! {

/// Compare two byte strings for equality.
pub fn bytes_equal(a: &[u8], b: &[u8]) -> (r: bool)
    ensures
        r == (a@ == b@),
{
    if a.len() != b.len() {
        return false;
    }
    let n = a.len();
    let mut i: usize = 0;
    while i < n
        invariant
            n == a@.len(),
            n == b@.len(),
            i <= n,
            forall|j: int| 0 <= j < i ==> a@[j] == b@[j],
        decreases n - i,
    {
        if a[i] != b[i] {
            return false;
        }
        i += 1;
    }
    proof {
        assert(a@ =~= b@);
    }
    true
}

/// Append the bytes of `src` to `dst`.
pub fn append_bytes(dst: &mut Vec<u8>, src: &[u8])
    ensures
        final(dst)@ == old(dst)@ + src@,
{
    let n = src.len();
    let mut i: usize = 0;
    proof {
        assert(old(dst)@ + src@.take(0) =~= old(dst)@);
    }
    while i < n
        invariant
            n == src@.len(),
            i <= n,
            dst@ == old(dst)@ + src@.take(i as int),
        decreases n - i,
    {
        dst.push(src[i]);
        proof {
            assert(old(dst)@ + src@.take(i + 1) =~= (old(dst)@ + src@.take(i as int)).push(
                src@[i as int],
            ));
        }
        i += 1;
    }
    proof {
        assert(src@.take(n as int) =~= src@);
    }
}

/// The value of an 8-byte string read as a big-endian integer.
pub open spec fn be_u64(s: Seq<u8>) -> int
    recommends
        s.len() == 8,
{
    s[0] * 0x100000000000000 + s[1] * 0x1000000000000 + s[2] * 0x10000000000 + s[3] * 0x100000000
        + s[4] * 0x1000000 + s[5] * 0x10000 + s[6] * 0x100 + s[7]
}

/// The 8-byte big-endian encoding of a 64-bit amount.
pub open spec fn be_bytes_of(x: u64) -> Seq<u8> {
    seq![
        (x as int / 0x100000000000000 % 0x100) as u8,
        (x as int / 0x1000000000000 % 0x100) as u8,
        (x as int / 0x10000000000 % 0x100) as u8,
        (x as int / 0x100000000 % 0x100) as u8,
        (x as int / 0x1000000 % 0x100) as u8,
        (x as int / 0x10000 % 0x100) as u8,
        (x as int / 0x100 % 0x100) as u8,
        (x as int % 0x100) as u8,
    ]
}

/// An 8-byte string always denotes a value that a `u64` can hold.
pub proof fn lemma_be_u64_bounds(s: Seq<u8>)
    requires
        s.len() == 8,
    ensures
        0 <= be_u64(s) <= u64::MAX,
{
    assert(s[0] <= 255 && s[1] <= 255 && s[2] <= 255 && s[3] <= 255 && s[4] <= 255 && s[5] <= 255
        && s[6] <= 255 && s[7] <= 255);
}

/// Encoding an amount and reading the bytes back yields the amount: the
/// big-endian codec for 64-bit values round-trips.
pub proof fn lemma_be_round_trip(x: u64)
    ensures
        be_u64(be_bytes_of(x)) == x,
{
    let b = x as int;
    let q1 = b / 0x100;
    let q2 = q1 / 0x100;
    let q3 = q2 / 0x100;
    let q4 = q3 / 0x100;
    let q5 = q4 / 0x100;
    let q6 = q5 / 0x100;
    let q7 = q6 / 0x100;
    assert(q2 == b / 0x10000) by {
        lemma_div_denominator(b, 0x100, 0x100);
    }
    assert(q3 == b / 0x1000000) by {
        lemma_div_denominator(b, 0x10000, 0x100);
    }
    assert(q4 == b / 0x100000000) by {
        lemma_div_denominator(b, 0x1000000, 0x100);
    }
    assert(q5 == b / 0x10000000000) by {
        lemma_div_denominator(b, 0x100000000, 0x100);
    }
    assert(q6 == b / 0x1000000000000) by {
        lemma_div_denominator(b, 0x10000000000, 0x100);
    }
    assert(q7 == b / 0x100000000000000) by {
        lemma_div_denominator(b, 0x1000000000000, 0x100);
    }
    assert(q7 < 0x100) by {
        lemma_multiply_divide_lt(b, 0x100000000000000, 0x100);
    }
    lemma_small_mod(q7 as nat, 0x100);
    lemma_fundamental_div_mod(b, 0x100);
    lemma_fundamental_div_mod(q1, 0x100);
    lemma_fundamental_div_mod(q2, 0x100);
    lemma_fundamental_div_mod(q3, 0x100);
    lemma_fundamental_div_mod(q4, 0x100);
    lemma_fundamental_div_mod(q5, 0x100);
    lemma_fundamental_div_mod(q6, 0x100);
    assert(b == q2 * 0x10000 + (q1 % 0x100) * 0x100 + b % 0x100);
    assert(b == q3 * 0x1000000 + (q2 % 0x100) * 0x10000 + (q1 % 0x100) * 0x100 + b % 0x100);
    assert(b == q4 * 0x100000000 + (q3 % 0x100) * 0x1000000 + (q2 % 0x100) * 0x10000 + (q1
        % 0x100) * 0x100 + b % 0x100);
    assert(b == q5 * 0x10000000000 + (q4 % 0x100) * 0x100000000 + (q3 % 0x100) * 0x1000000 + (q2
        % 0x100) * 0x10000 + (q1 % 0x100) * 0x100 + b % 0x100);
    assert(b == q6 * 0x1000000000000 + (q5 % 0x100) * 0x10000000000 + (q4 % 0x100) * 0x100000000 + (
    q3 % 0x100) * 0x1000000 + (q2 % 0x100) * 0x10000 + (q1 % 0x100) * 0x100 + b % 0x100);
    assert(b == q7 * 0x100000000000000 + (q6 % 0x100) * 0x1000000000000 + (q5 % 0x100)
        * 0x10000000000 + (q4 % 0x100) * 0x100000000 + (q3 % 0x100) * 0x1000000 + (q2 % 0x100)
        * 0x10000 + (q1 % 0x100) * 0x100 + b % 0x100);
}

/// Read an 8-byte big-endian amount.
pub fn decode_be_u64(b: &[u8]) -> (r: u64)
    requires
        b@.len() == 8,
    ensures
        r == be_u64(b@),
{
    proof {
        lemma_be_u64_bounds(b@);
    }
    (b[0] as u64) * 0x100000000000000 + (b[1] as u64) * 0x1000000000000 + (b[2] as u64)
        * 0x10000000000 + (b[3] as u64) * 0x100000000 + (b[4] as u64) * 0x1000000 + (b[5] as u64)
        * 0x10000 + (b[6] as u64) * 0x100 + (b[7] as u64)
}

/// Write an amount as 8 big-endian bytes.
pub fn encode_be_u64(x: u64) -> (r: Vec<u8>)
    ensures
        r@ == be_bytes_of(x),
{
    let mut r: Vec<u8> = Vec::new();
    r.push((x / 0x100000000000000 % 0x100) as u8);
    r.push((x / 0x1000000000000 % 0x100) as u8);
    r.push((x / 0x10000000000 % 0x100) as u8);
    r.push((x / 0x100000000 % 0x100) as u8);
    r.push((x / 0x1000000 % 0x100) as u8);
    r.push((x / 0x10000 % 0x100) as u8);
    r.push((x / 0x100 % 0x100) as u8);
    r.push((x % 0x100) as u8);
    proof {
        assert(r@ =~= be_bytes_of(x));
    }
    r
}

/// The value of a 4-byte string read as a little-endian integer.
pub open spec fn le_u32(s: Seq<u8>) -> int
    recommends
        s.len() == 4,
{
    s[0] + s[1] * 0x100 + s[2] * 0x10000 + s[3] * 0x1000000
}

/// The 4-byte little-endian encoding of a 32-bit length.
pub open spec fn le_bytes_of_u32(x: u32) -> Seq<u8> {
    seq![
        (x as int % 0x100) as u8,
        (x as int / 0x100 % 0x100) as u8,
        (x as int / 0x10000 % 0x100) as u8,
        (x as int / 0x1000000 % 0x100) as u8,
    ]
}

/// The little-endian codec for 32-bit values round-trips.
pub proof fn lemma_le_u32_round_trip(x: u32)
    ensures
        le_u32(le_bytes_of_u32(x)) == x,
{
    let b = x as int;
    let q1 = b / 0x100;
    let q2 = q1 / 0x100;
    let q3 = q2 / 0x100;
    assert(q2 == b / 0x10000) by {
        lemma_div_denominator(b, 0x100, 0x100);
    }
    assert(q3 == b / 0x1000000) by {
        lemma_div_denominator(b, 0x10000, 0x100);
    }
    assert(q3 < 0x100) by {
        lemma_multiply_divide_lt(b, 0x1000000, 0x100);
    }
    lemma_small_mod(q3 as nat, 0x100);
    lemma_fundamental_div_mod(b, 0x100);
    lemma_fundamental_div_mod(q1, 0x100);
    lemma_fundamental_div_mod(q2, 0x100);
    assert(b == q2 * 0x10000 + (q1 % 0x100) * 0x100 + b % 0x100);
    assert(b == q3 * 0x1000000 + (q2 % 0x100) * 0x10000 + (q1 % 0x100) * 0x100 + b % 0x100);
}

/// Read the 4-byte little-endian length stored at `off`.
pub fn decode_le_u32_at(b: &[u8], off: usize) -> (r: u32)
    requires
        off + 4 <= b@.len(),
    ensures
        r == le_u32(b@.subrange(off as int, off as int + 4)),
{
    let r = (b[off] as u32) + (b[off + 1] as u32) * 0x100 + (b[off + 2] as u32) * 0x10000 + (b[off
        + 3] as u32) * 0x1000000;
    proof {
        let s = b@.subrange(off as int, off as int + 4);
        assert(s[0] == b@[off as int] && s[1] == b@[off as int + 1] && s[2] == b@[off as int + 2]
            && s[3] == b@[off as int + 3]);
    }
    r
}

/// Write a 32-bit length as 4 little-endian bytes.
pub fn encode_le_u32(x: u32) -> (r: Vec<u8>)
    ensures
        r@ == le_bytes_of_u32(x),
{
    let mut r: Vec<u8> = Vec::new();
    r.push((x % 0x100) as u8);
    r.push((x / 0x100 % 0x100) as u8);
    r.push((x / 0x10000 % 0x100) as u8);
    r.push((x / 0x1000000 % 0x100) as u8);
    proof {
        assert(r@ =~= le_bytes_of_u32(x));
    }
    r
}

/// The value of an 8-byte string read as a little-endian integer.
pub open spec fn le_u64(s: Seq<u8>) -> int
    recommends
        s.len() == 8,
{
    s[0] + s[1] * 0x100 + s[2] * 0x10000 + s[3] * 0x1000000 + s[4] * 0x100000000 + s[5]
        * 0x10000000000 + s[6] * 0x1000000000000 + s[7] * 0x100000000000000
}

/// The 8-byte little-endian encoding of a 64-bit amount.
pub open spec fn le_bytes_of_u64(x: u64) -> Seq<u8> {
    seq![
        (x as int % 0x100) as u8,
        (x as int / 0x100 % 0x100) as u8,
        (x as int / 0x10000 % 0x100) as u8,
        (x as int / 0x1000000 % 0x100) as u8,
        (x as int / 0x100000000 % 0x100) as u8,
        (x as int / 0x10000000000 % 0x100) as u8,
        (x as int / 0x1000000000000 % 0x100) as u8,
        (x as int / 0x100000000000000 % 0x100) as u8,
    ]
}

/// The little-endian codec for 64-bit values round-trips.
pub proof fn lemma_le_u64_round_trip(x: u64)
    ensures
        le_u64(le_bytes_of_u64(x)) == x,
{
    let b = x as int;
    let q1 = b / 0x100;
    let q2 = q1 / 0x100;
    let q3 = q2 / 0x100;
    let q4 = q3 / 0x100;
    let q5 = q4 / 0x100;
    let q6 = q5 / 0x100;
    let q7 = q6 / 0x100;
    assert(q2 == b / 0x10000) by {
        lemma_div_denominator(b, 0x100, 0x100);
    }
    assert(q3 == b / 0x1000000) by {
        lemma_div_denominator(b, 0x10000, 0x100);
    }
    assert(q4 == b / 0x100000000) by {
        lemma_div_denominator(b, 0x1000000, 0x100);
    }
    assert(q5 == b / 0x10000000000) by {
        lemma_div_denominator(b, 0x100000000, 0x100);
    }
    assert(q6 == b / 0x1000000000000) by {
        lemma_div_denominator(b, 0x10000000000, 0x100);
    }
    assert(q7 == b / 0x100000000000000) by {
        lemma_div_denominator(b, 0x1000000000000, 0x100);
    }
    assert(q7 < 0x100) by {
        lemma_multiply_divide_lt(b, 0x100000000000000, 0x100);
    }
    lemma_small_mod(q7 as nat, 0x100);
    lemma_fundamental_div_mod(b, 0x100);
    lemma_fundamental_div_mod(q1, 0x100);
    lemma_fundamental_div_mod(q2, 0x100);
    lemma_fundamental_div_mod(q3, 0x100);
    lemma_fundamental_div_mod(q4, 0x100);
    lemma_fundamental_div_mod(q5, 0x100);
    lemma_fundamental_div_mod(q6, 0x100);
    assert(b == q2 * 0x10000 + (q1 % 0x100) * 0x100 + b % 0x100);
    assert(b == q3 * 0x1000000 + (q2 % 0x100) * 0x10000 + (q1 % 0x100) * 0x100 + b % 0x100);
    assert(b == q4 * 0x100000000 + (q3 % 0x100) * 0x1000000 + (q2 % 0x100) * 0x10000 + (q1
        % 0x100) * 0x100 + b % 0x100);
    assert(b == q5 * 0x10000000000 + (q4 % 0x100) * 0x100000000 + (q3 % 0x100) * 0x1000000 + (q2
        % 0x100) * 0x10000 + (q1 % 0x100) * 0x100 + b % 0x100);
    assert(b == q6 * 0x1000000000000 + (q5 % 0x100) * 0x10000000000 + (q4 % 0x100) * 0x100000000 + (
    q3 % 0x100) * 0x1000000 + (q2 % 0x100) * 0x10000 + (q1 % 0x100) * 0x100 + b % 0x100);
    assert(b == q7 * 0x100000000000000 + (q6 % 0x100) * 0x1000000000000 + (q5 % 0x100)
        * 0x10000000000 + (q4 % 0x100) * 0x100000000 + (q3 % 0x100) * 0x1000000 + (q2 % 0x100)
        * 0x10000 + (q1 % 0x100) * 0x100 + b % 0x100);
}

/// Read the 8-byte little-endian amount stored at `off`.
pub fn decode_le_u64_at(b: &[u8], off: usize) -> (r: u64)
    requires
        off + 8 <= b@.len(),
    ensures
        r == le_u64(b@.subrange(off as int, off as int + 8)),
{
    proof {
        let s = b@.subrange(off as int, off as int + 8);
        assert(s[0] == b@[off as int] && s[1] == b@[off as int + 1] && s[2] == b@[off as int + 2]
            && s[3] == b@[off as int + 3] && s[4] == b@[off as int + 4] && s[5] == b@[off as int
            + 5] && s[6] == b@[off as int + 6] && s[7] == b@[off as int + 7]);
        assert(s[0] <= 255 && s[1] <= 255 && s[2] <= 255 && s[3] <= 255 && s[4] <= 255 && s[5]
            <= 255 && s[6] <= 255 && s[7] <= 255);
    }
    (b[off] as u64) + (b[off + 1] as u64) * 0x100 + (b[off + 2] as u64) * 0x10000 + (b[off
        + 3] as u64) * 0x1000000 + (b[off + 4] as u64) * 0x100000000 + (b[off + 5] as u64)
        * 0x10000000000 + (b[off + 6] as u64) * 0x1000000000000 + (b[off + 7] as u64)
        * 0x100000000000000
}

/// Write a 64-bit amount as 8 little-endian bytes.
pub fn encode_le_u64(x: u64) -> (r: Vec<u8>)
    ensures
        r@ == le_bytes_of_u64(x),
{
    let mut r: Vec<u8> = Vec::new();
    r.push((x % 0x100) as u8);
    r.push((x / 0x100 % 0x100) as u8);
    r.push((x / 0x10000 % 0x100) as u8);
    r.push((x / 0x1000000 % 0x100) as u8);
    r.push((x / 0x100000000 % 0x100) as u8);
    r.push((x / 0x10000000000 % 0x100) as u8);
    r.push((x / 0x1000000000000 % 0x100) as u8);
    r.push((x / 0x100000000000000 % 0x100) as u8);
    proof {
        assert(r@ =~= le_bytes_of_u64(x));
    }
    r
}

} // verus!
