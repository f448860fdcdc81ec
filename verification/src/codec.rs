//! The binary layout of the stored records.
//!
//! A UTXO record is stored as `base_program(32) || verification_program(32)
//! || verification_data(4-byte length prefix, bytes) || content_data(4-byte
//! length prefix, bytes) || is_active(1) || account_seed(32) ||
//! is_initialized(1)`; the vault record as `total_locked(8) ||
//! is_initialized(1)`.  Length prefixes and the locked amount are stored
//! little-endian; a flag byte must be exactly 0 or 1.  Encoding and decoding
//! round-trip byte-exactly.

use crate::bytes::{
    append_bytes, decode_le_u32_at, decode_le_u64_at, encode_le_u32, encode_le_u64,
    le_bytes_of_u32, le_bytes_of_u64, le_u32, le_u64, lemma_le_u32_round_trip,
    lemma_le_u64_round_trip,
};
use crate::state::{UtxoView, VerificationAdmin, UTXO};
use vstd::prelude::*;

verus! {

/// The stored byte of a flag.
pub open spec fn bool_byte(b: bool) -> u8 {
    if b {
        1
    } else {
        0
    }
}

/// The encoded form of a UTXO record.
pub open spec fn encode_utxo_spec(v: UtxoView) -> Seq<u8> {
    v.base_program + v.verification_program + le_bytes_of_u32(v.verification_data.len() as u32)
        + v.verification_data + le_bytes_of_u32(v.content_data.len() as u32) + v.content_data
        + seq![bool_byte(v.is_active)] + v.account_seed + seq![bool_byte(v.is_initialized)]
}

/// The record a byte string decodes to, or nothing when the string is not an
/// exact encoding: too short for the fixed fields, inconsistent with its own
/// length prefixes, or holding a flag byte other than 0 and 1.
pub open spec fn decode_utxo_spec(s: Seq<u8>) -> Option<UtxoView> {
    if s.len() < 68 {
        None
    } else {
        let vlen = le_u32(s.subrange(64, 68));
        if s.len() < 72 + vlen {
            None
        } else {
            let clen = le_u32(s.subrange(68 + vlen, 72 + vlen));
            if s.len() != 106 + vlen + clen {
                None
            } else {
                let active_byte = s[72 + vlen + clen];
                let init_byte = s[105 + vlen + clen];
                if active_byte > 1 || init_byte > 1 {
                    None
                } else {
                    Some(
                        UtxoView {
                            base_program: s.subrange(0, 32),
                            verification_program: s.subrange(32, 64),
                            verification_data: s.subrange(68, 68 + vlen),
                            content_data: s.subrange(72 + vlen, 72 + vlen + clen),
                            is_active: active_byte == 1,
                            account_seed: s.subrange(73 + vlen + clen, 105 + vlen + clen),
                            is_initialized: init_byte == 1,
                        },
                    )
                }
            }
        }
    }
}

/// Encode a UTXO record.
pub fn encode_utxo(u: &UTXO) -> (r: Vec<u8>)
    requires
        u.verification_data@.len() <= u32::MAX,
        u.content_data@.len() <= u32::MAX,
    ensures
        r@ == encode_utxo_spec(u@),
{
    let mut r: Vec<u8> = Vec::new();
    append_bytes(&mut r, u.base_program.as_slice());
    append_bytes(&mut r, u.verification_program.as_slice());
    let vlen_bytes = encode_le_u32(u.verification_data.len() as u32);
    append_bytes(&mut r, vlen_bytes.as_slice());
    append_bytes(&mut r, u.verification_data.as_slice());
    let clen_bytes = encode_le_u32(u.content_data.len() as u32);
    append_bytes(&mut r, clen_bytes.as_slice());
    append_bytes(&mut r, u.content_data.as_slice());
    r.push(if u.is_active {
        1
    } else {
        0
    });
    append_bytes(&mut r, u.account_seed.as_slice());
    r.push(if u.is_initialized {
        1
    } else {
        0
    });
    proof {
        assert(r@ =~= encode_utxo_spec(u@));
    }
    r
}

/// Copy the 32-byte identity stored at `off`.
fn read_key32(b: &[u8], off: usize) -> (r: [u8; 32])
    requires
        off + 32 <= b@.len(),
    ensures
        r@ == b@.subrange(off as int, off as int + 32),
{
    let n = b.len();
    let mut r: [u8; 32] = [0; 32];
    let mut k: usize = 0;
    while k < 32
        invariant
            n == b@.len(),
            off + 32 <= b@.len(),
            k <= 32,
            r@.len() == 32,
            forall|j: int| 0 <= j < k ==> r@[j] == b@[off + j],
        decreases 32 - k,
    {
        r[k] = b[off + k];
        k += 1;
    }
    proof {
        assert(r@ =~= b@.subrange(off as int, off as int + 32));
    }
    r
}

/// Copy the `len` bytes stored at `off`.
fn read_bytes(b: &[u8], off: usize, len: usize) -> (r: Vec<u8>)
    requires
        off + len <= b@.len(),
    ensures
        r@ == b@.subrange(off as int, off as int + len),
{
    let n = b.len();
    let mut r: Vec<u8> = Vec::new();
    let mut k: usize = 0;
    while k < len
        invariant
            n == b@.len(),
            off + len <= b@.len(),
            k <= len,
            r@ == b@.subrange(off as int, off as int + k),
        decreases len - k,
    {
        r.push(b[off + k]);
        proof {
            assert(b@.subrange(off as int, off as int + k + 1) =~= b@.subrange(
                off as int,
                off as int + k,
            ).push(b@[off + k]));
        }
        k += 1;
    }
    r
}

/// Decode a UTXO record from its stored bytes.
pub fn decode_utxo(b: &[u8]) -> (r: Option<UTXO>)
    ensures
        match r {
            Some(u) => decode_utxo_spec(b@) == Some(u@),
            None => decode_utxo_spec(b@) is None,
        },
{
    let n = b.len();
    if n < 68 {
        return None;
    }
    let vlen = decode_le_u32_at(b, 64) as usize;
    if vlen > n - 68 || n - 68 - vlen < 4 {
        return None;
    }
    let clen = decode_le_u32_at(b, 68 + vlen) as usize;
    let rem = n - 72 - vlen;
    if rem < 34 || clen != rem - 34 {
        return None;
    }
    let active_byte = b[n - 34];
    let init_byte = b[n - 1];
    if active_byte > 1 || init_byte > 1 {
        return None;
    }
    let u = UTXO {
        base_program: read_key32(b, 0),
        verification_program: read_key32(b, 32),
        verification_data: read_bytes(b, 68, vlen),
        content_data: read_bytes(b, 72 + vlen, clen),
        is_active: active_byte == 1,
        account_seed: read_key32(b, n - 33),
        is_initialized: init_byte == 1,
    };
    Some(u)
}

/// Law: the UTXO record codec round-trips, for verification and content
/// data of every length the 4-byte prefixes can carry.
#[verifier::rlimit(60)]
pub proof fn lemma_utxo_codec_round_trip(v: UtxoView)
    requires
        v.base_program.len() == 32,
        v.verification_program.len() == 32,
        v.account_seed.len() == 32,
        v.verification_data.len() <= u32::MAX,
        v.content_data.len() <= u32::MAX,
    ensures
        decode_utxo_spec(encode_utxo_spec(v)) == Some(v),
{
    let s = encode_utxo_spec(v);
    let vl = v.verification_data.len() as int;
    let cl = v.content_data.len() as int;
    assert(s.len() == 106 + vl + cl);
    assert(s.subrange(64, 68) =~= le_bytes_of_u32(vl as u32));
    lemma_le_u32_round_trip(vl as u32);
    assert(le_u32(s.subrange(64, 68)) == vl);
    assert(s.subrange(68 + vl, 72 + vl) =~= le_bytes_of_u32(cl as u32));
    lemma_le_u32_round_trip(cl as u32);
    assert(le_u32(s.subrange(68 + vl, 72 + vl)) == cl);
    assert(s.subrange(0, 32) =~= v.base_program);
    assert(s.subrange(32, 64) =~= v.verification_program);
    assert(s.subrange(68, 68 + vl) =~= v.verification_data);
    assert(s.subrange(72 + vl, 72 + vl + cl) =~= v.content_data);
    assert(s[72 + vl + cl] == bool_byte(v.is_active));
    assert(s.subrange(73 + vl + cl, 105 + vl + cl) =~= v.account_seed);
    assert(s[105 + vl + cl] == bool_byte(v.is_initialized));
}

/// The encoded form of the vault record.
pub open spec fn encode_admin_spec(a: VerificationAdmin) -> Seq<u8> {
    le_bytes_of_u64(a.total_locked) + seq![bool_byte(a.is_initialized)]
}

/// The vault record a 9-byte string decodes to, or nothing.
pub open spec fn decode_admin_spec(s: Seq<u8>) -> Option<VerificationAdmin> {
    if s.len() != 9 {
        None
    } else if s[8] > 1 {
        None
    } else {
        Some(
            VerificationAdmin {
                total_locked: le_u64(s.subrange(0, 8)) as u64,
                is_initialized: s[8] == 1,
            },
        )
    }
}

/// Encode the vault record.
pub fn encode_admin(a: &VerificationAdmin) -> (r: Vec<u8>)
    ensures
        r@ == encode_admin_spec(*a),
{
    let mut r = encode_le_u64(a.total_locked);
    r.push(if a.is_initialized {
        1
    } else {
        0
    });
    proof {
        assert(r@ =~= encode_admin_spec(*a));
    }
    r
}

/// Decode the vault record from its stored bytes.
pub fn decode_admin(b: &[u8]) -> (r: Option<VerificationAdmin>)
    ensures
        match r {
            Some(a) => decode_admin_spec(b@) == Some(a),
            None => decode_admin_spec(b@) is None,
        },
{
    if b.len() != 9 {
        return None;
    }
    let init_byte = b[8];
    if init_byte > 1 {
        return None;
    }
    let total_locked = decode_le_u64_at(b, 0);
    Some(VerificationAdmin { total_locked, is_initialized: init_byte == 1 })
}

/// Law: the vault record codec round-trips.
pub proof fn lemma_admin_codec_round_trip(a: VerificationAdmin)
    ensures
        decode_admin_spec(encode_admin_spec(a)) == Some(a),
{
    let s = encode_admin_spec(a);
    assert(s.subrange(0, 8) =~= le_bytes_of_u64(a.total_locked));
    lemma_le_u64_round_trip(a.total_locked);
    assert(s[8] == bool_byte(a.is_initialized));
}

} // verus!
