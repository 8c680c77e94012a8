//! Record byte layout.
//!
//! Every persistent record serializes as an 8-byte record-kind
//! discriminant followed by its fields in declaration order: fixed-width
//! little-endian integers; addresses as 32 bytes; strings as a 4-byte
//! little-endian byte length followed by the UTF-8 bytes; `Option<T>` as a
//! one-byte tag (0 absent, 1 present) followed by the payload; `bool` as
//! one byte. Encoders produce exactly this layout; decoders accept only
//! it: whatever a decoder returns re-encodes to the bytes it consumed.

use vstd::prelude::*;

use vstd::slice::{slice_subrange, slice_to_vec};
use vstd::utf8::{encode_utf8, valid_utf8};

use crate::keys::Address;
use crate::pda::{addr_bytes, le8, spec_addr_bytes, spec_le8};

verus! {

/// A string: its byte length as a 4-byte little-endian prefix, then its
/// UTF-8 bytes.
pub open spec fn spec_str_bytes(s: Seq<char>) -> Seq<u8> {
    spec_le4(encode_utf8(s).len() as u32) + encode_utf8(s)
}

/// An optional timestamp: a one-byte tag, then the payload if present.
pub open spec fn spec_opt_i64(o: Option<i64>) -> Seq<u8> {
    match o {
        None => seq![0u8],
        Some(t) => seq![1u8] + spec_le8i(t),
    }
}

/// An optional address: a one-byte tag, then the payload if present.
pub open spec fn spec_opt_addr(o: Option<Address>) -> Seq<u8> {
    match o {
        None => seq![0u8],
        Some(a) => seq![1u8] + spec_addr_bytes(a),
    }
}

/// Relies on String::from_utf8: it accepts exactly the valid UTF-8 byte
/// sequences and returns the string those bytes spell.
#[verifier::external_body]
fn bytes_to_string(b: Vec<u8>) -> (r: Option<String>)
    ensures
        match r {
            Some(s) => encode_utf8(s@) == b@,
            None => !valid_utf8(b@),
        },
{
    match String::from_utf8(b) {
        Ok(s) => Some(s),
        Err(_) => None,
    }
}

/// Little-endian bytes of a `u16`.
pub open spec fn spec_le2(x: u16) -> Seq<u8> {
    seq![(x & 0xff) as u8, ((x >> 8) & 0xff) as u8]
}

/// Little-endian bytes of a `u32`.
pub open spec fn spec_le4(x: u32) -> Seq<u8> {
    seq![
        (x & 0xff) as u8,
        ((x >> 8) & 0xff) as u8,
        ((x >> 16) & 0xff) as u8,
        ((x >> 24) & 0xff) as u8,
    ]
}

/// Little-endian bytes of an `i64`: the bytes of its two's-complement
/// bit pattern.
pub open spec fn spec_le8i(x: i64) -> Seq<u8> {
    spec_le8(x as u64)
}

/// One byte for a `bool`.
pub open spec fn spec_bool_byte(b: bool) -> Seq<u8> {
    if b {
        seq![1u8]
    } else {
        seq![0u8]
    }
}

/// The `u16` two little-endian bytes spell.
pub open spec fn spec_u16_of(s: Seq<u8>) -> u16
    recommends
        s.len() == 2,
{
    (s[0] as u16) | ((s[1] as u16) << 8)
}

/// The `u32` four little-endian bytes spell.
pub open spec fn spec_u32_of(s: Seq<u8>) -> u32
    recommends
        s.len() == 4,
{
    (s[0] as u32) | ((s[1] as u32) << 8) | ((s[2] as u32) << 16) | ((s[3] as u32) << 24)
}

/// The `u64` eight little-endian bytes spell.
pub open spec fn spec_u64_of(s: Seq<u8>) -> u64
    recommends
        s.len() == 8,
{
    (s[0] as u64) | ((s[1] as u64) << 8) | ((s[2] as u64) << 16) | ((s[3] as u64) << 24) | (
    (s[4] as u64) << 32) | ((s[5] as u64) << 40) | ((s[6] as u64) << 48) | ((s[7] as u64) << 56)
}

/// Reading back the bytes of a `u16` gives the `u16`.
pub proof fn lemma_le2_round_trip(x: u16)
    ensures
        spec_u16_of(spec_le2(x)) == x,
{
    assert((((x & 0xff) as u8) as u16) | (((((x >> 8) & 0xff) as u8) as u16) << 8) == x)
        by (bit_vector);
}

/// Reading back the bytes of a `u32` gives the `u32`.
pub proof fn lemma_le4_round_trip(x: u32)
    ensures
        spec_u32_of(spec_le4(x)) == x,
{
    assert((((x & 0xff) as u8) as u32) | (((((x >> 8) & 0xff) as u8) as u32) << 8) | (((((x >> 16)
        & 0xff) as u8) as u32) << 16) | (((((x >> 24) & 0xff) as u8) as u32) << 24) == x)
        by (bit_vector);
}

/// Reading back the bytes of a `u64` gives the `u64`.
pub proof fn lemma_le8_round_trip(x: u64)
    ensures
        spec_u64_of(spec_le8(x)) == x,
{
    assert((((x & 0xff) as u8) as u64) | (((((x >> 8) & 0xff) as u8) as u64) << 8) | (((((x >> 16)
        & 0xff) as u8) as u64) << 16) | (((((x >> 24) & 0xff) as u8) as u64) << 24) | (((((x >> 32)
        & 0xff) as u8) as u64) << 32) | (((((x >> 40) & 0xff) as u8) as u64) << 40) | (((((x >> 48)
        & 0xff) as u8) as u64) << 48) | (((((x >> 56) & 0xff) as u8) as u64) << 56) == x)
        by (bit_vector);
}

/// Any two little-endian bytes are the encoding of the `u16` they spell.
pub proof fn lemma_u16_of_le2(s: Seq<u8>)
    requires
        s.len() == 2,
    ensures
        spec_le2(spec_u16_of(s)) =~= s,
{
    let b0 = s[0];
    let b1 = s[1];
    let v = spec_u16_of(s);
    assert((((b0 as u16) | ((b1 as u16) << 8)) & 0xff) as u8 == b0 && ((((b0 as u16) | ((
    b1 as u16) << 8)) >> 8) & 0xff) as u8 == b1) by (bit_vector);
}

/// Any four little-endian bytes are the encoding of the `u32` they spell.
pub proof fn lemma_u32_of_le4(s: Seq<u8>)
    requires
        s.len() == 4,
    ensures
        spec_le4(spec_u32_of(s)) =~= s,
{
    let b0 = s[0];
    let b1 = s[1];
    let b2 = s[2];
    let b3 = s[3];
    let v = (b0 as u32) | ((b1 as u32) << 8) | ((b2 as u32) << 16) | ((b3 as u32) << 24);
    assert((v & 0xff) as u8 == b0 && ((v >> 8) & 0xff) as u8 == b1 && ((v >> 16) & 0xff) as u8
        == b2 && ((v >> 24) & 0xff) as u8 == b3) by (bit_vector)
        requires
            v == (b0 as u32) | ((b1 as u32) << 8) | ((b2 as u32) << 16) | ((b3 as u32) << 24),
    ;
}

/// Any eight little-endian bytes are the encoding of the `u64` they spell.
pub proof fn lemma_u64_of_le8(s: Seq<u8>)
    requires
        s.len() == 8,
    ensures
        spec_le8(spec_u64_of(s)) =~= s,
{
    let b0 = s[0];
    let b1 = s[1];
    let b2 = s[2];
    let b3 = s[3];
    let b4 = s[4];
    let b5 = s[5];
    let b6 = s[6];
    let b7 = s[7];
    let v = (b0 as u64) | ((b1 as u64) << 8) | ((b2 as u64) << 16) | ((b3 as u64) << 24) | ((
    b4 as u64) << 32) | ((b5 as u64) << 40) | ((b6 as u64) << 48) | ((b7 as u64) << 56);
    assert((v & 0xff) as u8 == b0 && ((v >> 8) & 0xff) as u8 == b1 && ((v >> 16) & 0xff) as u8
        == b2 && ((v >> 24) & 0xff) as u8 == b3 && ((v >> 32) & 0xff) as u8 == b4 && ((v >> 40)
        & 0xff) as u8 == b5 && ((v >> 48) & 0xff) as u8 == b6 && ((v >> 56) & 0xff) as u8 == b7)
        by (bit_vector)
        requires
            v == (b0 as u64) | ((b1 as u64) << 8) | ((b2 as u64) << 16) | ((b3 as u64) << 24) | (
            (b4 as u64) << 32) | ((b5 as u64) << 40) | ((b6 as u64) << 48) | ((b7 as u64) << 56),
    ;
}

/// Append the two little-endian bytes of a `u16`.
pub fn put_u16(out: &mut Vec<u8>, x: u16)
    ensures
        final(out)@ == old(out)@ + spec_le2(x),
{
    out.push((x & 0xff) as u8);
    out.push(((x >> 8) & 0xff) as u8);
    proof {
        assert(out@ =~= old(out)@ + spec_le2(x));
    }
}

/// Append the four little-endian bytes of a `u32`.
pub fn put_u32(out: &mut Vec<u8>, x: u32)
    ensures
        final(out)@ == old(out)@ + spec_le4(x),
{
    out.push((x & 0xff) as u8);
    out.push(((x >> 8) & 0xff) as u8);
    out.push(((x >> 16) & 0xff) as u8);
    out.push(((x >> 24) & 0xff) as u8);
    proof {
        assert(out@ =~= old(out)@ + spec_le4(x));
    }
}

/// Append the eight little-endian bytes of a `u64`.
pub fn put_u64(out: &mut Vec<u8>, x: u64)
    ensures
        final(out)@ == old(out)@ + spec_le8(x),
{
    let mut t = le8(x);
    out.append(&mut t);
}

/// Append the eight little-endian bytes of an `i64`.
pub fn put_i64(out: &mut Vec<u8>, x: i64)
    ensures
        final(out)@ == old(out)@ + spec_le8i(x),
{
    put_u64(out, x as u64);
}

/// Append the 32 bytes of an address.
pub fn put_addr(out: &mut Vec<u8>, a: &Address)
    ensures
        final(out)@ == old(out)@ + spec_addr_bytes(*a),
{
    let mut t = addr_bytes(a);
    out.append(&mut t);
}

/// Append one byte for a `bool`.
pub fn put_bool(out: &mut Vec<u8>, b: bool)
    ensures
        final(out)@ == old(out)@ + spec_bool_byte(b),
{
    out.push(if b { 1 } else { 0 });
    proof {
        assert(out@ =~= old(out)@ + spec_bool_byte(b));
    }
}

/// Append a string: its byte length, then its bytes.
pub fn put_str(out: &mut Vec<u8>, s: &String)
    ensures
        final(out)@ == old(out)@ + spec_str_bytes(s@),
{
    let bytes = slice_to_vec(s.as_str().as_bytes());
    put_u32(out, bytes.len() as u32);
    let mut t = bytes;
    out.append(&mut t);
    proof {
        assert(out@ =~= old(out)@ + spec_str_bytes(s@));
    }
}

/// Append an optional timestamp.
pub fn put_opt_i64(out: &mut Vec<u8>, o: &Option<i64>)
    ensures
        final(out)@ == old(out)@ + spec_opt_i64(*o),
{
    match o {
        None => {
            out.push(0);
            proof {
                assert(out@ =~= old(out)@ + spec_opt_i64(*o));
            }
        },
        Some(t) => {
            out.push(1);
            put_i64(out, *t);
            proof {
                assert(out@ =~= old(out)@ + spec_opt_i64(*o));
            }
        },
    }
}

/// Append an optional address.
pub fn put_opt_addr(out: &mut Vec<u8>, o: &Option<Address>)
    ensures
        final(out)@ == old(out)@ + spec_opt_addr(*o),
{
    match o {
        None => {
            out.push(0);
            proof {
                assert(out@ =~= old(out)@ + spec_opt_addr(*o));
            }
        },
        Some(a) => {
            out.push(1);
            put_addr(out, a);
            proof {
                assert(out@ =~= old(out)@ + spec_opt_addr(*o));
            }
        },
    }
}

/// Read a `u16` at `pos`.
pub fn get_u16(b: &[u8], pos: usize) -> (r: Option<(u16, usize)>)
    ensures
        match r {
            Some((v, p2)) => pos + 2 <= b@.len() && p2 == pos + 2 && v == spec_u16_of(
                b@.subrange(pos as int, pos as int + 2),
            ) && b@.subrange(pos as int, pos as int + 2) == spec_le2(v),
            None => pos + 2 > b@.len(),
        },
{
    if pos > b.len() || b.len() - pos < 2 {
        return None;
    }
    let v: u16 = (b[pos] as u16) | ((b[pos + 1] as u16) << 8);
    proof {
        lemma_u16_of_le2(b@.subrange(pos as int, pos as int + 2));
    }
    Some((v, pos + 2))
}

/// Read a `u32` at `pos`.
pub fn get_u32(b: &[u8], pos: usize) -> (r: Option<(u32, usize)>)
    ensures
        match r {
            Some((v, p2)) => pos + 4 <= b@.len() && p2 == pos + 4 && v == spec_u32_of(
                b@.subrange(pos as int, pos as int + 4),
            ) && b@.subrange(pos as int, pos as int + 4) == spec_le4(v),
            None => pos + 4 > b@.len(),
        },
{
    if pos > b.len() || b.len() - pos < 4 {
        return None;
    }
    let v: u32 = (b[pos] as u32) | ((b[pos + 1] as u32) << 8) | ((b[pos + 2] as u32) << 16) | ((
    b[pos + 3] as u32) << 24);
    proof {
        lemma_u32_of_le4(b@.subrange(pos as int, pos as int + 4));
    }
    Some((v, pos + 4))
}

/// Read a `u64` at `pos`.
pub fn get_u64(b: &[u8], pos: usize) -> (r: Option<(u64, usize)>)
    ensures
        match r {
            Some((v, p2)) => pos + 8 <= b@.len() && p2 == pos + 8 && v == spec_u64_of(
                b@.subrange(pos as int, pos as int + 8),
            ) && b@.subrange(pos as int, pos as int + 8) == spec_le8(v),
            None => pos + 8 > b@.len(),
        },
{
    if pos > b.len() || b.len() - pos < 8 {
        return None;
    }
    let v: u64 = (b[pos] as u64) | ((b[pos + 1] as u64) << 8) | ((b[pos + 2] as u64) << 16) | ((
    b[pos + 3] as u64) << 24) | ((b[pos + 4] as u64) << 32) | ((b[pos + 5] as u64) << 40) | ((
    b[pos + 6] as u64) << 48) | ((b[pos + 7] as u64) << 56);
    proof {
        lemma_u64_of_le8(b@.subrange(pos as int, pos as int + 8));
    }
    Some((v, pos + 8))
}

/// Read an `i64` at `pos`.
pub fn get_i64(b: &[u8], pos: usize) -> (r: Option<(i64, usize)>)
    ensures
        match r {
            Some((v, p2)) => pos + 8 <= b@.len() && p2 == pos + 8 && spec_le8i(v) == b@.subrange(
                pos as int,
                pos as int + 8,
            ),
            None => pos + 8 > b@.len(),
        },
{
    match get_u64(b, pos) {
        None => None,
        Some((v, p2)) => {
            proof {
                lemma_u64_of_le8(b@.subrange(pos as int, pos as int + 8));
                assert((v as i64) as u64 == v) by (bit_vector);
            }
            Some((v as i64, p2))
        },
    }
}

/// Read an address at `pos`.
pub fn get_addr(b: &[u8], pos: usize) -> (r: Option<(Address, usize)>)
    ensures
        match r {
            Some((a, p2)) => pos + 32 <= b@.len() && p2 == pos + 32 && spec_addr_bytes(a)
                == b@.subrange(pos as int, pos as int + 32),
            None => pos + 32 > b@.len(),
        },
{
    if pos > b.len() || b.len() - pos < 32 {
        return None;
    }
    let (w0, p1) = match get_u64(b, pos) {
        Some(t) => t,
        None => return None,
    };
    let (w1, p2) = match get_u64(b, p1) {
        Some(t) => t,
        None => return None,
    };
    let (w2, p3) = match get_u64(b, p2) {
        Some(t) => t,
        None => return None,
    };
    let (w3, p4) = match get_u64(b, p3) {
        Some(t) => t,
        None => return None,
    };
    let a = Address { w0, w1, w2, w3 };
    proof {
        lemma_u64_of_le8(b@.subrange(pos as int, pos as int + 8));
        lemma_u64_of_le8(b@.subrange(pos as int + 8, pos as int + 16));
        lemma_u64_of_le8(b@.subrange(pos as int + 16, pos as int + 24));
        lemma_u64_of_le8(b@.subrange(pos as int + 24, pos as int + 32));
        assert(spec_addr_bytes(a) =~= b@.subrange(pos as int, pos as int + 32));
    }
    Some((a, pos + 32))
}

/// Read a `bool` at `pos`: only the bytes 0 and 1 are accepted.
pub fn get_bool(b: &[u8], pos: usize) -> (r: Option<(bool, usize)>)
    ensures
        match r {
            Some((v, p2)) => pos + 1 <= b@.len() && p2 == pos + 1 && spec_bool_byte(v)
                == b@.subrange(pos as int, pos as int + 1),
            None => pos + 1 > b@.len() || (b@[pos as int] != 0 && b@[pos as int] != 1),
        },
{
    if pos >= b.len() {
        return None;
    }
    let byte = b[pos];
    if byte == 0 {
        proof {
            assert(spec_bool_byte(false) =~= b@.subrange(pos as int, pos as int + 1));
        }
        Some((false, pos + 1))
    } else if byte == 1 {
        proof {
            assert(spec_bool_byte(true) =~= b@.subrange(pos as int, pos as int + 1));
        }
        Some((true, pos + 1))
    } else {
        None
    }
}

/// Read a string at `pos`: the consumed bytes are exactly the returned
/// string's encoding.
pub fn get_str(b: &[u8], pos: usize) -> (r: Option<(String, usize)>)
    ensures
        match r {
            Some((s, p2)) => pos + 4 <= b@.len() && p2 <= b@.len() && p2 == pos + 4 + encode_utf8(
                s@,
            ).len() && encode_utf8(s@).len() <= u32::MAX && b@.subrange(pos as int, p2 as int)
                == spec_str_bytes(s@),
            None => pos + 4 > b@.len() || ({
                let l = spec_u32_of(b@.subrange(pos as int, pos as int + 4)) as int;
                pos + 4 + l > b@.len() || !valid_utf8(
                    b@.subrange(pos as int + 4, pos as int + 4 + l),
                )
            }),
        },
{
    let (len32, p1) = match get_u32(b, pos) {
        Some(t) => t,
        None => return None,
    };
    let len = len32 as usize;
    if len > b.len() - p1 {
        return None;
    }
    let sub = slice_to_vec(slice_subrange(b, p1, p1 + len));
    match bytes_to_string(sub) {
        None => None,
        Some(s) => {
            proof {
                lemma_u32_of_le4(b@.subrange(pos as int, pos as int + 4));
                assert(b@.subrange(pos as int, (pos + 4 + len) as int) =~= b@.subrange(
                    pos as int,
                    pos as int + 4,
                ) + b@.subrange(pos as int + 4, (pos + 4 + len) as int));
            }
            Some((s, p1 + len))
        },
    }
}

/// Read an optional timestamp at `pos`.
pub fn get_opt_i64(b: &[u8], pos: usize) -> (r: Option<(Option<i64>, usize)>)
    ensures
        match r {
            Some((o, p2)) => pos < b@.len() && pos < p2 <= b@.len() && b@.subrange(
                pos as int,
                p2 as int,
            ) == spec_opt_i64(o),
            None => pos + 1 > b@.len() || (b@[pos as int] != 0 && b@[pos as int] != 1) || (
            b@[pos as int] == 1 && pos + 9 > b@.len()),
        },
{
    if pos >= b.len() {
        return None;
    }
    let tag = b[pos];
    if tag == 0 {
        proof {
            assert(b@.subrange(pos as int, pos as int + 1) =~= spec_opt_i64(None));
        }
        return Some((None, pos + 1));
    }
    if tag != 1 {
        return None;
    }
    match get_i64(b, pos + 1) {
        None => None,
        Some((t, p2)) => {
            proof {
                assert(b@.subrange(pos as int, p2 as int) =~= spec_opt_i64(Some(t)));
            }
            Some((Some(t), p2))
        },
    }
}

/// Read an optional address at `pos`.
pub fn get_opt_addr(b: &[u8], pos: usize) -> (r: Option<(Option<Address>, usize)>)
    ensures
        match r {
            Some((o, p2)) => pos < b@.len() && pos < p2 <= b@.len() && b@.subrange(
                pos as int,
                p2 as int,
            ) == spec_opt_addr(o),
            None => pos + 1 > b@.len() || (b@[pos as int] != 0 && b@[pos as int] != 1) || (
            b@[pos as int] == 1 && pos + 33 > b@.len()),
        },
{
    if pos >= b.len() {
        return None;
    }
    let tag = b[pos];
    if tag == 0 {
        proof {
            assert(b@.subrange(pos as int, pos as int + 1) =~= spec_opt_addr(None));
        }
        return Some((None, pos + 1));
    }
    if tag != 1 {
        return None;
    }
    match get_addr(b, pos + 1) {
        None => None,
        Some((a, p2)) => {
            proof {
                assert(b@.subrange(pos as int, p2 as int) =~= spec_opt_addr(Some(a)));
            }
            Some((Some(a), p2))
        },
    }
}

/// Append one byte.
pub fn put_u8(out: &mut Vec<u8>, x: u8)
    ensures
        final(out)@ == old(out)@ + seq![x],
{
    out.push(x);
    proof {
        assert(out@ =~= old(out)@ + seq![x]);
    }
}

/// Read one byte at `pos`.
pub fn get_u8(b: &[u8], pos: usize) -> (r: Option<(u8, usize)>)
    ensures
        match r {
            Some((v, p2)) => pos + 1 <= b@.len() && p2 == pos + 1 && b@.subrange(
                pos as int,
                pos as int + 1,
            ) == seq![v],
            None => pos + 1 > b@.len(),
        },
{
    if pos >= b.len() {
        return None;
    }
    proof {
        assert(b@.subrange(pos as int, pos as int + 1) =~= seq![b@[pos as int]]);
    }
    Some((b[pos], pos + 1))
}

/// Field bytes of the record, in declaration order.
pub open spec fn spec_amm_config_bytes(r: crate::amm::Config) -> Seq<u8> {
    spec_le8(r.seed) + spec_opt_addr(r.authority) + spec_addr_bytes(r.mint_x) + spec_addr_bytes(r.mint_y) + spec_le2(r.fee) + seq![r.config_bump] + seq![r.lp_bump] + spec_bool_byte(r.locked)
}

/// Append the record's field bytes.
pub fn put_amm_config(out: &mut Vec<u8>, r: &crate::amm::Config)
    ensures
        final(out)@ == old(out)@ + spec_amm_config_bytes(*r),
{
    put_u64(out, r.seed);
    proof { assert(out@ =~= old(out)@ + (spec_le8(r.seed))); }
    put_opt_addr(out, &r.authority);
    proof { assert(out@ =~= old(out)@ + (spec_le8(r.seed) + spec_opt_addr(r.authority))); }
    put_addr(out, &r.mint_x);
    proof { assert(out@ =~= old(out)@ + (spec_le8(r.seed) + spec_opt_addr(r.authority) + spec_addr_bytes(r.mint_x))); }
    put_addr(out, &r.mint_y);
    proof { assert(out@ =~= old(out)@ + (spec_le8(r.seed) + spec_opt_addr(r.authority) + spec_addr_bytes(r.mint_x) + spec_addr_bytes(r.mint_y))); }
    put_u16(out, r.fee);
    proof { assert(out@ =~= old(out)@ + (spec_le8(r.seed) + spec_opt_addr(r.authority) + spec_addr_bytes(r.mint_x) + spec_addr_bytes(r.mint_y) + spec_le2(r.fee))); }
    put_u8(out, r.config_bump);
    proof { assert(out@ =~= old(out)@ + (spec_le8(r.seed) + spec_opt_addr(r.authority) + spec_addr_bytes(r.mint_x) + spec_addr_bytes(r.mint_y) + spec_le2(r.fee) + seq![r.config_bump])); }
    put_u8(out, r.lp_bump);
    proof { assert(out@ =~= old(out)@ + (spec_le8(r.seed) + spec_opt_addr(r.authority) + spec_addr_bytes(r.mint_x) + spec_addr_bytes(r.mint_y) + spec_le2(r.fee) + seq![r.config_bump] + seq![r.lp_bump])); }
    put_bool(out, r.locked);
    proof { assert(out@ =~= old(out)@ + (spec_le8(r.seed) + spec_opt_addr(r.authority) + spec_addr_bytes(r.mint_x) + spec_addr_bytes(r.mint_y) + spec_le2(r.fee) + seq![r.config_bump] + seq![r.lp_bump] + spec_bool_byte(r.locked))); }
}

/// Read the record's fields at `pos`; the consumed bytes are exactly the
/// returned record's field bytes.
pub fn get_amm_config(b: &[u8], pos: usize) -> (r: Option<(crate::amm::Config, usize)>)
    ensures
        r matches Some((v, p2)) ==> p2 <= b@.len() && b@.subrange(pos as int, p2 as int)
            == spec_amm_config_bytes(v),
{
    let (seed, p1) = match get_u64(b, pos) {
        Some(t) => t,
        None => return None,
    };
    let (authority, p2) = match get_opt_addr(b, p1) {
        Some(t) => t,
        None => return None,
    };
    let (mint_x, p3) = match get_addr(b, p2) {
        Some(t) => t,
        None => return None,
    };
    let (mint_y, p4) = match get_addr(b, p3) {
        Some(t) => t,
        None => return None,
    };
    let (fee, p5) = match get_u16(b, p4) {
        Some(t) => t,
        None => return None,
    };
    let (config_bump, p6) = match get_u8(b, p5) {
        Some(t) => t,
        None => return None,
    };
    let (lp_bump, p7) = match get_u8(b, p6) {
        Some(t) => t,
        None => return None,
    };
    let (locked, p8) = match get_bool(b, p7) {
        Some(t) => t,
        None => return None,
    };
    let v = crate::amm::Config {
        seed,
        authority,
        mint_x,
        mint_y,
        fee,
        config_bump,
        lp_bump,
        locked
    };
    proof {
        assert(b@.subrange(pos as int, p2 as int) =~= b@.subrange(pos as int, p1 as int) + b@.subrange(p1 as int, p2 as int));
        assert(b@.subrange(pos as int, p3 as int) =~= b@.subrange(pos as int, p2 as int) + b@.subrange(p2 as int, p3 as int));
        assert(b@.subrange(pos as int, p4 as int) =~= b@.subrange(pos as int, p3 as int) + b@.subrange(p3 as int, p4 as int));
        assert(b@.subrange(pos as int, p5 as int) =~= b@.subrange(pos as int, p4 as int) + b@.subrange(p4 as int, p5 as int));
        assert(b@.subrange(pos as int, p6 as int) =~= b@.subrange(pos as int, p5 as int) + b@.subrange(p5 as int, p6 as int));
        assert(b@.subrange(pos as int, p7 as int) =~= b@.subrange(pos as int, p6 as int) + b@.subrange(p6 as int, p7 as int));
        assert(b@.subrange(pos as int, p8 as int) =~= b@.subrange(pos as int, p7 as int) + b@.subrange(p7 as int, p8 as int));
        assert(b@.subrange(pos as int, p8 as int) == spec_amm_config_bytes(v));
    }
    Some((v, p8))
}

/// Field bytes of the record, in declaration order.
pub open spec fn spec_escrow_state_bytes(r: crate::escrow::EscrowState) -> Seq<u8> {
    spec_le8(r.seed) + spec_addr_bytes(r.maker) + spec_addr_bytes(r.mint_a) + spec_addr_bytes(r.mint_b) + spec_le8(r.receive_amount) + seq![r.bump]
}

/// Append the record's field bytes.
pub fn put_escrow_state(out: &mut Vec<u8>, r: &crate::escrow::EscrowState)
    ensures
        final(out)@ == old(out)@ + spec_escrow_state_bytes(*r),
{
    put_u64(out, r.seed);
    proof { assert(out@ =~= old(out)@ + (spec_le8(r.seed))); }
    put_addr(out, &r.maker);
    proof { assert(out@ =~= old(out)@ + (spec_le8(r.seed) + spec_addr_bytes(r.maker))); }
    put_addr(out, &r.mint_a);
    proof { assert(out@ =~= old(out)@ + (spec_le8(r.seed) + spec_addr_bytes(r.maker) + spec_addr_bytes(r.mint_a))); }
    put_addr(out, &r.mint_b);
    proof { assert(out@ =~= old(out)@ + (spec_le8(r.seed) + spec_addr_bytes(r.maker) + spec_addr_bytes(r.mint_a) + spec_addr_bytes(r.mint_b))); }
    put_u64(out, r.receive_amount);
    proof { assert(out@ =~= old(out)@ + (spec_le8(r.seed) + spec_addr_bytes(r.maker) + spec_addr_bytes(r.mint_a) + spec_addr_bytes(r.mint_b) + spec_le8(r.receive_amount))); }
    put_u8(out, r.bump);
    proof { assert(out@ =~= old(out)@ + (spec_le8(r.seed) + spec_addr_bytes(r.maker) + spec_addr_bytes(r.mint_a) + spec_addr_bytes(r.mint_b) + spec_le8(r.receive_amount) + seq![r.bump])); }
}

/// Read the record's fields at `pos`; the consumed bytes are exactly the
/// returned record's field bytes.
pub fn get_escrow_state(b: &[u8], pos: usize) -> (r: Option<(crate::escrow::EscrowState, usize)>)
    ensures
        r matches Some((v, p2)) ==> p2 <= b@.len() && b@.subrange(pos as int, p2 as int)
            == spec_escrow_state_bytes(v),
{
    let (seed, p1) = match get_u64(b, pos) {
        Some(t) => t,
        None => return None,
    };
    let (maker, p2) = match get_addr(b, p1) {
        Some(t) => t,
        None => return None,
    };
    let (mint_a, p3) = match get_addr(b, p2) {
        Some(t) => t,
        None => return None,
    };
    let (mint_b, p4) = match get_addr(b, p3) {
        Some(t) => t,
        None => return None,
    };
    let (receive_amount, p5) = match get_u64(b, p4) {
        Some(t) => t,
        None => return None,
    };
    let (bump, p6) = match get_u8(b, p5) {
        Some(t) => t,
        None => return None,
    };
    let v = crate::escrow::EscrowState {
        seed,
        maker,
        mint_a,
        mint_b,
        receive_amount,
        bump
    };
    proof {
        assert(b@.subrange(pos as int, p2 as int) =~= b@.subrange(pos as int, p1 as int) + b@.subrange(p1 as int, p2 as int));
        assert(b@.subrange(pos as int, p3 as int) =~= b@.subrange(pos as int, p2 as int) + b@.subrange(p2 as int, p3 as int));
        assert(b@.subrange(pos as int, p4 as int) =~= b@.subrange(pos as int, p3 as int) + b@.subrange(p3 as int, p4 as int));
        assert(b@.subrange(pos as int, p5 as int) =~= b@.subrange(pos as int, p4 as int) + b@.subrange(p4 as int, p5 as int));
        assert(b@.subrange(pos as int, p6 as int) =~= b@.subrange(pos as int, p5 as int) + b@.subrange(p5 as int, p6 as int));
        assert(b@.subrange(pos as int, p6 as int) == spec_escrow_state_bytes(v));
    }
    Some((v, p6))
}

/// Field bytes of the record, in declaration order.
pub open spec fn spec_marketplace_bytes(r: crate::marketplace::Marketplace) -> Seq<u8> {
    spec_addr_bytes(r.admin) + spec_le2(r.fee) + seq![r.bump] + seq![r.treasury_bump] + seq![r.rewards_bump] + spec_str_bytes(r.name@)
}

/// Append the record's field bytes.
pub fn put_marketplace(out: &mut Vec<u8>, r: &crate::marketplace::Marketplace)
    ensures
        final(out)@ == old(out)@ + spec_marketplace_bytes(*r),
{
    put_addr(out, &r.admin);
    proof { assert(out@ =~= old(out)@ + (spec_addr_bytes(r.admin))); }
    put_u16(out, r.fee);
    proof { assert(out@ =~= old(out)@ + (spec_addr_bytes(r.admin) + spec_le2(r.fee))); }
    put_u8(out, r.bump);
    proof { assert(out@ =~= old(out)@ + (spec_addr_bytes(r.admin) + spec_le2(r.fee) + seq![r.bump])); }
    put_u8(out, r.treasury_bump);
    proof { assert(out@ =~= old(out)@ + (spec_addr_bytes(r.admin) + spec_le2(r.fee) + seq![r.bump] + seq![r.treasury_bump])); }
    put_u8(out, r.rewards_bump);
    proof { assert(out@ =~= old(out)@ + (spec_addr_bytes(r.admin) + spec_le2(r.fee) + seq![r.bump] + seq![r.treasury_bump] + seq![r.rewards_bump])); }
    put_str(out, &r.name);
    proof { assert(out@ =~= old(out)@ + (spec_addr_bytes(r.admin) + spec_le2(r.fee) + seq![r.bump] + seq![r.treasury_bump] + seq![r.rewards_bump] + spec_str_bytes(r.name@))); }
}

/// Read the record's fields at `pos`; the consumed bytes are exactly the
/// returned record's field bytes.
pub fn get_marketplace(b: &[u8], pos: usize) -> (r: Option<(crate::marketplace::Marketplace, usize)>)
    ensures
        r matches Some((v, p2)) ==> p2 <= b@.len() && b@.subrange(pos as int, p2 as int)
            == spec_marketplace_bytes(v),
{
    let (admin, p1) = match get_addr(b, pos) {
        Some(t) => t,
        None => return None,
    };
    let (fee, p2) = match get_u16(b, p1) {
        Some(t) => t,
        None => return None,
    };
    let (bump, p3) = match get_u8(b, p2) {
        Some(t) => t,
        None => return None,
    };
    let (treasury_bump, p4) = match get_u8(b, p3) {
        Some(t) => t,
        None => return None,
    };
    let (rewards_bump, p5) = match get_u8(b, p4) {
        Some(t) => t,
        None => return None,
    };
    let (name, p6) = match get_str(b, p5) {
        Some(t) => t,
        None => return None,
    };
    let v = crate::marketplace::Marketplace {
        admin,
        fee,
        bump,
        treasury_bump,
        rewards_bump,
        name
    };
    proof {
        assert(b@.subrange(pos as int, p2 as int) =~= b@.subrange(pos as int, p1 as int) + b@.subrange(p1 as int, p2 as int));
        assert(b@.subrange(pos as int, p3 as int) =~= b@.subrange(pos as int, p2 as int) + b@.subrange(p2 as int, p3 as int));
        assert(b@.subrange(pos as int, p4 as int) =~= b@.subrange(pos as int, p3 as int) + b@.subrange(p3 as int, p4 as int));
        assert(b@.subrange(pos as int, p5 as int) =~= b@.subrange(pos as int, p4 as int) + b@.subrange(p4 as int, p5 as int));
        assert(b@.subrange(pos as int, p6 as int) =~= b@.subrange(pos as int, p5 as int) + b@.subrange(p5 as int, p6 as int));
        assert(b@.subrange(pos as int, p6 as int) == spec_marketplace_bytes(v));
    }
    Some((v, p6))
}

/// Field bytes of the record, in declaration order.
pub open spec fn spec_listing_bytes(r: crate::marketplace::Listing) -> Seq<u8> {
    spec_addr_bytes(r.maker) + spec_le8(r.price) + seq![r.bump]
}

/// Append the record's field bytes.
pub fn put_listing(out: &mut Vec<u8>, r: &crate::marketplace::Listing)
    ensures
        final(out)@ == old(out)@ + spec_listing_bytes(*r),
{
    put_addr(out, &r.maker);
    proof { assert(out@ =~= old(out)@ + (spec_addr_bytes(r.maker))); }
    put_u64(out, r.price);
    proof { assert(out@ =~= old(out)@ + (spec_addr_bytes(r.maker) + spec_le8(r.price))); }
    put_u8(out, r.bump);
    proof { assert(out@ =~= old(out)@ + (spec_addr_bytes(r.maker) + spec_le8(r.price) + seq![r.bump])); }
}

/// Read the record's fields at `pos`; the consumed bytes are exactly the
/// returned record's field bytes.
pub fn get_listing(b: &[u8], pos: usize) -> (r: Option<(crate::marketplace::Listing, usize)>)
    ensures
        r matches Some((v, p2)) ==> p2 <= b@.len() && b@.subrange(pos as int, p2 as int)
            == spec_listing_bytes(v),
{
    let (maker, p1) = match get_addr(b, pos) {
        Some(t) => t,
        None => return None,
    };
    let (price, p2) = match get_u64(b, p1) {
        Some(t) => t,
        None => return None,
    };
    let (bump, p3) = match get_u8(b, p2) {
        Some(t) => t,
        None => return None,
    };
    let v = crate::marketplace::Listing {
        maker,
        price,
        bump
    };
    proof {
        assert(b@.subrange(pos as int, p2 as int) =~= b@.subrange(pos as int, p1 as int) + b@.subrange(p1 as int, p2 as int));
        assert(b@.subrange(pos as int, p3 as int) =~= b@.subrange(pos as int, p2 as int) + b@.subrange(p2 as int, p3 as int));
        assert(b@.subrange(pos as int, p3 as int) == spec_listing_bytes(v));
    }
    Some((v, p3))
}

/// Field bytes of the record, in declaration order.
pub open spec fn spec_stake_config_bytes(r: crate::staking::StakeConfig) -> Seq<u8> {
    seq![r.points_per_stake] + seq![r.max_stake] + spec_le4(r.freeze_period) + seq![r.rewards_bump] + seq![r.bump]
}

/// Append the record's field bytes.
pub fn put_stake_config(out: &mut Vec<u8>, r: &crate::staking::StakeConfig)
    ensures
        final(out)@ == old(out)@ + spec_stake_config_bytes(*r),
{
    put_u8(out, r.points_per_stake);
    proof { assert(out@ =~= old(out)@ + (seq![r.points_per_stake])); }
    put_u8(out, r.max_stake);
    proof { assert(out@ =~= old(out)@ + (seq![r.points_per_stake] + seq![r.max_stake])); }
    put_u32(out, r.freeze_period);
    proof { assert(out@ =~= old(out)@ + (seq![r.points_per_stake] + seq![r.max_stake] + spec_le4(r.freeze_period))); }
    put_u8(out, r.rewards_bump);
    proof { assert(out@ =~= old(out)@ + (seq![r.points_per_stake] + seq![r.max_stake] + spec_le4(r.freeze_period) + seq![r.rewards_bump])); }
    put_u8(out, r.bump);
    proof { assert(out@ =~= old(out)@ + (seq![r.points_per_stake] + seq![r.max_stake] + spec_le4(r.freeze_period) + seq![r.rewards_bump] + seq![r.bump])); }
}

/// Read the record's fields at `pos`; the consumed bytes are exactly the
/// returned record's field bytes.
pub fn get_stake_config(b: &[u8], pos: usize) -> (r: Option<(crate::staking::StakeConfig, usize)>)
    ensures
        r matches Some((v, p2)) ==> p2 <= b@.len() && b@.subrange(pos as int, p2 as int)
            == spec_stake_config_bytes(v),
{
    let (points_per_stake, p1) = match get_u8(b, pos) {
        Some(t) => t,
        None => return None,
    };
    let (max_stake, p2) = match get_u8(b, p1) {
        Some(t) => t,
        None => return None,
    };
    let (freeze_period, p3) = match get_u32(b, p2) {
        Some(t) => t,
        None => return None,
    };
    let (rewards_bump, p4) = match get_u8(b, p3) {
        Some(t) => t,
        None => return None,
    };
    let (bump, p5) = match get_u8(b, p4) {
        Some(t) => t,
        None => return None,
    };
    let v = crate::staking::StakeConfig {
        points_per_stake,
        max_stake,
        freeze_period,
        rewards_bump,
        bump
    };
    proof {
        assert(b@.subrange(pos as int, p2 as int) =~= b@.subrange(pos as int, p1 as int) + b@.subrange(p1 as int, p2 as int));
        assert(b@.subrange(pos as int, p3 as int) =~= b@.subrange(pos as int, p2 as int) + b@.subrange(p2 as int, p3 as int));
        assert(b@.subrange(pos as int, p4 as int) =~= b@.subrange(pos as int, p3 as int) + b@.subrange(p3 as int, p4 as int));
        assert(b@.subrange(pos as int, p5 as int) =~= b@.subrange(pos as int, p4 as int) + b@.subrange(p4 as int, p5 as int));
        assert(b@.subrange(pos as int, p5 as int) == spec_stake_config_bytes(v));
    }
    Some((v, p5))
}

/// Field bytes of the record, in declaration order.
pub open spec fn spec_user_account_bytes(r: crate::staking::UserAccount) -> Seq<u8> {
    seq![r.amount_staked] + spec_le4(r.points) + seq![r.bump]
}

/// Append the record's field bytes.
pub fn put_user_account(out: &mut Vec<u8>, r: &crate::staking::UserAccount)
    ensures
        final(out)@ == old(out)@ + spec_user_account_bytes(*r),
{
    put_u8(out, r.amount_staked);
    proof { assert(out@ =~= old(out)@ + (seq![r.amount_staked])); }
    put_u32(out, r.points);
    proof { assert(out@ =~= old(out)@ + (seq![r.amount_staked] + spec_le4(r.points))); }
    put_u8(out, r.bump);
    proof { assert(out@ =~= old(out)@ + (seq![r.amount_staked] + spec_le4(r.points) + seq![r.bump])); }
}

/// Read the record's fields at `pos`; the consumed bytes are exactly the
/// returned record's field bytes.
pub fn get_user_account(b: &[u8], pos: usize) -> (r: Option<(crate::staking::UserAccount, usize)>)
    ensures
        r matches Some((v, p2)) ==> p2 <= b@.len() && b@.subrange(pos as int, p2 as int)
            == spec_user_account_bytes(v),
{
    let (amount_staked, p1) = match get_u8(b, pos) {
        Some(t) => t,
        None => return None,
    };
    let (points, p2) = match get_u32(b, p1) {
        Some(t) => t,
        None => return None,
    };
    let (bump, p3) = match get_u8(b, p2) {
        Some(t) => t,
        None => return None,
    };
    let v = crate::staking::UserAccount {
        amount_staked,
        points,
        bump
    };
    proof {
        assert(b@.subrange(pos as int, p2 as int) =~= b@.subrange(pos as int, p1 as int) + b@.subrange(p1 as int, p2 as int));
        assert(b@.subrange(pos as int, p3 as int) =~= b@.subrange(pos as int, p2 as int) + b@.subrange(p2 as int, p3 as int));
        assert(b@.subrange(pos as int, p3 as int) == spec_user_account_bytes(v));
    }
    Some((v, p3))
}

/// Field bytes of the record, in declaration order.
pub open spec fn spec_stake_account_bytes(r: crate::staking::StakeAccount) -> Seq<u8> {
    spec_addr_bytes(r.owner) + spec_addr_bytes(r.mint) + spec_le8i(r.staked_at) + seq![r.bump]
}

/// Append the record's field bytes.
pub fn put_stake_account(out: &mut Vec<u8>, r: &crate::staking::StakeAccount)
    ensures
        final(out)@ == old(out)@ + spec_stake_account_bytes(*r),
{
    put_addr(out, &r.owner);
    proof { assert(out@ =~= old(out)@ + (spec_addr_bytes(r.owner))); }
    put_addr(out, &r.mint);
    proof { assert(out@ =~= old(out)@ + (spec_addr_bytes(r.owner) + spec_addr_bytes(r.mint))); }
    put_i64(out, r.staked_at);
    proof { assert(out@ =~= old(out)@ + (spec_addr_bytes(r.owner) + spec_addr_bytes(r.mint) + spec_le8i(r.staked_at))); }
    put_u8(out, r.bump);
    proof { assert(out@ =~= old(out)@ + (spec_addr_bytes(r.owner) + spec_addr_bytes(r.mint) + spec_le8i(r.staked_at) + seq![r.bump])); }
}

/// Read the record's fields at `pos`; the consumed bytes are exactly the
/// returned record's field bytes.
pub fn get_stake_account(b: &[u8], pos: usize) -> (r: Option<(crate::staking::StakeAccount, usize)>)
    ensures
        r matches Some((v, p2)) ==> p2 <= b@.len() && b@.subrange(pos as int, p2 as int)
            == spec_stake_account_bytes(v),
{
    let (owner, p1) = match get_addr(b, pos) {
        Some(t) => t,
        None => return None,
    };
    let (mint, p2) = match get_addr(b, p1) {
        Some(t) => t,
        None => return None,
    };
    let (staked_at, p3) = match get_i64(b, p2) {
        Some(t) => t,
        None => return None,
    };
    let (bump, p4) = match get_u8(b, p3) {
        Some(t) => t,
        None => return None,
    };
    let v = crate::staking::StakeAccount {
        owner,
        mint,
        staked_at,
        bump
    };
    proof {
        assert(b@.subrange(pos as int, p2 as int) =~= b@.subrange(pos as int, p1 as int) + b@.subrange(p1 as int, p2 as int));
        assert(b@.subrange(pos as int, p3 as int) =~= b@.subrange(pos as int, p2 as int) + b@.subrange(p2 as int, p3 as int));
        assert(b@.subrange(pos as int, p4 as int) =~= b@.subrange(pos as int, p3 as int) + b@.subrange(p3 as int, p4 as int));
        assert(b@.subrange(pos as int, p4 as int) == spec_stake_account_bytes(v));
    }
    Some((v, p4))
}

/// Field bytes of the record, in declaration order.
pub open spec fn spec_vault_state_bytes(r: crate::vault::VaultState) -> Seq<u8> {
    seq![r.vault_bump] + seq![r.state_bump]
}

/// Append the record's field bytes.
pub fn put_vault_state(out: &mut Vec<u8>, r: &crate::vault::VaultState)
    ensures
        final(out)@ == old(out)@ + spec_vault_state_bytes(*r),
{
    put_u8(out, r.vault_bump);
    proof { assert(out@ =~= old(out)@ + (seq![r.vault_bump])); }
    put_u8(out, r.state_bump);
    proof { assert(out@ =~= old(out)@ + (seq![r.vault_bump] + seq![r.state_bump])); }
}

/// Read the record's fields at `pos`; the consumed bytes are exactly the
/// returned record's field bytes.
pub fn get_vault_state(b: &[u8], pos: usize) -> (r: Option<(crate::vault::VaultState, usize)>)
    ensures
        r matches Some((v, p2)) ==> p2 <= b@.len() && b@.subrange(pos as int, p2 as int)
            == spec_vault_state_bytes(v),
{
    let (vault_bump, p1) = match get_u8(b, pos) {
        Some(t) => t,
        None => return None,
    };
    let (state_bump, p2) = match get_u8(b, p1) {
        Some(t) => t,
        None => return None,
    };
    let v = crate::vault::VaultState {
        vault_bump,
        state_bump
    };
    proof {
        assert(b@.subrange(pos as int, p2 as int) =~= b@.subrange(pos as int, p1 as int) + b@.subrange(p1 as int, p2 as int));
        assert(b@.subrange(pos as int, p2 as int) == spec_vault_state_bytes(v));
    }
    Some((v, p2))
}

/// Field bytes of the record, in declaration order.
pub open spec fn spec_fili_config_bytes(r: crate::fili8::Config) -> Seq<u8> {
    spec_addr_bytes(r.admin) + spec_le2(r.campaign_creation_fee) + spec_le2(r.commission_fee) + seq![r.bump] + seq![r.treasury_bump]
}

/// Append the record's field bytes.
pub fn put_fili_config(out: &mut Vec<u8>, r: &crate::fili8::Config)
    ensures
        final(out)@ == old(out)@ + spec_fili_config_bytes(*r),
{
    put_addr(out, &r.admin);
    proof { assert(out@ =~= old(out)@ + (spec_addr_bytes(r.admin))); }
    put_u16(out, r.campaign_creation_fee);
    proof { assert(out@ =~= old(out)@ + (spec_addr_bytes(r.admin) + spec_le2(r.campaign_creation_fee))); }
    put_u16(out, r.commission_fee);
    proof { assert(out@ =~= old(out)@ + (spec_addr_bytes(r.admin) + spec_le2(r.campaign_creation_fee) + spec_le2(r.commission_fee))); }
    put_u8(out, r.bump);
    proof { assert(out@ =~= old(out)@ + (spec_addr_bytes(r.admin) + spec_le2(r.campaign_creation_fee) + spec_le2(r.commission_fee) + seq![r.bump])); }
    put_u8(out, r.treasury_bump);
    proof { assert(out@ =~= old(out)@ + (spec_addr_bytes(r.admin) + spec_le2(r.campaign_creation_fee) + spec_le2(r.commission_fee) + seq![r.bump] + seq![r.treasury_bump])); }
}

/// Read the record's fields at `pos`; the consumed bytes are exactly the
/// returned record's field bytes.
pub fn get_fili_config(b: &[u8], pos: usize) -> (r: Option<(crate::fili8::Config, usize)>)
    ensures
        r matches Some((v, p2)) ==> p2 <= b@.len() && b@.subrange(pos as int, p2 as int)
            == spec_fili_config_bytes(v),
{
    let (admin, p1) = match get_addr(b, pos) {
        Some(t) => t,
        None => return None,
    };
    let (campaign_creation_fee, p2) = match get_u16(b, p1) {
        Some(t) => t,
        None => return None,
    };
    let (commission_fee, p3) = match get_u16(b, p2) {
        Some(t) => t,
        None => return None,
    };
    let (bump, p4) = match get_u8(b, p3) {
        Some(t) => t,
        None => return None,
    };
    let (treasury_bump, p5) = match get_u8(b, p4) {
        Some(t) => t,
        None => return None,
    };
    let v = crate::fili8::Config {
        admin,
        campaign_creation_fee,
        commission_fee,
        bump,
        treasury_bump
    };
    proof {
        assert(b@.subrange(pos as int, p2 as int) =~= b@.subrange(pos as int, p1 as int) + b@.subrange(p1 as int, p2 as int));
        assert(b@.subrange(pos as int, p3 as int) =~= b@.subrange(pos as int, p2 as int) + b@.subrange(p2 as int, p3 as int));
        assert(b@.subrange(pos as int, p4 as int) =~= b@.subrange(pos as int, p3 as int) + b@.subrange(p3 as int, p4 as int));
        assert(b@.subrange(pos as int, p5 as int) =~= b@.subrange(pos as int, p4 as int) + b@.subrange(p4 as int, p5 as int));
        assert(b@.subrange(pos as int, p5 as int) == spec_fili_config_bytes(v));
    }
    Some((v, p5))
}

/// Field bytes of the record, in declaration order.
pub open spec fn spec_merchant_bytes(r: crate::fili8::Merchant) -> Seq<u8> {
    spec_str_bytes(r.name@) + spec_str_bytes(r.description@) + spec_le4(r.total_campaigns) + spec_le8(r.total_spent) + seq![r.bump]
}

/// Append the record's field bytes.
pub fn put_merchant(out: &mut Vec<u8>, r: &crate::fili8::Merchant)
    ensures
        final(out)@ == old(out)@ + spec_merchant_bytes(*r),
{
    put_str(out, &r.name);
    proof { assert(out@ =~= old(out)@ + (spec_str_bytes(r.name@))); }
    put_str(out, &r.description);
    proof { assert(out@ =~= old(out)@ + (spec_str_bytes(r.name@) + spec_str_bytes(r.description@))); }
    put_u32(out, r.total_campaigns);
    proof { assert(out@ =~= old(out)@ + (spec_str_bytes(r.name@) + spec_str_bytes(r.description@) + spec_le4(r.total_campaigns))); }
    put_u64(out, r.total_spent);
    proof { assert(out@ =~= old(out)@ + (spec_str_bytes(r.name@) + spec_str_bytes(r.description@) + spec_le4(r.total_campaigns) + spec_le8(r.total_spent))); }
    put_u8(out, r.bump);
    proof { assert(out@ =~= old(out)@ + (spec_str_bytes(r.name@) + spec_str_bytes(r.description@) + spec_le4(r.total_campaigns) + spec_le8(r.total_spent) + seq![r.bump])); }
}

/// Read the record's fields at `pos`; the consumed bytes are exactly the
/// returned record's field bytes.
pub fn get_merchant(b: &[u8], pos: usize) -> (r: Option<(crate::fili8::Merchant, usize)>)
    ensures
        r matches Some((v, p2)) ==> p2 <= b@.len() && b@.subrange(pos as int, p2 as int)
            == spec_merchant_bytes(v),
{
    let (name, p1) = match get_str(b, pos) {
        Some(t) => t,
        None => return None,
    };
    let (description, p2) = match get_str(b, p1) {
        Some(t) => t,
        None => return None,
    };
    let (total_campaigns, p3) = match get_u32(b, p2) {
        Some(t) => t,
        None => return None,
    };
    let (total_spent, p4) = match get_u64(b, p3) {
        Some(t) => t,
        None => return None,
    };
    let (bump, p5) = match get_u8(b, p4) {
        Some(t) => t,
        None => return None,
    };
    let v = crate::fili8::Merchant {
        name,
        description,
        total_campaigns,
        total_spent,
        bump
    };
    proof {
        assert(b@.subrange(pos as int, p2 as int) =~= b@.subrange(pos as int, p1 as int) + b@.subrange(p1 as int, p2 as int));
        assert(b@.subrange(pos as int, p3 as int) =~= b@.subrange(pos as int, p2 as int) + b@.subrange(p2 as int, p3 as int));
        assert(b@.subrange(pos as int, p4 as int) =~= b@.subrange(pos as int, p3 as int) + b@.subrange(p3 as int, p4 as int));
        assert(b@.subrange(pos as int, p5 as int) =~= b@.subrange(pos as int, p4 as int) + b@.subrange(p4 as int, p5 as int));
        assert(b@.subrange(pos as int, p5 as int) == spec_merchant_bytes(v));
    }
    Some((v, p5))
}

/// Field bytes of the record, in declaration order.
pub open spec fn spec_affiliate_bytes(r: crate::fili8::Affiliate) -> Seq<u8> {
    spec_str_bytes(r.name@) + spec_str_bytes(r.description@) + spec_addr_bytes(r.payout_address) + spec_le4(r.total_campaigns) + spec_le8(r.total_earned) + seq![r.bump]
}

/// Append the record's field bytes.
pub fn put_affiliate(out: &mut Vec<u8>, r: &crate::fili8::Affiliate)
    ensures
        final(out)@ == old(out)@ + spec_affiliate_bytes(*r),
{
    put_str(out, &r.name);
    proof { assert(out@ =~= old(out)@ + (spec_str_bytes(r.name@))); }
    put_str(out, &r.description);
    proof { assert(out@ =~= old(out)@ + (spec_str_bytes(r.name@) + spec_str_bytes(r.description@))); }
    put_addr(out, &r.payout_address);
    proof { assert(out@ =~= old(out)@ + (spec_str_bytes(r.name@) + spec_str_bytes(r.description@) + spec_addr_bytes(r.payout_address))); }
    put_u32(out, r.total_campaigns);
    proof { assert(out@ =~= old(out)@ + (spec_str_bytes(r.name@) + spec_str_bytes(r.description@) + spec_addr_bytes(r.payout_address) + spec_le4(r.total_campaigns))); }
    put_u64(out, r.total_earned);
    proof { assert(out@ =~= old(out)@ + (spec_str_bytes(r.name@) + spec_str_bytes(r.description@) + spec_addr_bytes(r.payout_address) + spec_le4(r.total_campaigns) + spec_le8(r.total_earned))); }
    put_u8(out, r.bump);
    proof { assert(out@ =~= old(out)@ + (spec_str_bytes(r.name@) + spec_str_bytes(r.description@) + spec_addr_bytes(r.payout_address) + spec_le4(r.total_campaigns) + spec_le8(r.total_earned) + seq![r.bump])); }
}

/// Read the record's fields at `pos`; the consumed bytes are exactly the
/// returned record's field bytes.
pub fn get_affiliate(b: &[u8], pos: usize) -> (r: Option<(crate::fili8::Affiliate, usize)>)
    ensures
        r matches Some((v, p2)) ==> p2 <= b@.len() && b@.subrange(pos as int, p2 as int)
            == spec_affiliate_bytes(v),
{
    let (name, p1) = match get_str(b, pos) {
        Some(t) => t,
        None => return None,
    };
    let (description, p2) = match get_str(b, p1) {
        Some(t) => t,
        None => return None,
    };
    let (payout_address, p3) = match get_addr(b, p2) {
        Some(t) => t,
        None => return None,
    };
    let (total_campaigns, p4) = match get_u32(b, p3) {
        Some(t) => t,
        None => return None,
    };
    let (total_earned, p5) = match get_u64(b, p4) {
        Some(t) => t,
        None => return None,
    };
    let (bump, p6) = match get_u8(b, p5) {
        Some(t) => t,
        None => return None,
    };
    let v = crate::fili8::Affiliate {
        name,
        description,
        payout_address,
        total_campaigns,
        total_earned,
        bump
    };
    proof {
        assert(b@.subrange(pos as int, p2 as int) =~= b@.subrange(pos as int, p1 as int) + b@.subrange(p1 as int, p2 as int));
        assert(b@.subrange(pos as int, p3 as int) =~= b@.subrange(pos as int, p2 as int) + b@.subrange(p2 as int, p3 as int));
        assert(b@.subrange(pos as int, p4 as int) =~= b@.subrange(pos as int, p3 as int) + b@.subrange(p3 as int, p4 as int));
        assert(b@.subrange(pos as int, p5 as int) =~= b@.subrange(pos as int, p4 as int) + b@.subrange(p4 as int, p5 as int));
        assert(b@.subrange(pos as int, p6 as int) =~= b@.subrange(pos as int, p5 as int) + b@.subrange(p5 as int, p6 as int));
        assert(b@.subrange(pos as int, p6 as int) == spec_affiliate_bytes(v));
    }
    Some((v, p6))
}

/// Field bytes of the record, in declaration order.
pub open spec fn spec_campaign_bytes(r: crate::fili8::Campaign) -> Seq<u8> {
    spec_le8(r.seed) + spec_addr_bytes(r.owner) + spec_str_bytes(r.name@) + spec_str_bytes(r.description@) + spec_str_bytes(r.product_uri@) + spec_le8(r.total_budget) + spec_le8(r.available_budget) + spec_le8(r.commission_per_referral) + spec_le4(r.successful_referrals) + spec_le8i(r.created_at) + spec_opt_i64(r.ends_at) + spec_bool_byte(r.is_paused) + spec_bool_byte(r.is_closed) + spec_le4(r.total_affiliates) + seq![r.campaign_bump] + seq![r.escrow_bump]
}

/// Append the record's field bytes.
pub fn put_campaign(out: &mut Vec<u8>, r: &crate::fili8::Campaign)
    ensures
        final(out)@ == old(out)@ + spec_campaign_bytes(*r),
{
    put_u64(out, r.seed);
    proof { assert(out@ =~= old(out)@ + (spec_le8(r.seed))); }
    put_addr(out, &r.owner);
    proof { assert(out@ =~= old(out)@ + (spec_le8(r.seed) + spec_addr_bytes(r.owner))); }
    put_str(out, &r.name);
    proof { assert(out@ =~= old(out)@ + (spec_le8(r.seed) + spec_addr_bytes(r.owner) + spec_str_bytes(r.name@))); }
    put_str(out, &r.description);
    proof { assert(out@ =~= old(out)@ + (spec_le8(r.seed) + spec_addr_bytes(r.owner) + spec_str_bytes(r.name@) + spec_str_bytes(r.description@))); }
    put_str(out, &r.product_uri);
    proof { assert(out@ =~= old(out)@ + (spec_le8(r.seed) + spec_addr_bytes(r.owner) + spec_str_bytes(r.name@) + spec_str_bytes(r.description@) + spec_str_bytes(r.product_uri@))); }
    put_u64(out, r.total_budget);
    proof { assert(out@ =~= old(out)@ + (spec_le8(r.seed) + spec_addr_bytes(r.owner) + spec_str_bytes(r.name@) + spec_str_bytes(r.description@) + spec_str_bytes(r.product_uri@) + spec_le8(r.total_budget))); }
    put_u64(out, r.available_budget);
    proof { assert(out@ =~= old(out)@ + (spec_le8(r.seed) + spec_addr_bytes(r.owner) + spec_str_bytes(r.name@) + spec_str_bytes(r.description@) + spec_str_bytes(r.product_uri@) + spec_le8(r.total_budget) + spec_le8(r.available_budget))); }
    put_u64(out, r.commission_per_referral);
    proof { assert(out@ =~= old(out)@ + (spec_le8(r.seed) + spec_addr_bytes(r.owner) + spec_str_bytes(r.name@) + spec_str_bytes(r.description@) + spec_str_bytes(r.product_uri@) + spec_le8(r.total_budget) + spec_le8(r.available_budget) + spec_le8(r.commission_per_referral))); }
    put_u32(out, r.successful_referrals);
    proof { assert(out@ =~= old(out)@ + (spec_le8(r.seed) + spec_addr_bytes(r.owner) + spec_str_bytes(r.name@) + spec_str_bytes(r.description@) + spec_str_bytes(r.product_uri@) + spec_le8(r.total_budget) + spec_le8(r.available_budget) + spec_le8(r.commission_per_referral) + spec_le4(r.successful_referrals))); }
    put_i64(out, r.created_at);
    proof { assert(out@ =~= old(out)@ + (spec_le8(r.seed) + spec_addr_bytes(r.owner) + spec_str_bytes(r.name@) + spec_str_bytes(r.description@) + spec_str_bytes(r.product_uri@) + spec_le8(r.total_budget) + spec_le8(r.available_budget) + spec_le8(r.commission_per_referral) + spec_le4(r.successful_referrals) + spec_le8i(r.created_at))); }
    put_opt_i64(out, &r.ends_at);
    proof { assert(out@ =~= old(out)@ + (spec_le8(r.seed) + spec_addr_bytes(r.owner) + spec_str_bytes(r.name@) + spec_str_bytes(r.description@) + spec_str_bytes(r.product_uri@) + spec_le8(r.total_budget) + spec_le8(r.available_budget) + spec_le8(r.commission_per_referral) + spec_le4(r.successful_referrals) + spec_le8i(r.created_at) + spec_opt_i64(r.ends_at))); }
    put_bool(out, r.is_paused);
    proof { assert(out@ =~= old(out)@ + (spec_le8(r.seed) + spec_addr_bytes(r.owner) + spec_str_bytes(r.name@) + spec_str_bytes(r.description@) + spec_str_bytes(r.product_uri@) + spec_le8(r.total_budget) + spec_le8(r.available_budget) + spec_le8(r.commission_per_referral) + spec_le4(r.successful_referrals) + spec_le8i(r.created_at) + spec_opt_i64(r.ends_at) + spec_bool_byte(r.is_paused))); }
    put_bool(out, r.is_closed);
    proof { assert(out@ =~= old(out)@ + (spec_le8(r.seed) + spec_addr_bytes(r.owner) + spec_str_bytes(r.name@) + spec_str_bytes(r.description@) + spec_str_bytes(r.product_uri@) + spec_le8(r.total_budget) + spec_le8(r.available_budget) + spec_le8(r.commission_per_referral) + spec_le4(r.successful_referrals) + spec_le8i(r.created_at) + spec_opt_i64(r.ends_at) + spec_bool_byte(r.is_paused) + spec_bool_byte(r.is_closed))); }
    put_u32(out, r.total_affiliates);
    proof { assert(out@ =~= old(out)@ + (spec_le8(r.seed) + spec_addr_bytes(r.owner) + spec_str_bytes(r.name@) + spec_str_bytes(r.description@) + spec_str_bytes(r.product_uri@) + spec_le8(r.total_budget) + spec_le8(r.available_budget) + spec_le8(r.commission_per_referral) + spec_le4(r.successful_referrals) + spec_le8i(r.created_at) + spec_opt_i64(r.ends_at) + spec_bool_byte(r.is_paused) + spec_bool_byte(r.is_closed) + spec_le4(r.total_affiliates))); }
    put_u8(out, r.campaign_bump);
    proof { assert(out@ =~= old(out)@ + (spec_le8(r.seed) + spec_addr_bytes(r.owner) + spec_str_bytes(r.name@) + spec_str_bytes(r.description@) + spec_str_bytes(r.product_uri@) + spec_le8(r.total_budget) + spec_le8(r.available_budget) + spec_le8(r.commission_per_referral) + spec_le4(r.successful_referrals) + spec_le8i(r.created_at) + spec_opt_i64(r.ends_at) + spec_bool_byte(r.is_paused) + spec_bool_byte(r.is_closed) + spec_le4(r.total_affiliates) + seq![r.campaign_bump])); }
    put_u8(out, r.escrow_bump);
    proof { assert(out@ =~= old(out)@ + (spec_le8(r.seed) + spec_addr_bytes(r.owner) + spec_str_bytes(r.name@) + spec_str_bytes(r.description@) + spec_str_bytes(r.product_uri@) + spec_le8(r.total_budget) + spec_le8(r.available_budget) + spec_le8(r.commission_per_referral) + spec_le4(r.successful_referrals) + spec_le8i(r.created_at) + spec_opt_i64(r.ends_at) + spec_bool_byte(r.is_paused) + spec_bool_byte(r.is_closed) + spec_le4(r.total_affiliates) + seq![r.campaign_bump] + seq![r.escrow_bump])); }
}

/// Read the record's fields at `pos`; the consumed bytes are exactly the
/// returned record's field bytes.
#[verifier::rlimit(100)]
pub fn get_campaign(b: &[u8], pos: usize) -> (r: Option<(crate::fili8::Campaign, usize)>)
    ensures
        r matches Some((v, p2)) ==> p2 <= b@.len() && b@.subrange(pos as int, p2 as int)
            == spec_campaign_bytes(v),
{
    let (seed, p1) = match get_u64(b, pos) {
        Some(t) => t,
        None => return None,
    };
    let (owner, p2) = match get_addr(b, p1) {
        Some(t) => t,
        None => return None,
    };
    let (name, p3) = match get_str(b, p2) {
        Some(t) => t,
        None => return None,
    };
    let (description, p4) = match get_str(b, p3) {
        Some(t) => t,
        None => return None,
    };
    let (product_uri, p5) = match get_str(b, p4) {
        Some(t) => t,
        None => return None,
    };
    let (total_budget, p6) = match get_u64(b, p5) {
        Some(t) => t,
        None => return None,
    };
    let (available_budget, p7) = match get_u64(b, p6) {
        Some(t) => t,
        None => return None,
    };
    let (commission_per_referral, p8) = match get_u64(b, p7) {
        Some(t) => t,
        None => return None,
    };
    let (successful_referrals, p9) = match get_u32(b, p8) {
        Some(t) => t,
        None => return None,
    };
    let (created_at, p10) = match get_i64(b, p9) {
        Some(t) => t,
        None => return None,
    };
    let (ends_at, p11) = match get_opt_i64(b, p10) {
        Some(t) => t,
        None => return None,
    };
    let (is_paused, p12) = match get_bool(b, p11) {
        Some(t) => t,
        None => return None,
    };
    let (is_closed, p13) = match get_bool(b, p12) {
        Some(t) => t,
        None => return None,
    };
    let (total_affiliates, p14) = match get_u32(b, p13) {
        Some(t) => t,
        None => return None,
    };
    let (campaign_bump, p15) = match get_u8(b, p14) {
        Some(t) => t,
        None => return None,
    };
    let (escrow_bump, p16) = match get_u8(b, p15) {
        Some(t) => t,
        None => return None,
    };
    let v = crate::fili8::Campaign {
        seed,
        owner,
        name,
        description,
        product_uri,
        total_budget,
        available_budget,
        commission_per_referral,
        successful_referrals,
        created_at,
        ends_at,
        is_paused,
        is_closed,
        total_affiliates,
        campaign_bump,
        escrow_bump
    };
    proof {
        assert(b@.subrange(pos as int, p2 as int) =~= b@.subrange(pos as int, p1 as int) + b@.subrange(p1 as int, p2 as int));
        assert(b@.subrange(pos as int, p3 as int) =~= b@.subrange(pos as int, p2 as int) + b@.subrange(p2 as int, p3 as int));
        assert(b@.subrange(pos as int, p4 as int) =~= b@.subrange(pos as int, p3 as int) + b@.subrange(p3 as int, p4 as int));
        assert(b@.subrange(pos as int, p5 as int) =~= b@.subrange(pos as int, p4 as int) + b@.subrange(p4 as int, p5 as int));
        assert(b@.subrange(pos as int, p6 as int) =~= b@.subrange(pos as int, p5 as int) + b@.subrange(p5 as int, p6 as int));
        assert(b@.subrange(pos as int, p7 as int) =~= b@.subrange(pos as int, p6 as int) + b@.subrange(p6 as int, p7 as int));
        assert(b@.subrange(pos as int, p8 as int) =~= b@.subrange(pos as int, p7 as int) + b@.subrange(p7 as int, p8 as int));
        assert(b@.subrange(pos as int, p9 as int) =~= b@.subrange(pos as int, p8 as int) + b@.subrange(p8 as int, p9 as int));
        assert(b@.subrange(pos as int, p10 as int) =~= b@.subrange(pos as int, p9 as int) + b@.subrange(p9 as int, p10 as int));
        assert(b@.subrange(pos as int, p11 as int) =~= b@.subrange(pos as int, p10 as int) + b@.subrange(p10 as int, p11 as int));
        assert(b@.subrange(pos as int, p12 as int) =~= b@.subrange(pos as int, p11 as int) + b@.subrange(p11 as int, p12 as int));
        assert(b@.subrange(pos as int, p13 as int) =~= b@.subrange(pos as int, p12 as int) + b@.subrange(p12 as int, p13 as int));
        assert(b@.subrange(pos as int, p14 as int) =~= b@.subrange(pos as int, p13 as int) + b@.subrange(p13 as int, p14 as int));
        assert(b@.subrange(pos as int, p15 as int) =~= b@.subrange(pos as int, p14 as int) + b@.subrange(p14 as int, p15 as int));
        assert(b@.subrange(pos as int, p16 as int) =~= b@.subrange(pos as int, p15 as int) + b@.subrange(p15 as int, p16 as int));
        assert(b@.subrange(pos as int, p16 as int) == spec_campaign_bytes(v));
    }
    Some((v, p16))
}

/// Field bytes of the record, in declaration order.
pub open spec fn spec_campaign_affiliate_bytes(r: crate::fili8::CampaignAffiliate) -> Seq<u8> {
    spec_addr_bytes(r.campaign) + spec_addr_bytes(r.affiliate) + spec_le4(r.successful_referrals) + spec_le8(r.total_earned) + seq![r.bump]
}

/// Append the record's field bytes.
pub fn put_campaign_affiliate(out: &mut Vec<u8>, r: &crate::fili8::CampaignAffiliate)
    ensures
        final(out)@ == old(out)@ + spec_campaign_affiliate_bytes(*r),
{
    put_addr(out, &r.campaign);
    proof { assert(out@ =~= old(out)@ + (spec_addr_bytes(r.campaign))); }
    put_addr(out, &r.affiliate);
    proof { assert(out@ =~= old(out)@ + (spec_addr_bytes(r.campaign) + spec_addr_bytes(r.affiliate))); }
    put_u32(out, r.successful_referrals);
    proof { assert(out@ =~= old(out)@ + (spec_addr_bytes(r.campaign) + spec_addr_bytes(r.affiliate) + spec_le4(r.successful_referrals))); }
    put_u64(out, r.total_earned);
    proof { assert(out@ =~= old(out)@ + (spec_addr_bytes(r.campaign) + spec_addr_bytes(r.affiliate) + spec_le4(r.successful_referrals) + spec_le8(r.total_earned))); }
    put_u8(out, r.bump);
    proof { assert(out@ =~= old(out)@ + (spec_addr_bytes(r.campaign) + spec_addr_bytes(r.affiliate) + spec_le4(r.successful_referrals) + spec_le8(r.total_earned) + seq![r.bump])); }
}

/// Read the record's fields at `pos`; the consumed bytes are exactly the
/// returned record's field bytes.
pub fn get_campaign_affiliate(b: &[u8], pos: usize) -> (r: Option<(crate::fili8::CampaignAffiliate, usize)>)
    ensures
        r matches Some((v, p2)) ==> p2 <= b@.len() && b@.subrange(pos as int, p2 as int)
            == spec_campaign_affiliate_bytes(v),
{
    let (campaign, p1) = match get_addr(b, pos) {
        Some(t) => t,
        None => return None,
    };
    let (affiliate, p2) = match get_addr(b, p1) {
        Some(t) => t,
        None => return None,
    };
    let (successful_referrals, p3) = match get_u32(b, p2) {
        Some(t) => t,
        None => return None,
    };
    let (total_earned, p4) = match get_u64(b, p3) {
        Some(t) => t,
        None => return None,
    };
    let (bump, p5) = match get_u8(b, p4) {
        Some(t) => t,
        None => return None,
    };
    let v = crate::fili8::CampaignAffiliate {
        campaign,
        affiliate,
        successful_referrals,
        total_earned,
        bump
    };
    proof {
        assert(b@.subrange(pos as int, p2 as int) =~= b@.subrange(pos as int, p1 as int) + b@.subrange(p1 as int, p2 as int));
        assert(b@.subrange(pos as int, p3 as int) =~= b@.subrange(pos as int, p2 as int) + b@.subrange(p2 as int, p3 as int));
        assert(b@.subrange(pos as int, p4 as int) =~= b@.subrange(pos as int, p3 as int) + b@.subrange(p3 as int, p4 as int));
        assert(b@.subrange(pos as int, p5 as int) =~= b@.subrange(pos as int, p4 as int) + b@.subrange(p4 as int, p5 as int));
        assert(b@.subrange(pos as int, p5 as int) == spec_campaign_affiliate_bytes(v));
    }
    Some((v, p5))
}

/// The 8-byte discriminant value of each record kind.
pub open spec fn spec_record_tag(k: crate::store::RecordKind) -> u64 {
    match k {
        crate::store::RecordKind::AmmConfig => 1,
        crate::store::RecordKind::EscrowState => 2,
        crate::store::RecordKind::Marketplace => 3,
        crate::store::RecordKind::Listing => 4,
        crate::store::RecordKind::StakeConfig => 5,
        crate::store::RecordKind::UserAccount => 6,
        crate::store::RecordKind::StakeAccount => 7,
        crate::store::RecordKind::VaultState => 8,
        crate::store::RecordKind::FiliConfig => 9,
        crate::store::RecordKind::Merchant => 10,
        crate::store::RecordKind::Affiliate => 11,
        crate::store::RecordKind::Campaign => 12,
        crate::store::RecordKind::CampaignAffiliate => 13,
    }
}

/// The full serialized record: the 8-byte discriminant, then the fields.
pub open spec fn spec_record_bytes(r: crate::store::Record) -> Seq<u8> {
    spec_le8(spec_record_tag(crate::store::spec_kind(r))) + (match r {
        crate::store::Record::AmmConfig(c) => spec_amm_config_bytes(c),
        crate::store::Record::EscrowState(c) => spec_escrow_state_bytes(c),
        crate::store::Record::Marketplace(c) => spec_marketplace_bytes(c),
        crate::store::Record::Listing(c) => spec_listing_bytes(c),
        crate::store::Record::StakeConfig(c) => spec_stake_config_bytes(c),
        crate::store::Record::UserAccount(c) => spec_user_account_bytes(c),
        crate::store::Record::StakeAccount(c) => spec_stake_account_bytes(c),
        crate::store::Record::VaultState(c) => spec_vault_state_bytes(c),
        crate::store::Record::FiliConfig(c) => spec_fili_config_bytes(c),
        crate::store::Record::Merchant(c) => spec_merchant_bytes(c),
        crate::store::Record::Affiliate(c) => spec_affiliate_bytes(c),
        crate::store::Record::Campaign(c) => spec_campaign_bytes(c),
        crate::store::Record::CampaignAffiliate(c) => spec_campaign_affiliate_bytes(c),
    })
}

/// Serialize a record: the 8-byte little-endian discriminant of its kind,
/// then its field bytes.
pub fn encode_record(r: &crate::store::Record) -> (out: Vec<u8>)
    ensures
        out@ == spec_record_bytes(*r),
{
    let mut out: Vec<u8> = Vec::new();
    match r {
        crate::store::Record::AmmConfig(c) => {
            put_u64(&mut out, 1);
            put_amm_config(&mut out, c);
            proof { assert(out@ =~= spec_record_bytes(*r)); }
        },
        crate::store::Record::EscrowState(c) => {
            put_u64(&mut out, 2);
            put_escrow_state(&mut out, c);
            proof { assert(out@ =~= spec_record_bytes(*r)); }
        },
        crate::store::Record::Marketplace(c) => {
            put_u64(&mut out, 3);
            put_marketplace(&mut out, c);
            proof { assert(out@ =~= spec_record_bytes(*r)); }
        },
        crate::store::Record::Listing(c) => {
            put_u64(&mut out, 4);
            put_listing(&mut out, c);
            proof { assert(out@ =~= spec_record_bytes(*r)); }
        },
        crate::store::Record::StakeConfig(c) => {
            put_u64(&mut out, 5);
            put_stake_config(&mut out, c);
            proof { assert(out@ =~= spec_record_bytes(*r)); }
        },
        crate::store::Record::UserAccount(c) => {
            put_u64(&mut out, 6);
            put_user_account(&mut out, c);
            proof { assert(out@ =~= spec_record_bytes(*r)); }
        },
        crate::store::Record::StakeAccount(c) => {
            put_u64(&mut out, 7);
            put_stake_account(&mut out, c);
            proof { assert(out@ =~= spec_record_bytes(*r)); }
        },
        crate::store::Record::VaultState(c) => {
            put_u64(&mut out, 8);
            put_vault_state(&mut out, c);
            proof { assert(out@ =~= spec_record_bytes(*r)); }
        },
        crate::store::Record::FiliConfig(c) => {
            put_u64(&mut out, 9);
            put_fili_config(&mut out, c);
            proof { assert(out@ =~= spec_record_bytes(*r)); }
        },
        crate::store::Record::Merchant(c) => {
            put_u64(&mut out, 10);
            put_merchant(&mut out, c);
            proof { assert(out@ =~= spec_record_bytes(*r)); }
        },
        crate::store::Record::Affiliate(c) => {
            put_u64(&mut out, 11);
            put_affiliate(&mut out, c);
            proof { assert(out@ =~= spec_record_bytes(*r)); }
        },
        crate::store::Record::Campaign(c) => {
            put_u64(&mut out, 12);
            put_campaign(&mut out, c);
            proof { assert(out@ =~= spec_record_bytes(*r)); }
        },
        crate::store::Record::CampaignAffiliate(c) => {
            put_u64(&mut out, 13);
            put_campaign_affiliate(&mut out, c);
            proof { assert(out@ =~= spec_record_bytes(*r)); }
        },
    }
    out
}

/// Parse a record: accepts exactly the serialized layout with nothing
/// trailing; whatever it returns re-serializes to the input.
pub fn decode_record(b: &[u8]) -> (r: Option<crate::store::Record>)
    ensures
        r matches Some(rec) ==> b@ == spec_record_bytes(rec),
{
    let (tag, p1) = match get_u64(b, 0) {
        Some(t) => t,
        None => return None,
    };
    match tag {
        1u64 => match get_amm_config(b, p1) {
            Some((v, p2)) => {
                if p2 == b.len() {
                    let rec = crate::store::Record::AmmConfig(v);
                    proof {
                        assert(b@ =~= b@.subrange(0, 8) + b@.subrange(8, b@.len() as int));
                        assert(b@ == spec_record_bytes(rec));
                    }
                    Some(rec)
                } else {
                    None
                }
            },
            None => None,
        },
        2u64 => match get_escrow_state(b, p1) {
            Some((v, p2)) => {
                if p2 == b.len() {
                    let rec = crate::store::Record::EscrowState(v);
                    proof {
                        assert(b@ =~= b@.subrange(0, 8) + b@.subrange(8, b@.len() as int));
                        assert(b@ == spec_record_bytes(rec));
                    }
                    Some(rec)
                } else {
                    None
                }
            },
            None => None,
        },
        3u64 => match get_marketplace(b, p1) {
            Some((v, p2)) => {
                if p2 == b.len() {
                    let rec = crate::store::Record::Marketplace(v);
                    proof {
                        assert(b@ =~= b@.subrange(0, 8) + b@.subrange(8, b@.len() as int));
                        assert(b@ == spec_record_bytes(rec));
                    }
                    Some(rec)
                } else {
                    None
                }
            },
            None => None,
        },
        4u64 => match get_listing(b, p1) {
            Some((v, p2)) => {
                if p2 == b.len() {
                    let rec = crate::store::Record::Listing(v);
                    proof {
                        assert(b@ =~= b@.subrange(0, 8) + b@.subrange(8, b@.len() as int));
                        assert(b@ == spec_record_bytes(rec));
                    }
                    Some(rec)
                } else {
                    None
                }
            },
            None => None,
        },
        5u64 => match get_stake_config(b, p1) {
            Some((v, p2)) => {
                if p2 == b.len() {
                    let rec = crate::store::Record::StakeConfig(v);
                    proof {
                        assert(b@ =~= b@.subrange(0, 8) + b@.subrange(8, b@.len() as int));
                        assert(b@ == spec_record_bytes(rec));
                    }
                    Some(rec)
                } else {
                    None
                }
            },
            None => None,
        },
        6u64 => match get_user_account(b, p1) {
            Some((v, p2)) => {
                if p2 == b.len() {
                    let rec = crate::store::Record::UserAccount(v);
                    proof {
                        assert(b@ =~= b@.subrange(0, 8) + b@.subrange(8, b@.len() as int));
                        assert(b@ == spec_record_bytes(rec));
                    }
                    Some(rec)
                } else {
                    None
                }
            },
            None => None,
        },
        7u64 => match get_stake_account(b, p1) {
            Some((v, p2)) => {
                if p2 == b.len() {
                    let rec = crate::store::Record::StakeAccount(v);
                    proof {
                        assert(b@ =~= b@.subrange(0, 8) + b@.subrange(8, b@.len() as int));
                        assert(b@ == spec_record_bytes(rec));
                    }
                    Some(rec)
                } else {
                    None
                }
            },
            None => None,
        },
        8u64 => match get_vault_state(b, p1) {
            Some((v, p2)) => {
                if p2 == b.len() {
                    let rec = crate::store::Record::VaultState(v);
                    proof {
                        assert(b@ =~= b@.subrange(0, 8) + b@.subrange(8, b@.len() as int));
                        assert(b@ == spec_record_bytes(rec));
                    }
                    Some(rec)
                } else {
                    None
                }
            },
            None => None,
        },
        9u64 => match get_fili_config(b, p1) {
            Some((v, p2)) => {
                if p2 == b.len() {
                    let rec = crate::store::Record::FiliConfig(v);
                    proof {
                        assert(b@ =~= b@.subrange(0, 8) + b@.subrange(8, b@.len() as int));
                        assert(b@ == spec_record_bytes(rec));
                    }
                    Some(rec)
                } else {
                    None
                }
            },
            None => None,
        },
        10u64 => match get_merchant(b, p1) {
            Some((v, p2)) => {
                if p2 == b.len() {
                    let rec = crate::store::Record::Merchant(v);
                    proof {
                        assert(b@ =~= b@.subrange(0, 8) + b@.subrange(8, b@.len() as int));
                        assert(b@ == spec_record_bytes(rec));
                    }
                    Some(rec)
                } else {
                    None
                }
            },
            None => None,
        },
        11u64 => match get_affiliate(b, p1) {
            Some((v, p2)) => {
                if p2 == b.len() {
                    let rec = crate::store::Record::Affiliate(v);
                    proof {
                        assert(b@ =~= b@.subrange(0, 8) + b@.subrange(8, b@.len() as int));
                        assert(b@ == spec_record_bytes(rec));
                    }
                    Some(rec)
                } else {
                    None
                }
            },
            None => None,
        },
        12u64 => match get_campaign(b, p1) {
            Some((v, p2)) => {
                if p2 == b.len() {
                    let rec = crate::store::Record::Campaign(v);
                    proof {
                        assert(b@ =~= b@.subrange(0, 8) + b@.subrange(8, b@.len() as int));
                        assert(b@ == spec_record_bytes(rec));
                    }
                    Some(rec)
                } else {
                    None
                }
            },
            None => None,
        },
        13u64 => match get_campaign_affiliate(b, p1) {
            Some((v, p2)) => {
                if p2 == b.len() {
                    let rec = crate::store::Record::CampaignAffiliate(v);
                    proof {
                        assert(b@ =~= b@.subrange(0, 8) + b@.subrange(8, b@.len() as int));
                        assert(b@ == spec_record_bytes(rec));
                    }
                    Some(rec)
                } else {
                    None
                }
            },
            None => None,
        },
        _ => None,
    }
}

} // verus!
