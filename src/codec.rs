//! The persisted layout of the entities: integers little-endian, texts as a 32-bit
//! byte count followed by their UTF-8 bytes, booleans and tags as one byte.
use vstd::prelude::*;
use vstd::bytes::*;
use vstd::slice::slice_to_vec;
use vstd::utf8::{decode_utf8, encode_utf8, encode_utf8_decode_utf8, encode_utf8_valid_utf8, valid_utf8};
use crate::principal::Principal;
use crate::registry::{AccessRequest, AccessRequestView, AccessStatus, DataRecord, DataRecordView};
use crate::token::{TokenInfo, TokenInfoView, TransactionRecord};
use crate::text::byte_len;

verus! {

broadcast use encode_utf8_valid_utf8, encode_utf8_decode_utf8;

// ----- reading a layout from the front -----

/// Splits off the first `n` bytes.
pub open spec fn take_bytes(b: Seq<u8>, n: int) -> Option<(Seq<u8>, Seq<u8>)> {
    if 0 <= n <= b.len() {
        Some((b.take(n), b.skip(n)))
    } else {
        None
    }
}

pub open spec fn take_u8(b: Seq<u8>) -> Option<(u8, Seq<u8>)> {
    if b.len() >= 1 {
        Some((b[0], b.skip(1)))
    } else {
        None
    }
}

pub open spec fn take_u16(b: Seq<u8>) -> Option<(u16, Seq<u8>)> {
    match take_bytes(b, 2) {
        Some((h, t)) => Some((spec_u16_from_le_bytes(h), t)),
        None => None,
    }
}

pub open spec fn take_u32(b: Seq<u8>) -> Option<(u32, Seq<u8>)> {
    match take_bytes(b, 4) {
        Some((h, t)) => Some((spec_u32_from_le_bytes(h), t)),
        None => None,
    }
}

pub open spec fn take_u64(b: Seq<u8>) -> Option<(u64, Seq<u8>)> {
    match take_bytes(b, 8) {
        Some((h, t)) => Some((spec_u64_from_le_bytes(h), t)),
        None => None,
    }
}

pub open spec fn take_i64(b: Seq<u8>) -> Option<(i64, Seq<u8>)> {
    match take_u64(b) {
        Some((x, t)) => Some((#[verifier::truncate] (x as i64), t)),
        None => None,
    }
}

/// A boolean is the byte 0 or the byte 1; any other byte is refused.
pub open spec fn take_bool(b: Seq<u8>) -> Option<(bool, Seq<u8>)> {
    match take_u8(b) {
        Some((x, t)) => if x == 0 {
            Some((false, t))
        } else if x == 1 {
            Some((true, t))
        } else {
            None
        },
        None => None,
    }
}

pub open spec fn take_key(b: Seq<u8>) -> Option<(Seq<u8>, Seq<u8>)> {
    take_bytes(b, 32)
}

/// A text: its byte count, then that many bytes, which must be valid UTF-8.
pub open spec fn take_str(b: Seq<u8>) -> Option<(Seq<char>, Seq<u8>)> {
    match take_u32(b) {
        Some((n, t)) => match take_bytes(t, n as int) {
            Some((s, rest)) => if valid_utf8(s) {
                Some((decode_utf8(s), rest))
            } else {
                None
            },
            None => None,
        },
        None => None,
    }
}

/// An optional text: the tag 0 alone, or the tag 1 and the text.
pub open spec fn take_opt_str(b: Seq<u8>) -> Option<(Option<Seq<char>>, Seq<u8>)> {
    match take_u8(b) {
        Some((tag, t)) => if tag == 0 {
            Some((None, t))
        } else if tag == 1 {
            match take_str(t) {
                Some((s, rest)) => Some((Some(s), rest)),
                None => None,
            }
        } else {
            None
        },
        None => None,
    }
}

// ----- writing a layout -----

pub open spec fn enc_bool(x: bool) -> Seq<u8> {
    if x {
        seq![1u8]
    } else {
        seq![0u8]
    }
}

pub open spec fn enc_i64(x: i64) -> Seq<u8> {
    spec_u64_to_le_bytes(#[verifier::truncate] (x as u64))
}

pub open spec fn enc_str(s: Seq<char>) -> Seq<u8> {
    spec_u32_to_le_bytes(byte_len(s) as u32) + encode_utf8(s)
}

pub open spec fn enc_opt_str(s: Option<Seq<char>>) -> Seq<u8> {
    match s {
        Some(t) => seq![1u8] + enc_str(t),
        None => seq![0u8],
    }
}

// ----- each writer is read back by its reader -----

proof fn lemma_take_prefix(e: Seq<u8>, rest: Seq<u8>)
    ensures
        take_bytes(e + rest, e.len() as int) == Some((e, rest)),
{
    assert((e + rest).take(e.len() as int) =~= e);
    assert((e + rest).skip(e.len() as int) =~= rest);
}

proof fn lemma_read_u8(x: u8, rest: Seq<u8>)
    ensures
        take_u8(seq![x] + rest) == Some((x, rest)),
{
    assert((seq![x] + rest).skip(1) =~= rest);
}

proof fn lemma_read_bool(x: bool, rest: Seq<u8>)
    ensures
        take_bool(enc_bool(x) + rest) == Some((x, rest)),
{
    lemma_read_u8(if x { 1u8 } else { 0u8 }, rest);
}

proof fn lemma_read_u16(x: u16, rest: Seq<u8>)
    ensures
        take_u16(spec_u16_to_le_bytes(x) + rest) == Some((x, rest)),
{
    lemma_auto_spec_u16_to_from_le_bytes();
    lemma_take_prefix(spec_u16_to_le_bytes(x), rest);
}

proof fn lemma_read_u32(x: u32, rest: Seq<u8>)
    ensures
        take_u32(spec_u32_to_le_bytes(x) + rest) == Some((x, rest)),
{
    lemma_auto_spec_u32_to_from_le_bytes();
    lemma_take_prefix(spec_u32_to_le_bytes(x), rest);
}

proof fn lemma_read_u64(x: u64, rest: Seq<u8>)
    ensures
        take_u64(spec_u64_to_le_bytes(x) + rest) == Some((x, rest)),
{
    lemma_auto_spec_u64_to_from_le_bytes();
    lemma_take_prefix(spec_u64_to_le_bytes(x), rest);
}

proof fn lemma_read_i64(x: i64, rest: Seq<u8>)
    ensures
        take_i64(enc_i64(x) + rest) == Some((x, rest)),
{
    let u = #[verifier::truncate] (x as u64);
    assert((#[verifier::truncate] (u as i64)) == x) by (bit_vector)
        requires
            u == #[verifier::truncate] (x as u64),
    ;
    lemma_read_u64(u, rest);
}

proof fn lemma_read_key(k: Seq<u8>, rest: Seq<u8>)
    requires
        k.len() == 32,
    ensures
        take_key(k + rest) == Some((k, rest)),
{
    lemma_take_prefix(k, rest);
}

proof fn lemma_read_str(s: Seq<char>, rest: Seq<u8>)
    requires
        byte_len(s) <= u32::MAX,
    ensures
        take_str(enc_str(s) + rest) == Some((s, rest)),
{
    let n = byte_len(s) as u32;
    let e = encode_utf8(s);
    assert(enc_str(s) + rest =~= spec_u32_to_le_bytes(n) + (e + rest));
    lemma_read_u32(n, e + rest);
    lemma_take_prefix(e, rest);
}

proof fn lemma_read_opt_str(s: Option<Seq<char>>, rest: Seq<u8>)
    requires
        s matches Some(t) ==> byte_len(t) <= u32::MAX,
    ensures
        take_opt_str(enc_opt_str(s) + rest) == Some((s, rest)),
{
    match s {
        Some(t) => {
            assert(enc_opt_str(s) + rest =~= seq![1u8] + (enc_str(t) + rest));
            lemma_read_u8(1u8, enc_str(t) + rest);
            lemma_read_str(t, rest);
        },
        None => {
            lemma_read_u8(0u8, rest);
        },
    }
}

// ----- executable writers -----

/// Relies on std's String::from_utf8: it succeeds exactly on valid UTF-8, and the
/// string it returns is made of the given bytes.
#[verifier::external_body]
fn string_from_utf8(bytes: Vec<u8>) -> (r: Option<String>)
    ensures
        r is Some <==> valid_utf8(bytes@),
        r matches Some(s) ==> encode_utf8(s@) == bytes@,
{
    String::from_utf8(bytes).ok()
}

fn put(out: &mut Vec<u8>, bytes: &[u8])
    ensures
        final(out)@ == old(out)@ + bytes@,
{
    let mut i: usize = 0;
    while i < bytes.len()
        invariant
            0 <= i <= bytes@.len(),
            out@ == old(out)@ + bytes@.take(i as int),
        decreases bytes@.len() - i,
    {
        out.push(bytes[i]);
        i = i + 1;
        assert(out@ =~= old(out)@ + bytes@.take(i as int));
    }
    assert(bytes@.take(i as int) =~= bytes@);
}

fn put_u8(out: &mut Vec<u8>, x: u8)
    ensures
        final(out)@ == old(out)@ + seq![x],
{
    out.push(x);
    assert(out@ =~= old(out)@ + seq![x]);
}

fn put_bool(out: &mut Vec<u8>, x: bool)
    ensures
        final(out)@ == old(out)@ + enc_bool(x),
{
    if x {
        put_u8(out, 1);
    } else {
        put_u8(out, 0);
    }
}

fn put_u16(out: &mut Vec<u8>, x: u16)
    ensures
        final(out)@ == old(out)@ + spec_u16_to_le_bytes(x),
{
    let bytes = u16_to_le_bytes(x);
    put(out, bytes.as_slice());
}

fn put_u32(out: &mut Vec<u8>, x: u32)
    ensures
        final(out)@ == old(out)@ + spec_u32_to_le_bytes(x),
{
    let bytes = u32_to_le_bytes(x);
    put(out, bytes.as_slice());
}

fn put_u64(out: &mut Vec<u8>, x: u64)
    ensures
        final(out)@ == old(out)@ + spec_u64_to_le_bytes(x),
{
    let bytes = u64_to_le_bytes(x);
    put(out, bytes.as_slice());
}

fn put_i64(out: &mut Vec<u8>, x: i64)
    ensures
        final(out)@ == old(out)@ + enc_i64(x),
{
    put_u64(out, x as u64);
}

fn put_key(out: &mut Vec<u8>, k: &Principal)
    ensures
        final(out)@ == old(out)@ + k@,
{
    put(out, k.bytes.as_slice());
}

fn put_str(out: &mut Vec<u8>, s: &String)
    requires
        byte_len(s@) <= u32::MAX,
    ensures
        final(out)@ == old(out)@ + enc_str(s@),
{
    let bytes = s.as_str().as_bytes();
    put_u32(out, bytes.len() as u32);
    put(out, bytes);
    assert(out@ =~= old(out)@ + enc_str(s@));
}

fn put_opt_str(out: &mut Vec<u8>, s: &Option<String>)
    requires
        s matches Some(t) ==> byte_len(t@) <= u32::MAX,
    ensures
        final(out)@ == old(out)@ + enc_opt_str(opt_view(s)),
{
    match s {
        Some(t) => {
            put_u8(out, 1);
            put_str(out, t);
            assert(out@ =~= old(out)@ + enc_opt_str(opt_view(s)));
        },
        None => {
            put_u8(out, 0);
        },
    }
}

/// The texts an optional string holds.
pub open spec fn opt_view(s: &Option<String>) -> Option<Seq<char>> {
    match s {
        Some(t) => Some(t@),
        None => None,
    }
}

// ----- executable readers, at a position in a buffer -----

proof fn lemma_skip_skip(b: Seq<u8>, i: int, j: int)
    requires
        0 <= i,
        0 <= j,
        i + j <= b.len(),
    ensures
        b.skip(i).skip(j) == b.skip(i + j),
        b.skip(i).take(j) == b.subrange(i, i + j),
{
    assert(b.skip(i).skip(j) =~= b.skip(i + j));
    assert(b.skip(i).take(j) =~= b.subrange(i, i + j));
}

fn read_u8(b: &[u8], pos: usize) -> (r: Option<(u8, usize)>)
    requires
        pos <= b@.len(),
    ensures
        r matches Some((x, np)) ==> np <= b@.len() && take_u8(b@.skip(pos as int)) == Some(
            (x, b@.skip(np as int)),
        ),
        r is None ==> take_u8(b@.skip(pos as int)) is None,
{
    if pos < b.len() {
        proof {
            lemma_skip_skip(b@, pos as int, 1);
        }
        Some((b[pos], pos + 1))
    } else {
        None
    }
}

fn read_bool(b: &[u8], pos: usize) -> (r: Option<(bool, usize)>)
    requires
        pos <= b@.len(),
    ensures
        r matches Some((x, np)) ==> np <= b@.len() && take_bool(b@.skip(pos as int)) == Some(
            (x, b@.skip(np as int)),
        ),
        r is None ==> take_bool(b@.skip(pos as int)) is None,
{
    match read_u8(b, pos) {
        Some((0u8, np)) => Some((false, np)),
        Some((1u8, np)) => Some((true, np)),
        _ => None,
    }
}

fn read_u16(b: &[u8], pos: usize) -> (r: Option<(u16, usize)>)
    requires
        pos <= b@.len(),
    ensures
        r matches Some((x, np)) ==> np <= b@.len() && take_u16(b@.skip(pos as int)) == Some(
            (x, b@.skip(np as int)),
        ),
        r is None ==> take_u16(b@.skip(pos as int)) is None,
{
    if b.len() - pos >= 2 {
        proof {
            lemma_skip_skip(b@, pos as int, 2);
        }
        Some((u16_from_le_bytes(&b[pos..pos + 2]), pos + 2))
    } else {
        None
    }
}

fn read_u32(b: &[u8], pos: usize) -> (r: Option<(u32, usize)>)
    requires
        pos <= b@.len(),
    ensures
        r matches Some((x, np)) ==> np <= b@.len() && take_u32(b@.skip(pos as int)) == Some(
            (x, b@.skip(np as int)),
        ),
        r is None ==> take_u32(b@.skip(pos as int)) is None,
{
    if b.len() - pos >= 4 {
        proof {
            lemma_skip_skip(b@, pos as int, 4);
        }
        Some((u32_from_le_bytes(&b[pos..pos + 4]), pos + 4))
    } else {
        None
    }
}

fn read_u64(b: &[u8], pos: usize) -> (r: Option<(u64, usize)>)
    requires
        pos <= b@.len(),
    ensures
        r matches Some((x, np)) ==> np <= b@.len() && take_u64(b@.skip(pos as int)) == Some(
            (x, b@.skip(np as int)),
        ),
        r is None ==> take_u64(b@.skip(pos as int)) is None,
{
    if b.len() - pos >= 8 {
        proof {
            lemma_skip_skip(b@, pos as int, 8);
        }
        Some((u64_from_le_bytes(&b[pos..pos + 8]), pos + 8))
    } else {
        None
    }
}

fn read_i64(b: &[u8], pos: usize) -> (r: Option<(i64, usize)>)
    requires
        pos <= b@.len(),
    ensures
        r matches Some((x, np)) ==> np <= b@.len() && take_i64(b@.skip(pos as int)) == Some(
            (x, b@.skip(np as int)),
        ),
        r is None ==> take_i64(b@.skip(pos as int)) is None,
{
    match read_u64(b, pos) {
        Some((x, np)) => Some((x as i64, np)),
        None => None,
    }
}

fn read_key(b: &[u8], pos: usize) -> (r: Option<(Principal, usize)>)
    requires
        pos <= b@.len(),
    ensures
        r matches Some((x, np)) ==> np <= b@.len() && take_key(b@.skip(pos as int)) == Some(
            (x@, b@.skip(np as int)),
        ),
        r is None ==> take_key(b@.skip(pos as int)) is None,
{
    if b.len() - pos >= 32 {
        proof {
            lemma_skip_skip(b@, pos as int, 32);
        }
        Some((Principal::from_slice(&b[pos..pos + 32]), pos + 32))
    } else {
        None
    }
}

fn read_str(b: &[u8], pos: usize) -> (r: Option<(String, usize)>)
    requires
        pos <= b@.len(),
    ensures
        r matches Some((x, np)) ==> np <= b@.len() && take_str(b@.skip(pos as int)) == Some(
            (x@, b@.skip(np as int)),
        ),
        r is None ==> take_str(b@.skip(pos as int)) is None,
{
    match read_u32(b, pos) {
        Some((n, start)) => {
            let n = n as usize;
            if b.len() - start >= n {
                proof {
                    lemma_skip_skip(b@, start as int, n as int);
                }
                let bytes = slice_to_vec(&b[start..start + n]);
                match string_from_utf8(bytes) {
                    Some(s) => Some((s, start + n)),
                    None => None,
                }
            } else {
                None
            }
        },
        None => None,
    }
}

fn read_opt_str(b: &[u8], pos: usize) -> (r: Option<(Option<String>, usize)>)
    requires
        pos <= b@.len(),
    ensures
        r matches Some((x, np)) ==> np <= b@.len() && take_opt_str(b@.skip(pos as int)) == Some(
            (opt_view(&x), b@.skip(np as int)),
        ),
        r is None ==> take_opt_str(b@.skip(pos as int)) is None,
{
    match read_u8(b, pos) {
        Some((0u8, np)) => Some((None, np)),
        Some((1u8, np)) => match read_str(b, np) {
            Some((s, end)) => Some((Some(s), end)),
            None => None,
        },
        _ => None,
    }
}

// ----- data records -----

pub open spec fn spec_encode_data_record(v: DataRecordView) -> Seq<u8> {
    v.owner + (enc_str(v.data_hash) + (enc_str(v.data_type) + (enc_str(v.description) + (
    spec_u64_to_le_bytes(v.price) + (enc_bool(v.is_available) + (spec_u32_to_le_bytes(
        v.access_count,
    ) + (enc_i64(v.created_at) + enc_i64(v.updated_at))))))))
}

/// The record that `b` holds, if it holds one and nothing after it.
pub open spec fn spec_decode_data_record(b: Seq<u8>) -> Option<DataRecordView> {
    match take_key(b) {
        Some((owner, b)) => match take_str(b) {
            Some((data_hash, b)) => match take_str(b) {
                Some((data_type, b)) => match take_str(b) {
                    Some((description, b)) => match take_u64(b) {
                        Some((price, b)) => match take_bool(b) {
                            Some((is_available, b)) => match take_u32(b) {
                                Some((access_count, b)) => match take_i64(b) {
                                    Some((created_at, b)) => match take_i64(b) {
                                        Some((updated_at, b)) => if b.len() == 0 {
                                            Some(
                                                DataRecordView {
                                                    owner,
                                                    data_hash,
                                                    data_type,
                                                    description,
                                                    price,
                                                    is_available,
                                                    access_count,
                                                    created_at,
                                                    updated_at,
                                                },
                                            )
                                        } else {
                                            None
                                        },
                                        None => None,
                                    },
                                    None => None,
                                },
                                None => None,
                            },
                            None => None,
                        },
                        None => None,
                    },
                    None => None,
                },
                None => None,
            },
            None => None,
        },
        None => None,
    }
}

/// Reading back the layout of a well-formed data record gives that record.
pub proof fn lemma_data_record_round_trip(d: DataRecord)
    requires
        d.wf(),
    ensures
        spec_decode_data_record(spec_encode_data_record(d@)) == Some(d@),
{
    let v = d@;
    let e = Seq::<u8>::empty();
    let r8 = enc_i64(v.updated_at);
    let r7 = enc_i64(v.created_at) + r8;
    let r6 = spec_u32_to_le_bytes(v.access_count) + r7;
    let r5 = enc_bool(v.is_available) + r6;
    let r4 = spec_u64_to_le_bytes(v.price) + r5;
    let r3 = enc_str(v.description) + r4;
    let r2 = enc_str(v.data_type) + r3;
    let r1 = enc_str(v.data_hash) + r2;
    assert(r8 + e =~= r8);
    lemma_read_key(v.owner, r1);
    lemma_read_str(v.data_hash, r2);
    lemma_read_str(v.data_type, r3);
    lemma_read_str(v.description, r4);
    lemma_read_u64(v.price, r5);
    lemma_read_bool(v.is_available, r6);
    lemma_read_u32(v.access_count, r7);
    lemma_read_i64(v.created_at, r8);
    lemma_read_i64(v.updated_at, e);
}

/// The persisted layout of a data record.
pub fn encode_data_record(d: &DataRecord) -> (r: Vec<u8>)
    requires
        d.wf(),
    ensures
        r@ == spec_encode_data_record(d@),
{
    let mut out: Vec<u8> = Vec::new();
    put_key(&mut out, &d.owner);
    put_str(&mut out, &d.data_hash);
    put_str(&mut out, &d.data_type);
    put_str(&mut out, &d.description);
    put_u64(&mut out, d.price);
    put_bool(&mut out, d.is_available);
    put_u32(&mut out, d.access_count);
    put_i64(&mut out, d.created_at);
    put_i64(&mut out, d.updated_at);
    assert(out@ =~= spec_encode_data_record(d@));
    out
}

/// The data record that `b` holds; `None` where `b` is not exactly one record's layout.
pub fn decode_data_record(b: &[u8]) -> (r: Option<DataRecord>)
    ensures
        match r {
            Some(d) => spec_decode_data_record(b@) == Some(d@),
            None => spec_decode_data_record(b@) is None,
        },
{
    proof {
        assert(b@.skip(0) =~= b@);
    }
    let (owner, p) = match read_key(b, 0) {
        Some(x) => x,
        None => return None,
    };
    let (data_hash, p) = match read_str(b, p) {
        Some(x) => x,
        None => return None,
    };
    let (data_type, p) = match read_str(b, p) {
        Some(x) => x,
        None => return None,
    };
    let (description, p) = match read_str(b, p) {
        Some(x) => x,
        None => return None,
    };
    let (price, p) = match read_u64(b, p) {
        Some(x) => x,
        None => return None,
    };
    let (is_available, p) = match read_bool(b, p) {
        Some(x) => x,
        None => return None,
    };
    let (access_count, p) = match read_u32(b, p) {
        Some(x) => x,
        None => return None,
    };
    let (created_at, p) = match read_i64(b, p) {
        Some(x) => x,
        None => return None,
    };
    let (updated_at, p) = match read_i64(b, p) {
        Some(x) => x,
        None => return None,
    };
    if p != b.len() {
        return None;
    }
    Some(
        DataRecord {
            owner,
            data_hash,
            data_type,
            description,
            price,
            is_available,
            access_count,
            created_at,
            updated_at,
        },
    )
}

// ----- access requests -----

pub open spec fn status_tag(s: AccessStatus) -> u8 {
    match s {
        AccessStatus::Pending => 0,
        AccessStatus::Approved => 1,
        AccessStatus::Denied => 2,
        AccessStatus::Expired => 3,
    }
}

pub open spec fn take_status(b: Seq<u8>) -> Option<(AccessStatus, Seq<u8>)> {
    match take_u8(b) {
        Some((x, t)) => if x == 0 {
            Some((AccessStatus::Pending, t))
        } else if x == 1 {
            Some((AccessStatus::Approved, t))
        } else if x == 2 {
            Some((AccessStatus::Denied, t))
        } else if x == 3 {
            Some((AccessStatus::Expired, t))
        } else {
            None
        },
        None => None,
    }
}

proof fn lemma_read_status(s: AccessStatus, rest: Seq<u8>)
    ensures
        take_status(seq![status_tag(s)] + rest) == Some((s, rest)),
{
    lemma_read_u8(status_tag(s), rest);
}

fn put_status(out: &mut Vec<u8>, s: AccessStatus)
    ensures
        final(out)@ == old(out)@ + seq![status_tag(s)],
{
    let tag: u8 = match s {
        AccessStatus::Pending => 0,
        AccessStatus::Approved => 1,
        AccessStatus::Denied => 2,
        AccessStatus::Expired => 3,
    };
    put_u8(out, tag);
}

fn read_status(b: &[u8], pos: usize) -> (r: Option<(AccessStatus, usize)>)
    requires
        pos <= b@.len(),
    ensures
        r matches Some((x, np)) ==> np <= b@.len() && take_status(b@.skip(pos as int)) == Some(
            (x, b@.skip(np as int)),
        ),
        r is None ==> take_status(b@.skip(pos as int)) is None,
{
    match read_u8(b, pos) {
        Some((0u8, np)) => Some((AccessStatus::Pending, np)),
        Some((1u8, np)) => Some((AccessStatus::Approved, np)),
        Some((2u8, np)) => Some((AccessStatus::Denied, np)),
        Some((3u8, np)) => Some((AccessStatus::Expired, np)),
        _ => None,
    }
}

pub open spec fn spec_encode_access_request(v: AccessRequestView) -> Seq<u8> {
    v.data_record + (v.requester + (v.owner + (enc_str(v.purpose) + (spec_u16_to_le_bytes(
        v.duration_days,
    ) + (seq![status_tag(v.status)] + (enc_i64(v.requested_at) + (enc_i64(v.approved_at) + (
    enc_i64(v.expires_at) + enc_opt_str(v.denial_reason)))))))))
}

/// The request that `b` holds, if it holds one and nothing after it.
pub open spec fn spec_decode_access_request(b: Seq<u8>) -> Option<AccessRequestView> {
    match take_key(b) {
        Some((data_record, b)) => match take_key(b) {
            Some((requester, b)) => match take_key(b) {
                Some((owner, b)) => match take_str(b) {
                    Some((purpose, b)) => match take_u16(b) {
                        Some((duration_days, b)) => match take_status(b) {
                            Some((status, b)) => match take_i64(b) {
                                Some((requested_at, b)) => match take_i64(b) {
                                    Some((approved_at, b)) => match take_i64(b) {
                                        Some((expires_at, b)) => match take_opt_str(b) {
                                            Some((denial_reason, b)) => if b.len() == 0 {
                                                Some(
                                                    AccessRequestView {
                                                        data_record,
                                                        requester,
                                                        owner,
                                                        purpose,
                                                        duration_days,
                                                        status,
                                                        requested_at,
                                                        approved_at,
                                                        expires_at,
                                                        denial_reason,
                                                    },
                                                )
                                            } else {
                                                None
                                            },
                                            None => None,
                                        },
                                        None => None,
                                    },
                                    None => None,
                                },
                                None => None,
                            },
                            None => None,
                        },
                        None => None,
                    },
                    None => None,
                },
                None => None,
            },
            None => None,
        },
        None => None,
    }
}

/// Reading back the layout of a well-formed access request gives that request.
pub proof fn lemma_access_request_round_trip(q: AccessRequest)
    requires
        q.wf(),
    ensures
        spec_decode_access_request(spec_encode_access_request(q@)) == Some(q@),
{
    let v = q@;
    let e = Seq::<u8>::empty();
    let r9 = enc_opt_str(v.denial_reason);
    let r8 = enc_i64(v.expires_at) + r9;
    let r7 = enc_i64(v.approved_at) + r8;
    let r6 = enc_i64(v.requested_at) + r7;
    let r5 = seq![status_tag(v.status)] + r6;
    let r4 = spec_u16_to_le_bytes(v.duration_days) + r5;
    let r3 = enc_str(v.purpose) + r4;
    let r2 = v.owner + r3;
    let r1 = v.requester + r2;
    assert(r9 + e =~= r9);
    lemma_read_key(v.data_record, r1);
    lemma_read_key(v.requester, r2);
    lemma_read_key(v.owner, r3);
    lemma_read_str(v.purpose, r4);
    lemma_read_u16(v.duration_days, r5);
    lemma_read_status(v.status, r6);
    lemma_read_i64(v.requested_at, r7);
    lemma_read_i64(v.approved_at, r8);
    lemma_read_i64(v.expires_at, r9);
    lemma_read_opt_str(v.denial_reason, e);
}

/// The persisted layout of an access request.
pub fn encode_access_request(q: &AccessRequest) -> (r: Vec<u8>)
    requires
        q.wf(),
    ensures
        r@ == spec_encode_access_request(q@),
{
    let mut out: Vec<u8> = Vec::new();
    put_key(&mut out, &q.data_record);
    put_key(&mut out, &q.requester);
    put_key(&mut out, &q.owner);
    put_str(&mut out, &q.purpose);
    put_u16(&mut out, q.duration_days);
    put_status(&mut out, q.status);
    put_i64(&mut out, q.requested_at);
    put_i64(&mut out, q.approved_at);
    put_i64(&mut out, q.expires_at);
    put_opt_str(&mut out, &q.denial_reason);
    assert(out@ =~= spec_encode_access_request(q@));
    out
}

/// The access request that `b` holds; `None` where `b` is not exactly one request's layout.
pub fn decode_access_request(b: &[u8]) -> (r: Option<AccessRequest>)
    ensures
        match r {
            Some(q) => spec_decode_access_request(b@) == Some(q@),
            None => spec_decode_access_request(b@) is None,
        },
{
    proof {
        assert(b@.skip(0) =~= b@);
    }
    let (data_record, p) = match read_key(b, 0) {
        Some(x) => x,
        None => return None,
    };
    let (requester, p) = match read_key(b, p) {
        Some(x) => x,
        None => return None,
    };
    let (owner, p) = match read_key(b, p) {
        Some(x) => x,
        None => return None,
    };
    let (purpose, p) = match read_str(b, p) {
        Some(x) => x,
        None => return None,
    };
    let (duration_days, p) = match read_u16(b, p) {
        Some(x) => x,
        None => return None,
    };
    let (status, p) = match read_status(b, p) {
        Some(x) => x,
        None => return None,
    };
    let (requested_at, p) = match read_i64(b, p) {
        Some(x) => x,
        None => return None,
    };
    let (approved_at, p) = match read_i64(b, p) {
        Some(x) => x,
        None => return None,
    };
    let (expires_at, p) = match read_i64(b, p) {
        Some(x) => x,
        None => return None,
    };
    let (denial_reason, p) = match read_opt_str(b, p) {
        Some(x) => x,
        None => return None,
    };
    if p != b.len() {
        return None;
    }
    Some(
        AccessRequest {
            data_record,
            requester,
            owner,
            purpose,
            duration_days,
            status,
            requested_at,
            approved_at,
            expires_at,
            denial_reason,
        },
    )
}

// ----- transaction records -----

pub open spec fn spec_encode_transaction_record(t: TransactionRecord) -> Seq<u8> {
    t.researcher@ + (t.data_provider@ + (spec_u64_to_le_bytes(t.amount) + (spec_u64_to_le_bytes(
        t.provider_share,
    ) + (spec_u64_to_le_bytes(t.platform_share) + enc_i64(t.timestamp)))))
}

/// The payment record that `b` holds, as its fields, if it holds one and nothing after it.
pub open spec fn spec_decode_transaction_record(b: Seq<u8>) -> Option<
    (Seq<u8>, Seq<u8>, u64, u64, u64, i64),
> {
    match take_key(b) {
        Some((researcher, b)) => match take_key(b) {
            Some((data_provider, b)) => match take_u64(b) {
                Some((amount, b)) => match take_u64(b) {
                    Some((provider_share, b)) => match take_u64(b) {
                        Some((platform_share, b)) => match take_i64(b) {
                            Some((timestamp, b)) => if b.len() == 0 {
                                Some(
                                    (
                                        researcher,
                                        data_provider,
                                        amount,
                                        provider_share,
                                        platform_share,
                                        timestamp,
                                    ),
                                )
                            } else {
                                None
                            },
                            None => None,
                        },
                        None => None,
                    },
                    None => None,
                },
                None => None,
            },
            None => None,
        },
        None => None,
    }
}

/// The fields of a payment record, identities as bytes.
pub open spec fn transaction_fields(t: TransactionRecord) -> (Seq<u8>, Seq<u8>, u64, u64, u64, i64) {
    (t.researcher@, t.data_provider@, t.amount, t.provider_share, t.platform_share, t.timestamp)
}

/// Reading back the layout of a payment record gives that record.
pub proof fn lemma_transaction_record_round_trip(t: TransactionRecord)
    ensures
        spec_decode_transaction_record(spec_encode_transaction_record(t)) == Some(
            transaction_fields(t),
        ),
{
    let e = Seq::<u8>::empty();
    let r5 = enc_i64(t.timestamp);
    let r4 = spec_u64_to_le_bytes(t.platform_share) + r5;
    let r3 = spec_u64_to_le_bytes(t.provider_share) + r4;
    let r2 = spec_u64_to_le_bytes(t.amount) + r3;
    let r1 = t.data_provider@ + r2;
    assert(r5 + e =~= r5);
    lemma_read_key(t.researcher@, r1);
    lemma_read_key(t.data_provider@, r2);
    lemma_read_u64(t.amount, r3);
    lemma_read_u64(t.provider_share, r4);
    lemma_read_u64(t.platform_share, r5);
    lemma_read_i64(t.timestamp, e);
}

/// The persisted layout of a payment record: always 96 bytes.
pub fn encode_transaction_record(t: &TransactionRecord) -> (r: Vec<u8>)
    ensures
        r@ == spec_encode_transaction_record(*t),
        r@.len() == 96,
{
    let mut out: Vec<u8> = Vec::new();
    put_key(&mut out, &t.researcher);
    put_key(&mut out, &t.data_provider);
    put_u64(&mut out, t.amount);
    put_u64(&mut out, t.provider_share);
    put_u64(&mut out, t.platform_share);
    put_i64(&mut out, t.timestamp);
    proof {
        lemma_auto_spec_u64_to_from_le_bytes();
        assert(t.researcher@.len() == 32 && t.data_provider@.len() == 32);
    }
    assert(out@ =~= spec_encode_transaction_record(*t));
    out
}

/// The payment record that `b` holds; `None` where `b` is not exactly one record's layout.
pub fn decode_transaction_record(b: &[u8]) -> (r: Option<TransactionRecord>)
    ensures
        match r {
            Some(t) => spec_decode_transaction_record(b@) == Some(transaction_fields(t)),
            None => spec_decode_transaction_record(b@) is None,
        },
{
    proof {
        assert(b@.skip(0) =~= b@);
    }
    let (researcher, p) = match read_key(b, 0) {
        Some(x) => x,
        None => return None,
    };
    let (data_provider, p) = match read_key(b, p) {
        Some(x) => x,
        None => return None,
    };
    let (amount, p) = match read_u64(b, p) {
        Some(x) => x,
        None => return None,
    };
    let (provider_share, p) = match read_u64(b, p) {
        Some(x) => x,
        None => return None,
    };
    let (platform_share, p) = match read_u64(b, p) {
        Some(x) => x,
        None => return None,
    };
    let (timestamp, p) = match read_i64(b, p) {
        Some(x) => x,
        None => return None,
    };
    if p != b.len() {
        return None;
    }
    Some(
        TransactionRecord {
            researcher,
            data_provider,
            amount,
            provider_share,
            platform_share,
            timestamp,
        },
    )
}

// ----- token metadata -----

pub open spec fn spec_encode_token_info(v: TokenInfoView) -> Seq<u8> {
    enc_str(v.name) + (enc_str(v.symbol) + (seq![v.decimals] + (spec_u64_to_le_bytes(
        v.total_supply,
    ) + v.authority)))
}

/// The token metadata that `b` holds, if it holds it and nothing after it.
pub open spec fn spec_decode_token_info(b: Seq<u8>) -> Option<TokenInfoView> {
    match take_str(b) {
        Some((name, b)) => match take_str(b) {
            Some((symbol, b)) => match take_u8(b) {
                Some((decimals, b)) => match take_u64(b) {
                    Some((total_supply, b)) => match take_key(b) {
                        Some((authority, b)) => if b.len() == 0 {
                            Some(TokenInfoView { name, symbol, decimals, total_supply, authority })
                        } else {
                            None
                        },
                        None => None,
                    },
                    None => None,
                },
                None => None,
            },
            None => None,
        },
        None => None,
    }
}

/// Reading back the layout of well-formed token metadata gives that metadata.
pub proof fn lemma_token_info_round_trip(info: TokenInfo)
    requires
        info.wf(),
    ensures
        spec_decode_token_info(spec_encode_token_info(info@)) == Some(info@),
{
    let v = info@;
    let e = Seq::<u8>::empty();
    let r4 = v.authority;
    let r3 = spec_u64_to_le_bytes(v.total_supply) + r4;
    let r2 = seq![v.decimals] + r3;
    let r1 = enc_str(v.symbol) + r2;
    assert(r4 + e =~= r4);
    lemma_read_str(v.name, r1);
    lemma_read_str(v.symbol, r2);
    lemma_read_u8(v.decimals, r3);
    lemma_read_u64(v.total_supply, r4);
    lemma_read_key(v.authority, e);
}

/// The persisted layout of token metadata.
pub fn encode_token_info(info: &TokenInfo) -> (r: Vec<u8>)
    requires
        info.wf(),
    ensures
        r@ == spec_encode_token_info(info@),
{
    let mut out: Vec<u8> = Vec::new();
    put_str(&mut out, &info.name);
    put_str(&mut out, &info.symbol);
    put_u8(&mut out, info.decimals);
    put_u64(&mut out, info.total_supply);
    put_key(&mut out, &info.authority);
    assert(out@ =~= spec_encode_token_info(info@));
    out
}

/// The token metadata that `b` holds; `None` where `b` is not exactly its layout.
pub fn decode_token_info(b: &[u8]) -> (r: Option<TokenInfo>)
    ensures
        match r {
            Some(info) => spec_decode_token_info(b@) == Some(info@),
            None => spec_decode_token_info(b@) is None,
        },
{
    proof {
        assert(b@.skip(0) =~= b@);
    }
    let (name, p) = match read_str(b, 0) {
        Some(x) => x,
        None => return None,
    };
    let (symbol, p) = match read_str(b, p) {
        Some(x) => x,
        None => return None,
    };
    let (decimals, p) = match read_u8(b, p) {
        Some(x) => x,
        None => return None,
    };
    let (total_supply, p) = match read_u64(b, p) {
        Some(x) => x,
        None => return None,
    };
    let (authority, p) = match read_key(b, p) {
        Some(x) => x,
        None => return None,
    };
    if p != b.len() {
        return None;
    }
    Some(TokenInfo { name, symbol, decimals, total_supply, authority })
}

} // verus!
