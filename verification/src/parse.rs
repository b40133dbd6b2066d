//! Result decoding for the read path: the raw bytes a contract call returns
//! are decoded back into the mapped identifier. An empty or zero-length
//! result is the contract's sentinel for "no mapping exists" and is reported
//! as `MappingNotFound`; malformed or truncated bytes are `DecodingError`.

use vstd::prelude::*;
use crate::abi::{
    encode_one, pad_amount, padded_len, push_dyn_tail, push_word, str_bytes, word32, zero_bytes,
};
use crate::errors::VdrError;
use crate::identifiers::{
    check_did, check_resource_identifier, lemma_did_ascii, lemma_resource_identifier_ascii,
    valid_did, valid_resource_identifier,
};

verus! {

/// What a raw string return value decodes to: the contract's "no mapping"
/// sentinel, malformed bytes, or the returned string's bytes.
pub enum DecodedResult {
    NotFound,
    Malformed,
    Found(Seq<u8>),
}

/// The value of eight big-endian bytes.
pub open spec fn be64_value(b: Seq<u8>) -> u64 {
    ((b[0] as u64) << 56) | ((b[1] as u64) << 48) | ((b[2] as u64) << 40) | ((b[3] as u64) << 32)
        | ((b[4] as u64) << 24) | ((b[5] as u64) << 16) | ((b[6] as u64) << 8) | (b[7] as u64)
}

/// The characters a byte sequence spells, one character per byte.
pub open spec fn chars_of(b: Seq<u8>) -> Seq<char> {
    Seq::new(b.len(), |i: int| b[i] as char)
}

/// Every byte is printable ASCII.
pub open spec fn all_printable(b: Seq<u8>) -> bool {
    forall|i: int| 0 <= i < b.len() ==> 0x21 <= #[trigger] b[i] && b[i] <= 0x7e
}

/// Decodes a raw string return value: an offset word that must be 32, a
/// length word bounded to 64 bits, the string bytes, and zero padding up to
/// a word boundary, with nothing following. A zero-length string (or an
/// entirely empty buffer) is the "no mapping" sentinel.
pub open spec fn decode_string_result(b: Seq<u8>) -> DecodedResult {
    if b.len() == 0 {
        DecodedResult::NotFound
    } else if b.len() < 64 {
        DecodedResult::Malformed
    } else if b.subrange(0, 32) != word32(32) {
        DecodedResult::Malformed
    } else if b.subrange(32, 56) != zero_bytes(24) {
        DecodedResult::Malformed
    } else {
        let n = be64_value(b.subrange(56, 64)) as int;
        if b.len() != 64 + padded_len(n as nat) {
            DecodedResult::Malformed
        } else if b.subrange(64 + n, b.len() as int) != zero_bytes(pad_amount(n as nat)) {
            DecodedResult::Malformed
        } else if n == 0 {
            DecodedResult::NotFound
        } else {
            DecodedResult::Found(b.subrange(64, 64 + n))
        }
    }
}

/// Relies on std's `String::from_utf8`: ASCII bytes decode to exactly one
/// character per byte.
#[verifier::external_body]
fn ascii_to_string(bytes: Vec<u8>) -> (r: String)
    requires
        forall|i: int| 0 <= i < bytes@.len() ==> bytes@[i] < 0x80,
    ensures
        r@ == chars_of(bytes@),
{
    match String::from_utf8(bytes) {
        Ok(s) => s,
        Err(_) => String::new(),
    }
}

/// True exactly when the 32 bytes of `b` at `at` are the word of `v`.
fn word_at_equals(b: &[u8], at: usize, v: u64) -> (r: bool)
    requires
        at + 32 <= b@.len(),
    ensures
        r == (b@.subrange(at as int, at as int + 32) == word32(v)),
{
    let blen = b.len();
    let mut w: Vec<u8> = Vec::new();
    push_word(&mut w, v);
    let mut i: usize = 0;
    while i < 32
        invariant
            0 <= i <= 32,
            at + 32 <= blen,
            blen == b@.len(),
            w@ == word32(v),
            w@.len() == 32,
            forall|j: int| 0 <= j < i ==> b@[at + j] == w@[j],
        decreases 32 - i,
    {
        if b[at + i] != w[i] {
            proof {
                assert(b@.subrange(at as int, at as int + 32)[i as int] != word32(v)[i as int]);
            }
            return false;
        }
        i = i + 1;
    }
    proof {
        assert(b@.subrange(at as int, at as int + 32) =~= word32(v));
    }
    true
}

/// Decodes a raw string return value. On success the string's bytes are
/// handed back with every byte checked ASCII-printable; otherwise the typed
/// error of the decode outcome.
#[verifier::loop_isolation(false)]
fn decode_result_bytes(bytes: &[u8]) -> (r: Result<Vec<u8>, VdrError>)
    ensures
        match r {
            Ok(v) => {
                &&& (decode_string_result(bytes@) matches DecodedResult::Found(d) && v@ == d)
                &&& all_printable(v@)
            },
            Err(e) => {
                &&& e == VdrError::MappingNotFound || e == VdrError::DecodingError
                &&& (e == VdrError::MappingNotFound <==> decode_string_result(bytes@)
                    is NotFound)
                &&& (decode_string_result(bytes@) matches DecodedResult::Found(d) ==> e
                    == VdrError::DecodingError && !all_printable(d))
            },
        },
{
    let total = bytes.len();
    if total == 0 {
        return Err(VdrError::MappingNotFound);
    }
    if total < 64 {
        return Err(VdrError::DecodingError);
    }
    if !word_at_equals(bytes, 0, 32) {
        return Err(VdrError::DecodingError);
    }
    let mut i: usize = 32;
    while i < 56
        invariant
            32 <= i <= 56,
            total == bytes@.len(),
            64 <= total,
            forall|j: int| 32 <= j < i ==> bytes@[j] == 0,
        decreases 56 - i,
    {
        if bytes[i] != 0 {
            proof {
                assert(bytes@.subrange(32, 56)[i - 32] != zero_bytes(24)[i - 32]);
            }
            return Err(VdrError::DecodingError);
        }
        i = i + 1;
    }
    proof {
        assert(bytes@.subrange(32, 56) =~= zero_bytes(24));
    }
    let n: u64 = ((bytes[56] as u64) << 56) | ((bytes[57] as u64) << 48) | ((bytes[58] as u64)
        << 40) | ((bytes[59] as u64) << 32) | ((bytes[60] as u64) << 24) | ((bytes[61] as u64)
        << 16) | ((bytes[62] as u64) << 8) | (bytes[63] as u64);
    proof {
        assert(bytes@.subrange(56, 64)[0] == bytes@[56]);
        assert(bytes@.subrange(56, 64)[1] == bytes@[57]);
        assert(bytes@.subrange(56, 64)[2] == bytes@[58]);
        assert(bytes@.subrange(56, 64)[3] == bytes@[59]);
        assert(bytes@.subrange(56, 64)[4] == bytes@[60]);
        assert(bytes@.subrange(56, 64)[5] == bytes@[61]);
        assert(bytes@.subrange(56, 64)[6] == bytes@[62]);
        assert(bytes@.subrange(56, 64)[7] == bytes@[63]);
        assert(n == be64_value(bytes@.subrange(56, 64)));
    }
    if n > (total - 64) as u64 {
        proof {
            assert(padded_len(n as nat) >= n as nat);
            assert(bytes@.len() != 64 + padded_len(n as nat));
        }
        return Err(VdrError::DecodingError);
    }
    let nn = n as usize;
    let rem = nn % 32;
    let padded = if rem == 0 {
        nn
    } else {
        nn + (32 - rem)
    };
    proof {
        assert(padded == padded_len(n as nat));
    }
    if padded != total - 64 {
        return Err(VdrError::DecodingError);
    }
    let mut k: usize = 64 + nn;
    while k < total
        invariant
            64 + nn <= k <= total,
            total == bytes@.len(),
            forall|j: int| 64 + nn <= j < k ==> bytes@[j] == 0,
        decreases total - k,
    {
        if bytes[k] != 0 {
            proof {
                let idx = k - 64 - n as int;
                assert(bytes@.len() == 64 + padded_len(n as nat));
                assert(0 <= idx < pad_amount(n as nat));
                assert(bytes@.subrange(64 + n as int, bytes@.len() as int)[idx] == bytes@[k as int]);
                assert(zero_bytes(pad_amount(n as nat))[idx] == 0);
            }
            return Err(VdrError::DecodingError);
        }
        k = k + 1;
    }
    proof {
        assert(bytes@.subrange(64 + n as int, bytes@.len() as int) =~= zero_bytes(
            pad_amount(n as nat),
        ));
    }
    if nn == 0 {
        return Err(VdrError::MappingNotFound);
    }
    let ghost d = bytes@.subrange(64, 64 + n as int);
    let mut out: Vec<u8> = Vec::new();
    let mut j: usize = 0;
    while j < nn
        invariant
            0 <= j <= nn,
            64 + nn <= total,
            total == bytes@.len(),
            d == bytes@.subrange(64, 64 + nn as int),
            out@ == d.take(j as int),
            forall|t: int| 0 <= t < j ==> 0x21 <= #[trigger] out@[t] && out@[t] <= 0x7e,
        decreases nn - j,
    {
        let byte = bytes[64 + j];
        if byte < 0x21 || byte > 0x7e {
            proof {
                assert(d[j as int] == bytes@[64 + j]);
                assert(decode_string_result(bytes@) == DecodedResult::Found(d));
                assert(!all_printable(d));
            }
            return Err(VdrError::DecodingError);
        }
        out.push(byte);
        proof {
            assert(out@ =~= d.take(j + 1));
        }
        j = j + 1;
    }
    proof {
        assert(out@ =~= d);
    }
    Ok(out)
}

/// A byte sequence with a non-printable byte spells no well-formed DID and
/// no well-formed resource identifier.
proof fn lemma_unprintable_bytes_invalid(b: Seq<u8>)
    requires
        !all_printable(b),
    ensures
        !valid_did(chars_of(b)),
        !valid_resource_identifier(chars_of(b)),
{
    let i = choose|i: int| 0 <= i < b.len() && !(0x21 <= #[trigger] b[i] && b[i] <= 0x7e);
    assert(chars_of(b)[i] == b[i] as char);
    assert(!crate::identifiers::is_printable_char(chars_of(b)[i]));
}

/// Decodes the raw return bytes of a DID mapping lookup into the mapped DID
/// string. An empty buffer or a zero-length result means no mapping exists
/// (`MappingNotFound`); truncated or malformed bytes, or a result that is
/// not a well-formed DID, are a `DecodingError`.
pub fn parse_did_mapping_result(bytes: &[u8]) -> (r: Result<String, VdrError>)
    ensures
        match r {
            Ok(s) => {
                &&& (decode_string_result(bytes@) matches DecodedResult::Found(d) && s@
                    == chars_of(d))
                &&& valid_did(s@)
            },
            Err(e) => {
                &&& (e == VdrError::MappingNotFound <==> decode_string_result(bytes@)
                    is NotFound)
                &&& (decode_string_result(bytes@) is Malformed ==> e == VdrError::DecodingError)
                &&& (decode_string_result(bytes@) matches DecodedResult::Found(d) ==> e
                    == VdrError::DecodingError && !valid_did(chars_of(d)))
            },
        },
        bytes@.len() == 0 ==> r == Err::<String, VdrError>(VdrError::MappingNotFound),
        0 < bytes@.len() < 64 ==> r == Err::<String, VdrError>(VdrError::DecodingError),
{
    let data = match decode_result_bytes(bytes) {
        Ok(v) => v,
        Err(e) => {
            proof {
                match decode_string_result(bytes@) {
                    DecodedResult::Found(dd) => {
                        lemma_unprintable_bytes_invalid(dd);
                    },
                    _ => {},
                }
            }
            return Err(e);
        },
    };
    let ghost d = data@;
    let s = ascii_to_string(data);
    if check_did(s.as_str()) {
        Ok(s)
    } else {
        proof {
            assert(!valid_did(chars_of(d)));
        }
        Err(VdrError::DecodingError)
    }
}

/// Decodes the raw return bytes of a resource mapping lookup into the mapped
/// resource identifier string. An empty buffer or a zero-length result means
/// no mapping exists (`MappingNotFound`); truncated or malformed bytes, or a
/// result that is not a well-formed resource identifier, are a
/// `DecodingError`.
pub fn parse_resource_mapping_result(bytes: &[u8]) -> (r: Result<String, VdrError>)
    ensures
        match r {
            Ok(s) => {
                &&& (decode_string_result(bytes@) matches DecodedResult::Found(d) && s@
                    == chars_of(d))
                &&& valid_resource_identifier(s@)
            },
            Err(e) => {
                &&& (e == VdrError::MappingNotFound <==> decode_string_result(bytes@)
                    is NotFound)
                &&& (decode_string_result(bytes@) is Malformed ==> e == VdrError::DecodingError)
                &&& (decode_string_result(bytes@) matches DecodedResult::Found(d) ==> e
                    == VdrError::DecodingError && !valid_resource_identifier(chars_of(d)))
            },
        },
        bytes@.len() == 0 ==> r == Err::<String, VdrError>(VdrError::MappingNotFound),
        0 < bytes@.len() < 64 ==> r == Err::<String, VdrError>(VdrError::DecodingError),
{
    let data = match decode_result_bytes(bytes) {
        Ok(v) => v,
        Err(e) => {
            proof {
                match decode_string_result(bytes@) {
                    DecodedResult::Found(dd) => {
                        lemma_unprintable_bytes_invalid(dd);
                    },
                    _ => {},
                }
            }
            return Err(e);
        },
    };
    let ghost d = data@;
    let s = ascii_to_string(data);
    if check_resource_identifier(s.as_str()) {
        Ok(s)
    } else {
        proof {
            assert(!valid_resource_identifier(chars_of(d)));
        }
        Err(VdrError::DecodingError)
    }
}

/// Law: decoding is left-inverse to encoding. A successful read response
/// encoded for any non-empty byte string decodes back to exactly those
/// bytes.
pub proof fn lemma_encode_decode_round_trip(d: Seq<u8>)
    requires
        1 <= d.len() <= 0xffffffff,
    ensures
        decode_string_result(encode_one(d)) == DecodedResult::Found(d),
{
    let n = d.len();
    let v = n as u64;
    let b = encode_one(d);
    assert(word32(32).len() == 32);
    assert(word32(v).len() == 32);
    assert(b.len() == 64 + n + pad_amount(n));
    assert(b.subrange(0, 32) =~= word32(32));
    assert forall|i: int| 0 <= i < 24 implies word32(v)[i] == 0u8 by {
    }
    assert(b.subrange(32, 56) =~= zero_bytes(24));
    let lw = b.subrange(56, 64);
    assert(lw[0] == (v >> 56) as u8);
    assert(lw[1] == (v >> 48) as u8);
    assert(lw[2] == (v >> 40) as u8);
    assert(lw[3] == (v >> 32) as u8);
    assert(lw[4] == (v >> 24) as u8);
    assert(lw[5] == (v >> 16) as u8);
    assert(lw[6] == (v >> 8) as u8);
    assert(lw[7] == v as u8);
    assert((((v >> 56) as u8) as u64) << 56 | (((v >> 48) as u8) as u64) << 48 | (((v >> 40) as u8)
        as u64) << 40 | (((v >> 32) as u8) as u64) << 32 | (((v >> 24) as u8) as u64) << 24 | (((v
        >> 16) as u8) as u64) << 16 | (((v >> 8) as u8) as u64) << 8 | ((v as u8) as u64) == v)
        by (bit_vector);
    assert(be64_value(lw) == v);
    assert(b.len() == 64 + padded_len(n));
    assert(b.subrange(64 + n as int, b.len() as int) =~= zero_bytes(pad_amount(n)));
    assert(b.subrange(64, 64 + n as int) =~= d);
}

/// Law: a resource mapping write and a read of the same mapping are
/// symmetric. Encoding the registry's successful read response for a valid
/// resource identifier and decoding it yields the identifier's bytes, which
/// spell the original string unchanged.
pub proof fn lemma_resource_mapping_round_trip(s: Seq<char>)
    requires
        valid_resource_identifier(s),
    ensures
        decode_string_result(encode_one(str_bytes(s))) == DecodedResult::Found(str_bytes(s)),
        chars_of(str_bytes(s)) == s,
{
    lemma_resource_identifier_ascii(s);
    vstd::utf8::is_ascii_chars_encode_utf8(s);
    lemma_encode_decode_round_trip(str_bytes(s));
    assert forall|i: int| 0 <= i < s.len() implies chars_of(str_bytes(s))[i] == s[i] by {
        assert(str_bytes(s)[i] == s[i] as u8);
        vstd::utf8::char_is_scalar(s[i]);
        vstd::utf8::char_u32_cast(s[i], s[i] as u32);
        assert((s[i] as u8) as char == s[i]);
    }
    assert(chars_of(str_bytes(s)) =~= s);
}

/// Law: the same symmetry for the DID mapping read path.
pub proof fn lemma_did_mapping_round_trip(s: Seq<char>)
    requires
        valid_did(s),
    ensures
        decode_string_result(encode_one(str_bytes(s))) == DecodedResult::Found(str_bytes(s)),
        chars_of(str_bytes(s)) == s,
{
    lemma_did_ascii(s);
    vstd::utf8::is_ascii_chars_encode_utf8(s);
    lemma_encode_decode_round_trip(str_bytes(s));
    assert forall|i: int| 0 <= i < s.len() implies chars_of(str_bytes(s))[i] == s[i] by {
        assert(str_bytes(s)[i] == s[i] as u8);
        vstd::utf8::char_is_scalar(s[i]);
        vstd::utf8::char_u32_cast(s[i], s[i] as u32);
        assert((s[i] as u8) as char == s[i]);
    }
    assert(chars_of(str_bytes(s)) =~= s);
}

/// Encodes the registry's successful read response carrying a mapped DID,
/// the exact byte shape [`parse_did_mapping_result`] decodes.
pub fn encode_did_mapping_result(did: &str) -> (r: Result<Vec<u8>, VdrError>)
    ensures
        match r {
            Ok(v) => valid_did(did@) && v@ == encode_one(str_bytes(did@)),
            Err(e) => !valid_did(did@) && e == VdrError::InvalidIdentifierFormat,
        },
{
    if !check_did(did) {
        return Err(VdrError::InvalidIdentifierFormat);
    }
    let mut out: Vec<u8> = Vec::new();
    push_word(&mut out, 32);
    push_dyn_tail(&mut out, did.as_bytes());
    proof {
        assert(out@ =~= encode_one(str_bytes(did@)));
    }
    Ok(out)
}

/// Encodes the registry's successful read response carrying a mapped
/// resource identifier, the exact byte shape
/// [`parse_resource_mapping_result`] decodes.
pub fn encode_resource_mapping_result(identifier: &str) -> (r: Result<Vec<u8>, VdrError>)
    ensures
        match r {
            Ok(v) => valid_resource_identifier(identifier@) && v@ == encode_one(
                str_bytes(identifier@),
            ),
            Err(e) => !valid_resource_identifier(identifier@) && e
                == VdrError::InvalidIdentifierFormat,
        },
{
    if !check_resource_identifier(identifier) {
        return Err(VdrError::InvalidIdentifierFormat);
    }
    let mut out: Vec<u8> = Vec::new();
    push_word(&mut out, 32);
    push_dyn_tail(&mut out, identifier.as_bytes());
    proof {
        assert(out@ =~= encode_one(str_bytes(identifier@)));
    }
    Ok(out)
}

} // verus!
