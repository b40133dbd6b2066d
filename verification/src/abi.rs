//! Contract call-data encoding: 32-byte words, padded dynamic arguments, and
//! four-byte selectors, exactly as the registry contract's ABI defines them.
//! Every write and read builder derives its call data through this module, so
//! the byte layout is stated once and proved once.

use vstd::prelude::*;
use crate::hash::{keccak256, keccak256_of};

verus! {

/// A 32-byte big-endian word holding a 64-bit value: 24 zero bytes followed
/// by the value's bytes, most significant first.
pub open spec fn word32(v: u64) -> Seq<u8> {
    seq![
        0u8, 0u8, 0u8, 0u8, 0u8, 0u8, 0u8, 0u8,
        0u8, 0u8, 0u8, 0u8, 0u8, 0u8, 0u8, 0u8,
        0u8, 0u8, 0u8, 0u8, 0u8, 0u8, 0u8, 0u8,
        (v >> 56) as u8, (v >> 48) as u8, (v >> 40) as u8, (v >> 32) as u8,
        (v >> 24) as u8, (v >> 16) as u8, (v >> 8) as u8, v as u8,
    ]
}

/// How many zero bytes pad `n` data bytes up to a whole number of words.
pub open spec fn pad_amount(n: nat) -> nat {
    if n % 32 == 0 {
        0nat
    } else {
        (32 - n % 32) as nat
    }
}

/// `n` rounded up to a whole number of words.
pub open spec fn padded_len(n: nat) -> nat {
    n + pad_amount(n)
}

/// `n` zero bytes.
pub open spec fn zero_bytes(n: nat) -> Seq<u8> {
    Seq::new(n, |i: int| 0u8)
}

/// The tail encoding of one dynamic argument: its length word, its bytes,
/// and zero padding up to a word boundary.
pub open spec fn dyn_tail(data: Seq<u8>) -> Seq<u8> {
    word32(data.len() as u64) + data + zero_bytes(pad_amount(data.len()))
}

/// How many bytes [`dyn_tail`] takes for `data`.
pub open spec fn tail_size(data: Seq<u8>) -> nat {
    32 + padded_len(data.len())
}

/// The argument block of a call with one dynamic argument: its offset word
/// followed by its tail.
pub open spec fn encode_one(a: Seq<u8>) -> Seq<u8> {
    word32(32) + dyn_tail(a)
}

/// The argument block of a call with four dynamic arguments: four offset
/// words followed by the four tails, in argument order.
pub open spec fn encode_four(a: Seq<u8>, b: Seq<u8>, c: Seq<u8>, d: Seq<u8>) -> Seq<u8> {
    word32(128) + word32((128 + tail_size(a)) as u64) + word32(
        (128 + tail_size(a) + tail_size(b)) as u64,
    ) + word32((128 + tail_size(a) + tail_size(b) + tail_size(c)) as u64) + dyn_tail(a) + dyn_tail(
        b,
    ) + dyn_tail(c) + dyn_tail(d)
}

/// The UTF-8 bytes of a character sequence (for the ASCII identifiers of
/// this protocol, one byte per character).
pub open spec fn str_bytes(s: Seq<char>) -> Seq<u8> {
    vstd::utf8::encode_utf8(s)
}

/// The four-byte selector of a contract function signature: the first four
/// bytes of the Keccak-256 digest of the signature's ASCII bytes.
pub open spec fn selector_of(sig: Seq<char>) -> Seq<u8> {
    keccak256_of(str_bytes(sig)).take(4)
}

/// Appends `src` to `dst`.
pub(crate) fn push_bytes(dst: &mut Vec<u8>, src: &[u8])
    ensures
        final(dst)@ == old(dst)@ + src@,
{
    let n = src.len();
    let mut i: usize = 0;
    while i < n
        invariant
            0 <= i <= n,
            n == src@.len(),
            dst@ == old(dst)@ + src@.take(i as int),
        decreases n - i,
    {
        dst.push(src[i]);
        proof {
            assert(dst@ =~= old(dst)@ + src@.take(i + 1));
        }
        i = i + 1;
    }
    proof {
        assert(dst@ =~= old(dst)@ + src@);
    }
}

/// Appends `n` zero bytes to `dst`.
pub(crate) fn push_zero_bytes(dst: &mut Vec<u8>, n: usize)
    ensures
        final(dst)@ == old(dst)@ + zero_bytes(n as nat),
{
    let mut i: usize = 0;
    while i < n
        invariant
            0 <= i <= n,
            dst@ == old(dst)@ + zero_bytes(i as nat),
        decreases n - i,
    {
        dst.push(0u8);
        proof {
            assert(dst@ =~= old(dst)@ + zero_bytes((i + 1) as nat));
        }
        i = i + 1;
    }
}

/// Appends the 32-byte big-endian word of `v` to `dst`.
pub(crate) fn push_word(dst: &mut Vec<u8>, v: u64)
    ensures
        final(dst)@ == old(dst)@ + word32(v),
{
    push_zero_bytes(dst, 24);
    dst.push((v >> 56) as u8);
    dst.push((v >> 48) as u8);
    dst.push((v >> 40) as u8);
    dst.push((v >> 32) as u8);
    dst.push((v >> 24) as u8);
    dst.push((v >> 16) as u8);
    dst.push((v >> 8) as u8);
    dst.push(v as u8);
    proof {
        assert(dst@ =~= old(dst)@ + word32(v));
    }
}

/// The padded size of `n` data bytes.
pub(crate) fn padded_size(n: usize) -> (r: usize)
    requires
        n + 32 <= usize::MAX,
    ensures
        r == padded_len(n as nat),
{
    let rem = n % 32;
    if rem == 0 {
        n
    } else {
        n + (32 - rem)
    }
}

/// Appends the tail encoding of one dynamic argument to `dst`.
pub(crate) fn push_dyn_tail(dst: &mut Vec<u8>, data: &[u8])
    ensures
        final(dst)@ == old(dst)@ + dyn_tail(data@),
{
    push_word(dst, data.len() as u64);
    push_bytes(dst, data);
    let rem = data.len() % 32;
    let pad = if rem == 0 {
        0usize
    } else {
        32 - rem
    };
    push_zero_bytes(dst, pad);
    proof {
        assert(dst@ =~= old(dst)@ + dyn_tail(data@));
    }
}

/// Builds complete call data for a contract function of one dynamic
/// argument: the signature's selector followed by the argument block.
pub(crate) fn encode_call_one(sig: &str, a: &[u8]) -> (r: Vec<u8>)
    ensures
        r@ == selector_of(sig@) + encode_one(a@),
{
    let mut out = keccak256(sig.as_bytes());
    out.truncate(4);
    proof {
        assert(out@ =~= selector_of(sig@));
    }
    push_word(&mut out, 32);
    push_dyn_tail(&mut out, a);
    proof {
        assert(out@ =~= selector_of(sig@) + encode_one(a@));
    }
    out
}

/// Builds complete call data for a contract function of four dynamic
/// arguments: the signature's selector followed by the argument block.
pub(crate) fn encode_call_four(sig: &str, a: &[u8], b: &[u8], c: &[u8], d: &[u8]) -> (r: Vec<u8>)
    requires
        a@.len() <= 4096,
        b@.len() <= 4096,
        c@.len() <= 4096,
        d@.len() <= 4096,
    ensures
        r@ == selector_of(sig@) + encode_four(a@, b@, c@, d@),
{
    let mut out = keccak256(sig.as_bytes());
    out.truncate(4);
    proof {
        assert(out@ =~= selector_of(sig@));
    }
    let size_a = 32 + padded_size(a.len());
    let size_b = 32 + padded_size(b.len());
    let size_c = 32 + padded_size(c.len());
    push_word(&mut out, 128);
    push_word(&mut out, (128 + size_a) as u64);
    push_word(&mut out, (128 + size_a + size_b) as u64);
    push_word(&mut out, (128 + size_a + size_b + size_c) as u64);
    push_dyn_tail(&mut out, a);
    push_dyn_tail(&mut out, b);
    push_dyn_tail(&mut out, c);
    push_dyn_tail(&mut out, d);
    proof {
        assert(out@ =~= selector_of(sig@) + encode_four(a@, b@, c@, d@));
    }
    out
}

} // verus!
