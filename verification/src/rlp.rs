//! The few RLP primitives that the wire types use, taken from `alloy_rlp`.

use vstd::prelude::*;
use vstd::utf8::{encode_utf8, valid_utf8};

verus! {

/// The error type of `alloy_rlp`.
#[verifier::external_type_specification]
#[verifier::external_body]
pub struct ExRlpError(alloy_rlp::Error);

/// Big-endian bytes of `x` without leading zero bytes (empty for zero).
pub open spec fn be_bytes(x: nat) -> Seq<u8>
    decreases x,
{
    if x == 0 {
        Seq::empty()
    } else {
        be_bytes(x / 256).push((x % 256) as u8)
    }
}

/// The RLP encoding of an unsigned integer: `0x80` for zero, the byte itself below `0x80`,
/// otherwise `0x80 + n` followed by the `n` big-endian bytes of the value.
pub open spec fn rlp_uint(x: nat) -> Seq<u8> {
    if x == 0 {
        seq![0x80u8]
    } else if x < 0x80 {
        seq![x as u8]
    } else {
        seq![(0x80 + be_bytes(x).len()) as u8] + be_bytes(x)
    }
}

/// What `u8::decode` of `alloy_rlp` reads at the front of `buf`: the value and how many bytes
/// are left after it, or `None` where it returns an error.
pub open spec fn rlp_u8_prefix(buf: Seq<u8>) -> Option<(u8, nat)> {
    if buf.len() == 0 {
        None
    } else if 1 <= buf[0] < 0x80 {
        Some((buf[0], (buf.len() - 1) as nat))
    } else if buf[0] == 0x80 {
        Some((0u8, (buf.len() - 1) as nat))
    } else if buf[0] == 0x81 && buf.len() >= 2 && buf[1] >= 0x80 {
        Some((buf[1], (buf.len() - 2) as nat))
    } else {
        None
    }
}

/// `alloy_rlp::encode` on a `u64`: the result is the RLP encoding of the number.
#[verifier::external_body]
pub(crate) fn rlp_encode_uint(x: u64) -> (r: Vec<u8>)
    ensures
        r@ == rlp_uint(x as nat),
{
    alloy_rlp::encode(x)
}

/// `<u8 as alloy_rlp::Decodable>::decode`: on success the value and the length of what is left
/// of `buf`; it succeeds exactly where `rlp_u8_prefix` holds a value. Which error it returns
/// otherwise is not stated.
#[verifier::external_body]
pub(crate) fn rlp_decode_u8(buf: &[u8]) -> (r: Result<(u8, usize), alloy_rlp::Error>)
    ensures
        match rlp_u8_prefix(buf@) {
            Some((v, rest)) => r matches Ok((w, n)) && w == v && n == rest,
            None => r is Err,
        },
{
    let mut rest = buf;
    let v = <u8 as alloy_rlp::Decodable>::decode(&mut rest)?;
    Ok((v, rest.len()))
}

/// `alloy_rlp::Error::UnexpectedString`: a string came where a list was expected.
#[verifier::external_body]
pub(crate) fn rlp_unexpected_string_error() -> alloy_rlp::Error {
    alloy_rlp::Error::UnexpectedString
}

/// `alloy_rlp::Error::ListLengthMismatch`: the items of a list took `got` bytes where its
/// header announced `expected`.
#[verifier::external_body]
pub(crate) fn rlp_list_length_mismatch_error(expected: usize, got: usize) -> alloy_rlp::Error {
    alloy_rlp::Error::ListLengthMismatch { expected, got }
}

/// The `alloy_rlp` error `Error::Custom` that carries the given message.
pub uninterp spec fn custom_rlp_error(msg: Seq<char>) -> alloy_rlp::Error;

/// `alloy_rlp::Error::Custom` with the given message: the same message always gives the same
/// error.
#[verifier::external_body]
pub(crate) fn rlp_custom_error(msg: &'static str) -> (r: alloy_rlp::Error)
    ensures
        r == custom_rlp_error(msg@),
{
    alloy_rlp::Error::Custom(msg)
}

/// The number that big-endian bytes stand for.
pub open spec fn be_value(s: Seq<u8>) -> nat
    decreases s.len(),
{
    if s.len() == 0 {
        0
    } else {
        be_value(s.drop_last()) * 256 + s.last() as nat
    }
}

/// What the integer decoders of `alloy_rlp` read at the front of `buf` for a 64-bit integer:
/// the value and how many bytes it reads, or `None` where they return an error. A single byte below `0x80` other than zero
/// stands for itself, `0x80` for zero, `0x80 + n` (with `n` from 1 to 8) for the `n`
/// following big-endian bytes without a leading zero (one byte must be at least `0x80`).
pub open spec fn rlp_u64_prefix(buf: Seq<u8>) -> Option<(u64, nat)> {
    if buf.len() == 0 {
        None
    } else if 1 <= buf[0] < 0x80 {
        Some((buf[0] as u64, 1))
    } else if buf[0] == 0x80 {
        Some((0u64, 1))
    } else if 0x81 <= buf[0] <= 0x88 {
        let n = (buf[0] - 0x80) as nat;
        if buf.len() >= 1 + n && buf[1] != 0 && !(n == 1 && buf[1] < 0x80) {
            Some((be_value(buf.subrange(1, 1 + n as int)) as u64, 1 + n))
        } else {
            None
        }
    } else {
        None
    }
}

/// The header of an RLP item with a payload of `len` bytes: one byte `0x80` (string) or
/// `0xC0` (list) plus the length below 56, otherwise `0xB7` or `0xF7` plus the number of length
/// bytes, followed by the big-endian length.
pub open spec fn rlp_header_bytes(list: bool, len: nat) -> Seq<u8> {
    if len < 56 {
        seq![((if list { 0xC0int } else { 0x80int }) + len) as u8]
    } else {
        seq![((if list { 0xF7int } else { 0xB7int }) + be_bytes(len).len()) as u8] + be_bytes(len)
    }
}

/// The RLP encoding of a byte string: a single byte below `0x80` stands for itself, anything
/// else gets a string header.
pub open spec fn rlp_string(bytes: Seq<u8>) -> Seq<u8> {
    if bytes.len() == 1 && bytes[0] < 0x80 {
        bytes
    } else {
        rlp_header_bytes(false, bytes.len()) + bytes
    }
}

/// What `Header::decode` of `alloy_rlp` reads at the front of `buf`: whether the item is a
/// list, the length of its payload and the length of the header, or `None` where it returns an
/// error. A byte below `0x80` is a one-byte string without header; `0x80` to `0xB7` starts a
/// short string (a one-byte string must then hold a byte of at least `0x80`); `0xC0` to `0xF7`
/// a short list; `0xB8` to `0xBF` and `0xF8` to `0xFF` a long string or list, whose big-endian
/// length has no leading zero, fits a `usize` and is at least 56. The payload must be in `buf`.
pub open spec fn rlp_header_prefix(buf: Seq<u8>) -> Option<(bool, nat, nat)> {
    if buf.len() == 0 {
        None
    } else {
        let b = buf[0];
        let parsed: Option<(bool, nat, nat)> = if b < 0x80 {
            Some((false, 1nat, 0nat))
        } else if b <= 0xB7 {
            let l = (b - 0x80) as nat;
            if l == 1 && (buf.len() < 2 || buf[1] < 0x80) {
                None
            } else {
                Some((false, l, 1nat))
            }
        } else if b <= 0xBF || b >= 0xF8 {
            let list = b >= 0xF8;
            let n = (if list { b - 0xF7 } else { b - 0xB7 }) as nat;
            if buf.len() < 1 + n || buf[1] == 0 {
                None
            } else {
                let len = be_value(buf.subrange(1, 1 + n as int));
                if len > usize::MAX || len < 56 {
                    None
                } else {
                    Some((list, len, 1 + n))
                }
            }
        } else {
            Some((true, (b - 0xC0) as nat, 1nat))
        };
        match parsed {
            Some((list, len, header)) => if header + len <= buf.len() {
                parsed
            } else {
                None
            },
            None => None,
        }
    }
}

/// What decoding a byte string reads at the front of `buf`: its payload and how many bytes the
/// whole item takes, or `None` where the header does not decode or heads a list.
pub open spec fn rlp_string_prefix(buf: Seq<u8>) -> Option<(Seq<u8>, nat)> {
    match rlp_header_prefix(buf) {
        Some((list, len, header)) => if list {
            None
        } else {
            Some((buf.subrange(header as int, (header + len) as int), header + len))
        },
        None => None,
    }
}

/// `Header::encode` of `alloy_rlp`: the header of an item with the given payload length.
#[verifier::external_body]
pub(crate) fn rlp_encode_header(list: bool, payload_length: usize) -> (r: Vec<u8>)
    ensures
        r@ == rlp_header_bytes(list, payload_length as nat),
{
    let mut out: Vec<u8> = Vec::new();
    alloy_rlp::Header { list, payload_length }.encode(&mut out);
    out
}

/// `alloy_rlp::encode` on a string slice: the RLP string of its UTF-8 bytes.
#[verifier::external_body]
pub(crate) fn rlp_encode_str(s: &str) -> (r: Vec<u8>)
    ensures
        r@ == rlp_string(encode_utf8(s@)),
{
    alloy_rlp::encode(s)
}

/// `Header::decode` of `alloy_rlp`: whether the item is a list, the length of its payload and
/// the length of what is left of `buf` after the header; it succeeds exactly where
/// `rlp_header_prefix` holds a header. Which error it returns otherwise is not stated.
#[verifier::external_body]
pub(crate) fn rlp_decode_header(buf: &[u8]) -> (r: Result<(bool, usize, usize), alloy_rlp::Error>)
    ensures
        match rlp_header_prefix(buf@) {
            Some((list, len, header)) => r matches Ok((l, p, n)) && l == list && p == len && n
                + header == buf@.len(),
            None => r is Err,
        },
{
    let mut rest = buf;
    let header = alloy_rlp::Header::decode(&mut rest)?;
    Ok((header.list, header.payload_length, rest.len()))
}

/// `<String as alloy_rlp::Decodable>::decode`: a byte string whose payload is valid UTF-8,
/// as a string whose UTF-8 bytes are that payload, and the length of what is left of `buf`;
/// it succeeds exactly where `rlp_string_prefix` holds a payload that is valid UTF-8. Which
/// error it returns otherwise is not stated.
#[verifier::external_body]
pub(crate) fn rlp_decode_string(buf: &[u8]) -> (r: Result<(String, usize), alloy_rlp::Error>)
    ensures
        match rlp_string_prefix(buf@) {
            Some((bytes, read)) => if valid_utf8(bytes) {
                r matches Ok((s, n)) && encode_utf8(s@) == bytes && n + read == buf@.len()
            } else {
                r is Err
            },
            None => r is Err,
        },
{
    let mut rest = buf;
    let s = <String as alloy_rlp::Decodable>::decode(&mut rest)?;
    Ok((s, rest.len()))
}

/// `<usize as alloy_rlp::Decodable>::decode`: read as `u64::decode` reads, and an error where
/// the value does not fit a `usize`; on success the value and the length of what is left of
/// `buf`. Which error it returns otherwise is not stated.
#[verifier::external_body]
pub(crate) fn rlp_decode_usize(buf: &[u8]) -> (r: Result<(usize, usize), alloy_rlp::Error>)
    ensures
        match rlp_u64_prefix(buf@) {
            Some((v, read)) => if v <= usize::MAX {
                r matches Ok((w, n)) && w == v && n + read == buf@.len()
            } else {
                r is Err
            },
            None => r is Err,
        },
{
    let mut rest = buf;
    let v = <usize as alloy_rlp::Decodable>::decode(&mut rest)?;
    Ok((v, rest.len()))
}

/// `256` to the power `k`.
pub open spec fn pow256(k: nat) -> nat
    decreases k,
{
    if k == 0 {
        1
    } else {
        256 * pow256((k - 1) as nat)
    }
}

proof fn lemma_be_value_of_bytes(x: nat)
    ensures
        be_value(be_bytes(x)) == x,
    decreases x,
{
    if x > 0 {
        lemma_be_value_of_bytes(x / 256);
        assert(be_bytes(x).drop_last() =~= be_bytes(x / 256));
        assert(x == (x / 256) * 256 + x % 256) by (nonlinear_arith);
    }
}

proof fn lemma_be_bytes_shape(x: nat, k: nat)
    requires
        x < pow256(k),
    ensures
        be_bytes(x).len() <= k,
        x > 0 ==> be_bytes(x).len() >= 1 && be_bytes(x)[0] != 0,
        be_bytes(x).len() == 1 ==> x < 256 && be_bytes(x) == seq![x as u8],
    decreases x,
{
    if x > 0 {
        assert(k > 0) by {
            if k == 0 {
                assert(pow256(0) == 1);
            }
        }
        let p = pow256((k - 1) as nat);
        assert(x / 256 < p) by (nonlinear_arith)
            requires
                x < 256 * p,
        ;
        lemma_be_bytes_shape(x / 256, (k - 1) as nat);
        if x / 256 == 0 {
            assert(x < 256) by (nonlinear_arith)
                requires
                    x / 256 == 0,
            ;
            assert(be_bytes(x / 256) =~= Seq::<u8>::empty());
            assert(be_bytes(x) =~= seq![x as u8]);
        } else {
            assert(be_bytes(x)[0] == be_bytes(x / 256)[0]);
        }
    }
}

/// An encoded number takes one byte below `0x80` and at most nine bytes in all.
pub proof fn lemma_rlp_uint_len(x: u64)
    ensures
        1 <= rlp_uint(x as nat).len() <= 9,
{
    if x >= 0x80 {
        assert(pow256(8) == 0x1_0000_0000_0000_0000) by {
            reveal_with_fuel(pow256, 9);
        }
        lemma_be_bytes_shape(x as nat, 8);
    }
}

/// Reading back an encoded number gives the number and reads exactly its encoding, whatever
/// follows it.
pub proof fn lemma_rlp_u64_roundtrip(x: u64, rest: Seq<u8>)
    ensures
        rlp_u64_prefix(rlp_uint(x as nat) + rest) == Some((x, rlp_uint(x as nat).len())),
{
    let e = rlp_uint(x as nat);
    let buf = e + rest;
    if x == 0 {
        assert(buf[0] == 0x80);
    } else if x < 0x80 {
        assert(buf[0] == x as u8);
    } else {
        assert(pow256(8) == 0x1_0000_0000_0000_0000) by {
            reveal_with_fuel(pow256, 9);
        }
        lemma_be_bytes_shape(x as nat, 8);
        lemma_be_value_of_bytes(x as nat);
        let b = be_bytes(x as nat);
        let n = b.len();
        assert(buf[0] == (0x80 + n) as u8);
        assert(buf.subrange(1, 1 + n as int) =~= b);
        assert(buf[1] == b[0]);
        if n == 1 {
            assert(b[0] == x as u8);
        }
    }
}

/// A header takes one byte for a payload below 56 bytes and at most nine bytes in all.
pub proof fn lemma_rlp_header_len(list: bool, len: nat)
    requires
        len <= usize::MAX,
    ensures
        1 <= rlp_header_bytes(list, len).len() <= 9,
        len < 56 ==> rlp_header_bytes(list, len).len() == 1,
{
    if len >= 56 {
        assert(pow256(8) == 0x1_0000_0000_0000_0000) by {
            reveal_with_fuel(pow256, 9);
        }
        lemma_be_bytes_shape(len, 8);
    }
}

/// An encoded byte string takes at most nine bytes more than the string.
pub proof fn lemma_rlp_string_len(bytes: Seq<u8>)
    requires
        bytes.len() <= usize::MAX,
    ensures
        bytes.len() <= rlp_string(bytes).len() <= bytes.len() + 9,
{
    lemma_rlp_header_len(false, bytes.len());
}

/// Reading back an encoded header gives the header and reads exactly its bytes, whatever
/// payload follows (a one-byte string payload must then hold a byte of at least `0x80`, as an
/// encoded string does).
pub proof fn lemma_rlp_header_roundtrip(list: bool, len: nat, rest: Seq<u8>)
    requires
        len <= usize::MAX,
        len <= rest.len(),
        !list && len == 1 ==> rest[0] >= 0x80,
    ensures
        rlp_header_prefix(rlp_header_bytes(list, len) + rest) == Some(
            (list, len, rlp_header_bytes(list, len).len()),
        ),
{
    let h = rlp_header_bytes(list, len);
    let buf = h + rest;
    if len < 56 {
        assert(buf[0] == h[0]);
        if !list && len == 1 {
            assert(buf[1] == rest[0]);
        }
    } else {
        assert(pow256(8) == 0x1_0000_0000_0000_0000) by {
            reveal_with_fuel(pow256, 9);
        }
        lemma_be_bytes_shape(len, 8);
        lemma_be_value_of_bytes(len);
        let b = be_bytes(len);
        let n = b.len();
        assert(buf[0] == h[0]);
        assert(buf.subrange(1, 1 + n as int) =~= b);
        assert(buf[1] == b[0]);
    }
}

/// Reading back an encoded byte string gives the string and reads exactly its encoding,
/// whatever follows it.
pub proof fn lemma_rlp_string_roundtrip(bytes: Seq<u8>, rest: Seq<u8>)
    requires
        bytes.len() <= usize::MAX,
    ensures
        rlp_string_prefix(rlp_string(bytes) + rest) == Some((bytes, rlp_string(bytes).len())),
{
    if bytes.len() == 1 && bytes[0] < 0x80 {
        let buf = bytes + rest;
        assert(buf[0] == bytes[0]);
        assert(buf.subrange(0, 1) =~= bytes);
    } else {
        let h = rlp_header_bytes(false, bytes.len());
        lemma_rlp_header_roundtrip(false, bytes.len(), bytes + rest);
        assert(h + (bytes + rest) =~= rlp_string(bytes) + rest);
        assert((h + (bytes + rest)).subrange(h.len() as int, (h.len() + bytes.len()) as int)
            =~= bytes);
    }
}

} // verus!
