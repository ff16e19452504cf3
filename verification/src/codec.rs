//! Wire codec: a length-prefixed frame around a self-describing binary (CBOR)
//! encoding of one protocol message.
//!
//! A frame is `[8-byte big-endian unsigned length n][n bytes of payload]`.
//! The payload encodes one message value as CBOR: a unit variant is a text
//! string holding the variant name; a variant with fields is a one-entry map
//! from the variant name to its content; an endpoint identity is an array of
//! five unsigned integers. Every integer argument (lengths included) is
//! written in the 64-bit form, which CBOR decoders accept.
//!
//! The encoders below are total; the decoders state exactly which byte
//! sequences they accept, and `lemma_client_round_trip` /
//! `lemma_server_round_trip` prove that decoding inverts encoding for every
//! supported message value.

use crate::messages::{Address, C2s, ClientToServerMessage, S2c, ServerToClientMessage};
use vstd::prelude::*;
use vstd::utf8::{decode_utf8, encode_utf8, encode_utf8_decode_utf8, encode_utf8_valid_utf8,
    valid_utf8};

verus! {

/// Terminal failure while decoding one frame.
#[derive(Clone, Copy, PartialEq, Eq, Structural, Debug)]
pub enum ProtocolError {
    /// The stream ended (or the buffer ran out) before a full frame was
    /// available: fewer than 8 length bytes, or fewer payload bytes than the
    /// length prefix declares.
    Transport,
    /// The payload bytes do not form a well-formed message of the expected
    /// variant set. The connection is unusable past this point.
    Framing,
}

/// The 8-byte big-endian encoding of a 64-bit unsigned integer.
pub open spec fn be64(n: u64) -> Seq<u8> {
    seq![
        ((n >> 56) & 0xff) as u8,
        ((n >> 48) & 0xff) as u8,
        ((n >> 40) & 0xff) as u8,
        ((n >> 32) & 0xff) as u8,
        ((n >> 24) & 0xff) as u8,
        ((n >> 16) & 0xff) as u8,
        ((n >> 8) & 0xff) as u8,
        (n & 0xff) as u8,
    ]
}

/// The value read back from 8 big-endian bytes.
pub open spec fn be_val(b: Seq<u8>) -> u64
    recommends
        b.len() == 8,
{
    ((b[0] as u64) << 56) | ((b[1] as u64) << 48) | ((b[2] as u64) << 40) | ((b[3] as u64) << 32)
        | ((b[4] as u64) << 24) | ((b[5] as u64) << 16) | ((b[6] as u64) << 8) | (b[7] as u64)
}

/// Reading back the big-endian bytes of `n` yields `n`.
pub proof fn lemma_be_round_trip(n: u64)
    ensures
        be_val(be64(n)) == n,
{
    let b = be64(n);
    assert(b[0] == ((n >> 56) & 0xff) as u8);
    assert(b[1] == ((n >> 48) & 0xff) as u8);
    assert(b[2] == ((n >> 40) & 0xff) as u8);
    assert(b[3] == ((n >> 32) & 0xff) as u8);
    assert(b[4] == ((n >> 24) & 0xff) as u8);
    assert(b[5] == ((n >> 16) & 0xff) as u8);
    assert(b[6] == ((n >> 8) & 0xff) as u8);
    assert(b[7] == (n & 0xff) as u8);
    assert(((((n >> 56) & 0xff) as u8 as u64) << 56) | ((((n >> 48) & 0xff) as u8 as u64) << 48)
        | ((((n >> 40) & 0xff) as u8 as u64) << 40) | ((((n >> 32) & 0xff) as u8 as u64) << 32) | ((((
    n >> 24) & 0xff) as u8 as u64) << 24) | ((((n >> 16) & 0xff) as u8 as u64) << 16) | ((((n >> 8)
        & 0xff) as u8 as u64) << 8) | ((n & 0xff) as u8 as u64) == n) by (bit_vector);
}

/// CBOR text string: major type 3 with a 64-bit length argument, then the
/// UTF-8 bytes themselves.
pub open spec fn cbor_text(b: Seq<u8>) -> Seq<u8>
    recommends
        b.len() <= u64::MAX,
{
    seq![0x7bu8] + be64(b.len() as u64) + b
}

/// CBOR unsigned integer: major type 0 with a 64-bit argument.
pub open spec fn cbor_uint(n: u64) -> Seq<u8> {
    seq![0x1bu8] + be64(n)
}

pub open spec fn name_leave() -> Seq<u8> {
    seq![0x4cu8, 0x65u8, 0x61u8, 0x76u8, 0x65u8]
}

pub open spec fn name_ping() -> Seq<u8> {
    seq![0x50u8, 0x69u8, 0x6eu8, 0x67u8]
}

pub open spec fn name_send() -> Seq<u8> {
    seq![0x53u8, 0x65u8, 0x6eu8, 0x64u8]
}

pub open spec fn name_joined() -> Seq<u8> {
    seq![0x4au8, 0x6fu8, 0x69u8, 0x6eu8, 0x65u8, 0x64u8]
}

pub open spec fn name_left() -> Seq<u8> {
    seq![0x4cu8, 0x65u8, 0x66u8, 0x74u8]
}

pub open spec fn name_sent() -> Seq<u8> {
    seq![0x53u8, 0x65u8, 0x6eu8, 0x74u8]
}

/// An endpoint identity on the wire: a CBOR array of five unsigned integers,
/// the four address octets and the port.
pub open spec fn enc_addr(ad: Address) -> Seq<u8> {
    seq![0x85u8] + cbor_uint(ad.a as u64) + cbor_uint(ad.b as u64) + cbor_uint(ad.c as u64)
        + cbor_uint(ad.d as u64) + cbor_uint(ad.port as u64)
}

/// The payload encoding of a client-to-server message value.
pub open spec fn enc_c2s(m: C2s) -> Seq<u8> {
    match m {
        C2s::Leave => cbor_text(name_leave()),
        C2s::Ping => cbor_text(name_ping()),
        C2s::Send(s) => seq![0xa1u8] + cbor_text(name_send()) + cbor_text(encode_utf8(s)),
    }
}

/// The payload encoding of a server-to-client message value.
pub open spec fn enc_s2c(m: S2c) -> Seq<u8> {
    match m {
        S2c::Ping => cbor_text(name_ping()),
        S2c::Joined(ad) => seq![0xa1u8] + cbor_text(name_joined()) + enc_addr(ad),
        S2c::Left(ad) => seq![0xa1u8] + cbor_text(name_left()) + enc_addr(ad),
        S2c::Sent(s, ad) => seq![0xa1u8] + cbor_text(name_sent()) + seq![0x82u8] + cbor_text(
            encode_utf8(s),
        ) + enc_addr(ad),
    }
}

/// A message value small enough for the wire: its payload fits the 64-bit
/// length field. Every message built from an in-memory string satisfies this.
pub open spec fn c2s_wf(m: C2s) -> bool {
    enc_c2s(m).len() <= u64::MAX
}

pub open spec fn s2c_wf(m: S2c) -> bool {
    enc_s2c(m).len() <= u64::MAX
}

/// A whole frame: the payload length as 8 big-endian bytes, then the payload.
pub open spec fn frame(p: Seq<u8>) -> Seq<u8>
    recommends
        p.len() <= u64::MAX,
{
    be64(p.len() as u64) + p
}

/// Splits a buffer that starts with a complete frame into the payload and the
/// number of bytes consumed; `None` when the buffer is too short for the
/// length prefix or for the payload the prefix declares.
pub open spec fn split_frame(b: Seq<u8>) -> Option<(Seq<u8>, int)> {
    if b.len() >= 8 && be_val(b.subrange(0, 8)) <= b.len() - 8 {
        let n = be_val(b.subrange(0, 8)) as int;
        Some((b.subrange(8, 8 + n), 8 + n))
    } else {
        None
    }
}

/// Parses one whole CBOR text string: 64-bit length header, then exactly that
/// many content bytes. Returns the content bytes.
pub open spec fn parse_text(b: Seq<u8>) -> Option<Seq<u8>> {
    if b.len() >= 9 && b.len() - 9 <= u64::MAX && b[0] == 0x7b && be_val(b.subrange(1, 9)) == (
    b.len() - 9) as u64 {
        Some(b.skip(9))
    } else {
        None
    }
}

/// Parses one encoded endpoint identity, checking that each component is in
/// range for its field.
pub open spec fn parse_addr(b: Seq<u8>) -> Option<Address> {
    if b.len() == 46 && b[0] == 0x85 && b[1] == 0x1b && be_val(b.subrange(2, 10)) <= 0xff && b[10]
        == 0x1b && be_val(b.subrange(11, 19)) <= 0xff && b[19] == 0x1b && be_val(
        b.subrange(20, 28),
    ) <= 0xff && b[28] == 0x1b && be_val(b.subrange(29, 37)) <= 0xff && b[37] == 0x1b && be_val(
        b.subrange(38, 46),
    ) <= 0xffff {
        Some(
            Address {
                a: be_val(b.subrange(2, 10)) as u8,
                b: be_val(b.subrange(11, 19)) as u8,
                c: be_val(b.subrange(20, 28)) as u8,
                d: be_val(b.subrange(29, 37)) as u8,
                port: be_val(b.subrange(38, 46)) as u16,
            },
        )
    } else {
        None
    }
}

/// The map key (and one-entry map header) that opens an encoded `Send`.
pub open spec fn send_key() -> Seq<u8> {
    seq![0xa1u8] + cbor_text(name_send())
}

/// The map key that opens an encoded `Joined`.
pub open spec fn joined_key() -> Seq<u8> {
    seq![0xa1u8] + cbor_text(name_joined())
}

/// The map key that opens an encoded `Left`.
pub open spec fn left_key() -> Seq<u8> {
    seq![0xa1u8] + cbor_text(name_left())
}

/// The map key and two-element array header that open an encoded `Sent`.
pub open spec fn sent_key() -> Seq<u8> {
    seq![0xa1u8] + cbor_text(name_sent()) + seq![0x82u8]
}

/// The set of payloads accepted as a client-to-server message, and the value
/// each one denotes. Exactly the encodings of well-formed values are accepted.
pub open spec fn parse_c2s(b: Seq<u8>) -> Option<C2s> {
    if b == enc_c2s(C2s::Leave) {
        Some(C2s::Leave)
    } else if b == enc_c2s(C2s::Ping) {
        Some(C2s::Ping)
    } else if b.len() >= 14 && b.subrange(0, 14) == send_key() {
        match parse_text(b.skip(14)) {
            Some(content) => if valid_utf8(content) {
                Some(C2s::Send(decode_utf8(content)))
            } else {
                None
            },
            None => None,
        }
    } else {
        None
    }
}

/// The set of payloads accepted as a server-to-client message, and the value
/// each one denotes.
pub open spec fn parse_s2c(b: Seq<u8>) -> Option<S2c> {
    if b == enc_s2c(S2c::Ping) {
        Some(S2c::Ping)
    } else if b.len() == 62 && b.subrange(0, 16) == joined_key() {
        match parse_addr(b.skip(16)) {
            Some(ad) => Some(S2c::Joined(ad)),
            None => None,
        }
    } else if b.len() == 60 && b.subrange(0, 14) == left_key() {
        match parse_addr(b.skip(14)) {
            Some(ad) => Some(S2c::Left(ad)),
            None => None,
        }
    } else if b.len() >= 70 && b.subrange(0, 15) == sent_key() {
        match (parse_text(b.subrange(15, b.len() - 46)), parse_addr(b.skip(b.len() - 46))) {
            (Some(content), Some(ad)) => if valid_utf8(content) {
                Some(S2c::Sent(decode_utf8(content), ad))
            } else {
                None
            },
            _ => None,
        }
    } else {
        None
    }
}

/// Appends the 8 big-endian bytes of `n`.
fn push_be64(v: &mut Vec<u8>, n: u64)
    ensures
        final(v)@ == old(v)@ + be64(n),
{
    v.push(#[verifier::truncate] (((n >> 56) & 0xff) as u8));
    v.push(#[verifier::truncate] (((n >> 48) & 0xff) as u8));
    v.push(#[verifier::truncate] (((n >> 40) & 0xff) as u8));
    v.push(#[verifier::truncate] (((n >> 32) & 0xff) as u8));
    v.push(#[verifier::truncate] (((n >> 24) & 0xff) as u8));
    v.push(#[verifier::truncate] (((n >> 16) & 0xff) as u8));
    v.push(#[verifier::truncate] (((n >> 8) & 0xff) as u8));
    v.push(#[verifier::truncate] ((n & 0xff) as u8));
    proof {
        assert(v@ =~= old(v)@ + be64(n));
    }
}

/// Reads a 64-bit big-endian value from 8 bytes starting at `pos`.
fn read_be64(v: &Vec<u8>, pos: usize) -> (n: u64)
    requires
        pos + 8 <= v@.len(),
    ensures
        n == be_val(v@.subrange(pos as int, pos as int + 8)),
{
    // Binding the executable length brings its usize bound into scope for the
    // index arithmetic below.
    let _len = v.len();
    let n = ((v[pos] as u64) << 56) | ((v[pos + 1] as u64) << 48) | ((v[pos + 2] as u64) << 40) | ((
    v[pos + 3] as u64) << 32) | ((v[pos + 4] as u64) << 24) | ((v[pos + 5] as u64) << 16) | ((v[pos
        + 6] as u64) << 8) | (v[pos + 7] as u64);
    proof {
        let s = v@.subrange(pos as int, pos as int + 8);
        assert(s[0] == v@[pos as int]);
        assert(s[1] == v@[pos as int + 1]);
        assert(s[2] == v@[pos as int + 2]);
        assert(s[3] == v@[pos as int + 3]);
        assert(s[4] == v@[pos as int + 4]);
        assert(s[5] == v@[pos as int + 5]);
        assert(s[6] == v@[pos as int + 6]);
        assert(s[7] == v@[pos as int + 7]);
    }
    n
}

/// Byte-for-byte equality of two buffers.
fn eq_bytes(x: &Vec<u8>, y: &Vec<u8>) -> (r: bool)
    ensures
        r == (x@ == y@),
{
    if x.len() != y.len() {
        return false;
    }
    let mut i: usize = 0;
    while i < x.len()
        invariant
            i <= x@.len(),
            x@.len() == y@.len(),
            forall|j: int| 0 <= j < i ==> x@[j] == y@[j],
        decreases x@.len() - i,
    {
        if x[i] != y[i] {
            return false;
        }
        i += 1;
    }
    proof {
        assert(x@ =~= y@);
    }
    true
}

/// Copies `v[from..to]` into a fresh buffer.
fn copy_range(v: &Vec<u8>, from: usize, to: usize) -> (r: Vec<u8>)
    requires
        from <= to,
        to <= v@.len(),
    ensures
        r@ == v@.subrange(from as int, to as int),
{
    let mut r: Vec<u8> = Vec::new();
    let mut i: usize = from;
    while i < to
        invariant
            from <= i <= to,
            to <= v@.len(),
            r@ == v@.subrange(from as int, i as int),
        decreases to - i,
    {
        r.push(v[i]);
        proof {
            assert(r@ =~= v@.subrange(from as int, i as int + 1));
        }
        i += 1;
    }
    r
}

/// Relies on std's `String::from_utf8`: it succeeds exactly on valid UTF-8
/// input, and the returned string's UTF-8 encoding is that input.
#[verifier::external_body]
fn string_from_utf8(bytes: Vec<u8>) -> (r: Option<String>)
    ensures
        r matches Some(s) ==> encode_utf8(s@) == bytes@,
        valid_utf8(bytes@) ==> r is Some,
{
    String::from_utf8(bytes).ok()
}

/// Appends the encoding of a text string whose UTF-8 bytes are `b`.
fn push_text(v: &mut Vec<u8>, b: &[u8])
    ensures
        final(v)@ == old(v)@ + cbor_text(b@),
{
    v.push(0x7b);
    push_be64(v, b.len() as u64);
    let mut i: usize = 0;
    while i < b.len()
        invariant
            i <= b@.len(),
            v@ == old(v)@ + seq![0x7bu8] + be64(b@.len() as u64) + b@.subrange(0, i as int),
        decreases b@.len() - i,
    {
        let ghost prev = v@;
        v.push(b[i]);
        proof {
            assert(v@ =~= old(v)@ + seq![0x7bu8] + be64(b@.len() as u64) + b@.subrange(
                0,
                i as int + 1,
            ));
        }
        i += 1;
    }
    proof {
        assert(b@.subrange(0, b@.len() as int) =~= b@);
        assert(v@ =~= old(v)@ + cbor_text(b@));
    }
}

/// Appends the encoding of one unsigned-integer component.
fn push_uint(v: &mut Vec<u8>, n: u64)
    ensures
        final(v)@ == old(v)@ + cbor_uint(n),
{
    v.push(0x1b);
    push_be64(v, n);
    proof {
        assert(v@ =~= old(v)@ + cbor_uint(n));
    }
}

/// Appends the encoding of an endpoint identity.
fn push_addr(v: &mut Vec<u8>, ad: &Address)
    ensures
        final(v)@ == old(v)@ + enc_addr(*ad),
{
    v.push(0x85);
    push_uint(v, ad.a as u64);
    push_uint(v, ad.b as u64);
    push_uint(v, ad.c as u64);
    push_uint(v, ad.d as u64);
    push_uint(v, ad.port as u64);
    proof {
        assert(v@ =~= old(v)@ + enc_addr(*ad));
    }
}

/// Encodes one client-to-server message into its CBOR payload.
pub fn encode_client_payload(m: &ClientToServerMessage) -> (r: Vec<u8>)
    ensures
        r@ == enc_c2s(m@),
        c2s_wf(m@),
{
    let mut v: Vec<u8> = Vec::new();
    match m {
        ClientToServerMessage::Leave => {
            v.push(0x7b);
            push_be64(&mut v, 5);
            v.push(0x4c);
            v.push(0x65);
            v.push(0x61);
            v.push(0x76);
            v.push(0x65);
            proof {
                assert(v@ =~= cbor_text(name_leave()));
            }
        },
        ClientToServerMessage::Ping => {
            v.push(0x7b);
            push_be64(&mut v, 4);
            v.push(0x50);
            v.push(0x69);
            v.push(0x6e);
            v.push(0x67);
            proof {
                assert(v@ =~= cbor_text(name_ping()));
            }
        },
        ClientToServerMessage::Send(s) => {
            v.push(0xa1);
            v.push(0x7b);
            push_be64(&mut v, 4);
            v.push(0x53);
            v.push(0x65);
            v.push(0x6e);
            v.push(0x64);
            proof {
                assert(v@ =~= send_key());
            }
            push_text(&mut v, s.as_str().as_bytes());
            proof {
                assert(v@ =~= enc_c2s(m@));
            }
        },
    }
    let l = v.len();
    proof {
        assert(l <= usize::MAX);
        assert(usize::MAX <= u64::MAX);
    }
    v
}

/// Encodes one server-to-client message into its CBOR payload.
pub fn encode_server_payload(m: &ServerToClientMessage) -> (r: Vec<u8>)
    ensures
        r@ == enc_s2c(m@),
        s2c_wf(m@),
{
    let mut v: Vec<u8> = Vec::new();
    match m {
        ServerToClientMessage::Ping => {
            v.push(0x7b);
            push_be64(&mut v, 4);
            v.push(0x50);
            v.push(0x69);
            v.push(0x6e);
            v.push(0x67);
            proof {
                assert(v@ =~= cbor_text(name_ping()));
            }
        },
        ServerToClientMessage::Joined(ad) => {
            v.push(0xa1);
            v.push(0x7b);
            push_be64(&mut v, 6);
            v.push(0x4a);
            v.push(0x6f);
            v.push(0x69);
            v.push(0x6e);
            v.push(0x65);
            v.push(0x64);
            proof {
                assert(v@ =~= joined_key());
            }
            push_addr(&mut v, ad);
            proof {
                assert(v@ =~= enc_s2c(m@));
            }
        },
        ServerToClientMessage::Left(ad) => {
            v.push(0xa1);
            v.push(0x7b);
            push_be64(&mut v, 4);
            v.push(0x4c);
            v.push(0x65);
            v.push(0x66);
            v.push(0x74);
            proof {
                assert(v@ =~= left_key());
            }
            push_addr(&mut v, ad);
            proof {
                assert(v@ =~= enc_s2c(m@));
            }
        },
        ServerToClientMessage::Sent(s, ad) => {
            v.push(0xa1);
            v.push(0x7b);
            push_be64(&mut v, 4);
            v.push(0x53);
            v.push(0x65);
            v.push(0x6e);
            v.push(0x74);
            v.push(0x82);
            proof {
                assert(v@ =~= sent_key());
            }
            push_text(&mut v, s.as_str().as_bytes());
            push_addr(&mut v, ad);
            proof {
                assert(v@ =~= enc_s2c(m@));
            }
        },
    }
    let l = v.len();
    proof {
        assert(l <= usize::MAX);
        assert(usize::MAX <= u64::MAX);
    }
    v
}

fn send_key_bytes() -> (r: Vec<u8>)
    ensures
        r@ == send_key(),
{
    let mut v: Vec<u8> = Vec::new();
    v.push(0xa1);
    v.push(0x7b);
    push_be64(&mut v, 4);
    v.push(0x53);
    v.push(0x65);
    v.push(0x6e);
    v.push(0x64);
    proof {
        assert(v@ =~= send_key());
    }
    v
}

fn joined_key_bytes() -> (r: Vec<u8>)
    ensures
        r@ == joined_key(),
{
    let mut v: Vec<u8> = Vec::new();
    v.push(0xa1);
    v.push(0x7b);
    push_be64(&mut v, 6);
    v.push(0x4a);
    v.push(0x6f);
    v.push(0x69);
    v.push(0x6e);
    v.push(0x65);
    v.push(0x64);
    proof {
        assert(v@ =~= joined_key());
    }
    v
}

fn left_key_bytes() -> (r: Vec<u8>)
    ensures
        r@ == left_key(),
{
    let mut v: Vec<u8> = Vec::new();
    v.push(0xa1);
    v.push(0x7b);
    push_be64(&mut v, 4);
    v.push(0x4c);
    v.push(0x65);
    v.push(0x66);
    v.push(0x74);
    proof {
        assert(v@ =~= left_key());
    }
    v
}

fn sent_key_bytes() -> (r: Vec<u8>)
    ensures
        r@ == sent_key(),
{
    let mut v: Vec<u8> = Vec::new();
    v.push(0xa1);
    v.push(0x7b);
    push_be64(&mut v, 4);
    v.push(0x53);
    v.push(0x65);
    v.push(0x6e);
    v.push(0x74);
    v.push(0x82);
    proof {
        assert(v@ =~= sent_key());
    }
    v
}

/// Decodes one encoded endpoint identity.
fn decode_addr(v: &Vec<u8>) -> (r: Option<Address>)
    ensures
        r == parse_addr(v@),
{
    if v.len() != 46 {
        return None;
    }
    if v[0] != 0x85 || v[1] != 0x1b || v[10] != 0x1b || v[19] != 0x1b || v[28] != 0x1b || v[37]
        != 0x1b {
        return None;
    }
    let a = read_be64(v, 2);
    let b = read_be64(v, 11);
    let c = read_be64(v, 20);
    let d = read_be64(v, 29);
    let port = read_be64(v, 38);
    if a > 0xff || b > 0xff || c > 0xff || d > 0xff || port > 0xffff {
        return None;
    }
    Some(Address { a: a as u8, b: b as u8, c: c as u8, d: d as u8, port: port as u16 })
}

/// Decodes one CBOR payload as a client-to-server message. Accepts exactly
/// the payloads that [`parse_c2s`] accepts and returns the value they denote;
/// anything else is a framing error.
pub fn decode_client_payload(v: &Vec<u8>) -> (r: Result<ClientToServerMessage, ProtocolError>)
    ensures
        match parse_c2s(v@) {
            Some(m) => r matches Ok(x) && x@ == m,
            None => r matches Err(e) && e == ProtocolError::Framing,
        },
{
    let leave = encode_client_payload(&ClientToServerMessage::Leave);
    if eq_bytes(v, &leave) {
        return Ok(ClientToServerMessage::Leave);
    }
    let ping = encode_client_payload(&ClientToServerMessage::Ping);
    if eq_bytes(v, &ping) {
        return Ok(ClientToServerMessage::Ping);
    }
    if v.len() < 23 {
        return Err(ProtocolError::Framing);
    }
    let key = send_key_bytes();
    let prefix = copy_range(v, 0, 14);
    if !eq_bytes(&prefix, &key) {
        return Err(ProtocolError::Framing);
    }
    let ghost t = v@.skip(14);
    proof {
        assert(t[0] == v@[14]);
        assert(t.subrange(1, 9) =~= v@.subrange(15, 23));
        assert(v@.len() <= usize::MAX);
        assert(usize::MAX <= u64::MAX);
    }
    if v[14] != 0x7b {
        return Err(ProtocolError::Framing);
    }
    let n = read_be64(v, 15);
    if n != (v.len() - 23) as u64 {
        return Err(ProtocolError::Framing);
    }
    let content = copy_range(v, 23, v.len());
    proof {
        assert(t.skip(9) =~= v@.subrange(23, v@.len() as int));
        assert(parse_text(t) == Some(content@));
    }
    match string_from_utf8(content) {
        Some(s) => {
            proof {
                encode_utf8_valid_utf8(s@);
                encode_utf8_decode_utf8(s@);
            }
            Ok(ClientToServerMessage::Send(s))
        },
        None => Err(ProtocolError::Framing),
    }
}

/// Decodes one CBOR payload as a server-to-client message. Accepts exactly
/// the payloads that [`parse_s2c`] accepts and returns the value they denote.
pub fn decode_server_payload(v: &Vec<u8>) -> (r: Result<ServerToClientMessage, ProtocolError>)
    ensures
        match parse_s2c(v@) {
            Some(m) => r matches Ok(x) && x@ == m,
            None => r matches Err(e) && e == ProtocolError::Framing,
        },
{
    let ping = encode_server_payload(&ServerToClientMessage::Ping);
    if eq_bytes(v, &ping) {
        return Ok(ServerToClientMessage::Ping);
    }
    if v.len() == 62 {
        let key = joined_key_bytes();
        let prefix = copy_range(v, 0, 16);
        if eq_bytes(&prefix, &key) {
            let tail = copy_range(v, 16, v.len());
            proof {
                assert(v@.skip(16) =~= tail@);
            }
            match decode_addr(&tail) {
                Some(ad) => {
                    return Ok(ServerToClientMessage::Joined(ad));
                },
                None => {
                    return Err(ProtocolError::Framing);
                },
            }
        } else {
            return Err(ProtocolError::Framing);
        }
    }
    if v.len() == 60 {
        let key = left_key_bytes();
        let prefix = copy_range(v, 0, 14);
        if eq_bytes(&prefix, &key) {
            let tail = copy_range(v, 14, v.len());
            proof {
                assert(v@.skip(14) =~= tail@);
            }
            match decode_addr(&tail) {
                Some(ad) => {
                    return Ok(ServerToClientMessage::Left(ad));
                },
                None => {
                    return Err(ProtocolError::Framing);
                },
            }
        } else {
            return Err(ProtocolError::Framing);
        }
    }
    if v.len() < 70 {
        return Err(ProtocolError::Framing);
    }
    let key = sent_key_bytes();
    let prefix = copy_range(v, 0, 15);
    if !eq_bytes(&prefix, &key) {
        return Err(ProtocolError::Framing);
    }
    let ghost t = v@.subrange(15, v@.len() - 46);
    proof {
        assert(t[0] == v@[15]);
        assert(t.subrange(1, 9) =~= v@.subrange(16, 24));
        assert(t.len() == v@.len() - 61);
        assert(v@.len() <= usize::MAX);
        assert(usize::MAX <= u64::MAX);
    }
    if v[15] != 0x7b {
        return Err(ProtocolError::Framing);
    }
    let n = read_be64(v, 16);
    if n != (v.len() - 70) as u64 {
        return Err(ProtocolError::Framing);
    }
    let content = copy_range(v, 24, v.len() - 46);
    let tail = copy_range(v, v.len() - 46, v.len());
    proof {
        assert(t.skip(9) =~= v@.subrange(24, v@.len() - 46));
        assert(parse_text(t) == Some(content@));
        assert(v@.skip(v@.len() - 46) =~= tail@);
    }
    let ad = match decode_addr(&tail) {
        Some(ad) => ad,
        None => {
            return Err(ProtocolError::Framing);
        },
    };
    match string_from_utf8(content) {
        Some(s) => {
            proof {
                encode_utf8_valid_utf8(s@);
                encode_utf8_decode_utf8(s@);
            }
            Ok(ServerToClientMessage::Sent(s, ad))
        },
        None => Err(ProtocolError::Framing),
    }
}

/// Encodes one client-to-server message into a complete frame: the payload
/// length as 8 big-endian bytes, then the CBOR payload.
pub fn encode_client_message(m: &ClientToServerMessage) -> (r: Vec<u8>)
    ensures
        r@ == frame(enc_c2s(m@)),
        c2s_wf(m@),
{
    let mut payload = encode_client_payload(m);
    let mut out: Vec<u8> = Vec::new();
    push_be64(&mut out, payload.len() as u64);
    out.append(&mut payload);
    proof {
        assert(out@ =~= frame(enc_c2s(m@)));
    }
    out
}

/// Encodes one server-to-client message into a complete frame.
pub fn encode_server_message(m: &ServerToClientMessage) -> (r: Vec<u8>)
    ensures
        r@ == frame(enc_s2c(m@)),
        s2c_wf(m@),
{
    let mut payload = encode_server_payload(m);
    let mut out: Vec<u8> = Vec::new();
    push_be64(&mut out, payload.len() as u64);
    out.append(&mut payload);
    proof {
        assert(out@ =~= frame(enc_s2c(m@)));
    }
    out
}

/// Reads the payload length a frame header declares. `None` unless the buffer
/// holds exactly the 8 header bytes.
pub fn frame_payload_length(header: &Vec<u8>) -> (r: Option<u64>)
    ensures
        match r {
            Some(n) => header@.len() == 8 && n == be_val(header@),
            None => header@.len() != 8,
        },
{
    if header.len() != 8 {
        return None;
    }
    let n = read_be64(header, 0);
    proof {
        assert(header@.subrange(0, 8) =~= header@);
    }
    Some(n)
}

/// Extracts one client-to-server message from the start of a buffer, returning
/// the message and the number of bytes its frame occupied. A buffer too short
/// for the declared frame is a transport error (stream ended mid-frame) and
/// consumes nothing; a complete frame whose payload does not parse is a
/// framing error.
pub fn decode_client_message(buf: &Vec<u8>) -> (r: Result<
    (ClientToServerMessage, usize),
    ProtocolError,
>)
    ensures
        match split_frame(buf@) {
            None => r matches Err(e) && e == ProtocolError::Transport,
            Some((p, consumed)) => match parse_c2s(p) {
                Some(m) => r matches Ok(x) && x.0@ == m && x.1 == consumed,
                None => r matches Err(e) && e == ProtocolError::Framing,
            },
        },
{
    if buf.len() < 8 {
        return Err(ProtocolError::Transport);
    }
    let n = read_be64(buf, 0);
    if n > (buf.len() - 8) as u64 {
        return Err(ProtocolError::Transport);
    }
    let nu = n as usize;
    let payload = copy_range(buf, 8, 8 + nu);
    match decode_client_payload(&payload) {
        Ok(m) => Ok((m, 8 + nu)),
        Err(_) => Err(ProtocolError::Framing),
    }
}

/// Extracts one server-to-client message from the start of a buffer; see
/// [`decode_client_message`] for the error split.
pub fn decode_server_message(buf: &Vec<u8>) -> (r: Result<
    (ServerToClientMessage, usize),
    ProtocolError,
>)
    ensures
        match split_frame(buf@) {
            None => r matches Err(e) && e == ProtocolError::Transport,
            Some((p, consumed)) => match parse_s2c(p) {
                Some(m) => r matches Ok(x) && x.0@ == m && x.1 == consumed,
                None => r matches Err(e) && e == ProtocolError::Framing,
            },
        },
{
    if buf.len() < 8 {
        return Err(ProtocolError::Transport);
    }
    let n = read_be64(buf, 0);
    if n > (buf.len() - 8) as u64 {
        return Err(ProtocolError::Transport);
    }
    let nu = n as usize;
    let payload = copy_range(buf, 8, 8 + nu);
    match decode_server_payload(&payload) {
        Ok(m) => Ok((m, 8 + nu)),
        Err(_) => Err(ProtocolError::Framing),
    }
}

/// Parsing a text string inverts encoding it.
pub proof fn lemma_parse_text(content: Seq<u8>)
    requires
        content.len() <= u64::MAX,
    ensures
        parse_text(cbor_text(content)) == Some(content),
{
    let b = cbor_text(content);
    assert(b.len() == 9 + content.len());
    assert(b[0] == 0x7b);
    assert(b.subrange(1, 9) =~= be64(content.len() as u64));
    lemma_be_round_trip(content.len() as u64);
    assert(b.skip(9) =~= content);
}

/// Parsing an endpoint identity inverts encoding it.
pub proof fn lemma_parse_addr(ad: Address)
    ensures
        parse_addr(enc_addr(ad)) == Some(ad),
{
    let b = enc_addr(ad);
    assert(b.len() == 46);
    assert(b[0] == 0x85);
    assert(b[1] == 0x1b);
    assert(b.subrange(2, 10) =~= be64(ad.a as u64));
    assert(b[10] == 0x1b);
    assert(b.subrange(11, 19) =~= be64(ad.b as u64));
    assert(b[19] == 0x1b);
    assert(b.subrange(20, 28) =~= be64(ad.c as u64));
    assert(b[28] == 0x1b);
    assert(b.subrange(29, 37) =~= be64(ad.d as u64));
    assert(b[37] == 0x1b);
    assert(b.subrange(38, 46) =~= be64(ad.port as u64));
    lemma_be_round_trip(ad.a as u64);
    lemma_be_round_trip(ad.b as u64);
    lemma_be_round_trip(ad.c as u64);
    lemma_be_round_trip(ad.d as u64);
    lemma_be_round_trip(ad.port as u64);
}

/// Framing round-trip, payload layer, client messages: for every well-formed
/// message value, parsing its encoding yields exactly that value.
pub proof fn lemma_client_round_trip(m: C2s)
    requires
        c2s_wf(m),
    ensures
        parse_c2s(enc_c2s(m)) == Some(m),
{
    match m {
        C2s::Leave => {},
        C2s::Ping => {
            assert(enc_c2s(C2s::Ping).len() == 13);
            assert(enc_c2s(C2s::Leave).len() == 14);
        },
        C2s::Send(s) => {
            let b = enc_c2s(m);
            let content = encode_utf8(s);
            assert(b.len() == 23 + content.len());
            assert(enc_c2s(C2s::Leave).len() == 14);
            assert(enc_c2s(C2s::Ping).len() == 13);
            assert(b.subrange(0, 14) =~= send_key());
            assert(b.skip(14) =~= cbor_text(content));
            lemma_parse_text(content);
            encode_utf8_valid_utf8(s);
            encode_utf8_decode_utf8(s);
        },
    }
}

/// Framing round-trip, payload layer, server messages.
#[verifier::rlimit(60)]
pub proof fn lemma_server_round_trip(m: S2c)
    requires
        s2c_wf(m),
    ensures
        parse_s2c(enc_s2c(m)) == Some(m),
{
    match m {
        S2c::Ping => {},
        S2c::Joined(ad) => {
            let b = enc_s2c(m);
            assert(b.len() == 62);
            assert(enc_s2c(S2c::Ping).len() == 13);
            assert(b.subrange(0, 16) =~= joined_key());
            assert(b.skip(16) =~= enc_addr(ad));
            lemma_parse_addr(ad);
        },
        S2c::Left(ad) => {
            let b = enc_s2c(m);
            assert(b.len() == 60);
            assert(enc_s2c(S2c::Ping).len() == 13);
            assert(b.subrange(0, 14) =~= left_key());
            assert(b.skip(14) =~= enc_addr(ad));
            lemma_parse_addr(ad);
        },
        S2c::Sent(s, ad) => {
            let b = enc_s2c(m);
            let content = encode_utf8(s);
            assert(b.len() == 70 + content.len());
            assert(enc_s2c(S2c::Ping).len() == 13);
            assert(b.subrange(0, 15) =~= sent_key());
            assert(b.subrange(15, b.len() - 46) =~= cbor_text(content));
            assert(b.skip(b.len() - 46) =~= enc_addr(ad));
            lemma_parse_text(content);
            lemma_parse_addr(ad);
            encode_utf8_valid_utf8(s);
            encode_utf8_decode_utf8(s);
        },
    }
}

/// Splitting a well-formed frame recovers the payload and consumes the whole
/// frame.
pub proof fn lemma_frame_round_trip(p: Seq<u8>)
    requires
        p.len() <= u64::MAX,
    ensures
        split_frame(frame(p)) == Some((p, 8 + p.len() as int)),
{
    let b = frame(p);
    assert(b.len() == 8 + p.len());
    assert(b.subrange(0, 8) =~= be64(p.len() as u64));
    lemma_be_round_trip(p.len() as u64);
    assert(b.subrange(8, 8 + p.len() as int) =~= p);
}

/// Framing round-trip, whole frames, client messages: the frame of an encoded
/// message splits back into exactly its payload, and that payload parses to
/// exactly the value that was encoded.
pub proof fn lemma_client_message_round_trip(m: C2s)
    requires
        c2s_wf(m),
    ensures
        split_frame(frame(enc_c2s(m))) == Some((enc_c2s(m), 8 + enc_c2s(m).len() as int)),
        parse_c2s(enc_c2s(m)) == Some(m),
{
    lemma_frame_round_trip(enc_c2s(m));
    lemma_client_round_trip(m);
}

/// Framing round-trip, whole frames, server messages.
pub proof fn lemma_server_message_round_trip(m: S2c)
    requires
        s2c_wf(m),
    ensures
        split_frame(frame(enc_s2c(m))) == Some((enc_s2c(m), 8 + enc_s2c(m).len() as int)),
        parse_s2c(enc_s2c(m)) == Some(m),
{
    lemma_frame_round_trip(enc_s2c(m));
    lemma_server_round_trip(m);
}

/// Length integrity: when a buffer is shorter than the length prefix, or the
/// declared payload length exceeds the bytes that follow the prefix, no frame
/// is extracted — the decoders return the transport error and consume no
/// message.
pub proof fn lemma_length_integrity(b: Seq<u8>)
    requires
        b.len() < 8 || be_val(b.subrange(0, 8)) > b.len() - 8,
    ensures
        split_frame(b) is None,
{
}

} // verus!
