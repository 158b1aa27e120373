//! Length-prefixed wire framing.
//!
//! A frame on the wire is a 4-byte big-endian unsigned length followed by
//! exactly that many payload bytes. A stream is zero or more such frames,
//! terminated only by the connection closing.

use vstd::prelude::*;

use crate::errors::TransportError;

verus! {

/// Largest payload length the protocol permits; a larger declared length
/// is a protocol violation on the receive side, and the sender never
/// produces one.
pub const MAX_PAYLOAD_LEN: u32 = 10_000_000;

/// The unsigned 32-bit value that four bytes denote in big-endian order.
pub open spec fn be32(b0: u8, b1: u8, b2: u8, b3: u8) -> u32 {
    ((b0 as u32) << 24) | ((b1 as u32) << 16) | ((b2 as u32) << 8) | (b3 as u32)
}

/// The four big-endian bytes of an unsigned 32-bit value.
pub open spec fn be32_bytes(n: u32) -> Seq<u8> {
    seq![(n >> 24) as u8, (n >> 16) as u8, (n >> 8) as u8, n as u8]
}

/// Reading back the four big-endian bytes of `n` yields `n`.
pub proof fn lemma_be32_roundtrip(n: u32)
    ensures
        be32((n >> 24) as u8, (n >> 16) as u8, (n >> 8) as u8, n as u8) == n,
{
    assert((((n >> 24) as u8 as u32) << 24) | (((n >> 16) as u8 as u32) << 16) | (((n >> 8) as u8
        as u32) << 8) | (n as u8 as u32) == n) by (bit_vector);
}

/// Interpret four bytes as a big-endian unsigned 32-bit length.
pub fn u32_from_be(b0: u8, b1: u8, b2: u8, b3: u8) -> (n: u32)
    ensures
        n == be32(b0, b1, b2, b3),
{
    ((b0 as u32) << 24) | ((b1 as u32) << 16) | ((b2 as u32) << 8) | (b3 as u32)
}

/// Produce the four big-endian bytes of `n`.
pub fn u32_to_be(n: u32) -> (r: Vec<u8>)
    ensures
        r@ == be32_bytes(n),
{
    let mut r: Vec<u8> = Vec::new();
    r.push((n >> 24) as u8);
    r.push((n >> 16) as u8);
    r.push((n >> 8) as u8);
    r.push(n as u8);
    proof {
        assert(r@ =~= be32_bytes(n));
    }
    r
}

/// The wire form of one payload: its length as four big-endian bytes,
/// then the payload itself.
pub open spec fn wire_frame(payload: Seq<u8>) -> Seq<u8> {
    be32_bytes(payload.len() as u32) + payload
}

/// The wire form of a whole session: each payload framed, in order,
/// with no separator, header or end marker.
pub open spec fn wire_stream(payloads: Seq<Seq<u8>>) -> Seq<u8>
    decreases payloads.len(),
{
    if payloads.len() == 0 {
        Seq::empty()
    } else {
        wire_frame(payloads[0]) + wire_stream(payloads.drop_first())
    }
}

/// Every payload is within the protocol's length bound.
pub open spec fn all_payloads_fit(payloads: Seq<Seq<u8>>) -> bool {
    forall|i: int| 0 <= i < payloads.len() ==> (#[trigger] payloads[i]).len() <= MAX_PAYLOAD_LEN
}

/// What the framing parser finds in a byte stream: the framed payloads
/// in order, or the first violation it runs into. `Oversized` is a
/// declared length above the bound (a protocol violation); `Truncated`
/// is a stream that stops mid-prefix or mid-payload (a connection
/// failure from the reader's point of view).
pub enum StreamParse {
    Parsed(Seq<Seq<u8>>),
    Oversized,
    Truncated,
}

/// Parse a complete byte stream into its framed payloads.
pub open spec fn parse_stream(bytes: Seq<u8>) -> StreamParse
    decreases bytes.len(),
{
    if bytes.len() == 0 {
        StreamParse::Parsed(Seq::empty())
    } else if bytes.len() < 4 {
        StreamParse::Truncated
    } else {
        let n = be32(bytes[0], bytes[1], bytes[2], bytes[3]) as int;
        if n > MAX_PAYLOAD_LEN {
            StreamParse::Oversized
        } else if bytes.len() < 4 + n {
            StreamParse::Truncated
        } else {
            match parse_stream(bytes.subrange(4 + n, bytes.len() as int)) {
                StreamParse::Parsed(rest) => StreamParse::Parsed(
                    seq![bytes.subrange(4, 4 + n)] + rest,
                ),
                StreamParse::Oversized => StreamParse::Oversized,
                StreamParse::Truncated => StreamParse::Truncated,
            }
        }
    }
}

/// Framing round trip: the bytes the sender emits for a sequence of
/// payloads parse back to exactly that sequence, in order.
pub proof fn lemma_stream_roundtrip(payloads: Seq<Seq<u8>>)
    requires
        all_payloads_fit(payloads),
    ensures
        parse_stream(wire_stream(payloads)) == StreamParse::Parsed(payloads),
    decreases payloads.len(),
{
    if payloads.len() == 0 {
        assert(payloads =~= Seq::<Seq<u8>>::empty());
    } else {
        let p0 = payloads[0];
        let rest = payloads.drop_first();
        let prefix = wire_frame(p0);
        let tail = wire_stream(rest);
        let bytes = wire_stream(payloads);
        assert(bytes == prefix + tail);
        assert(p0.len() <= MAX_PAYLOAD_LEN);
        let n = p0.len() as u32;
        assert(n == p0.len());
        lemma_be32_roundtrip(n);
        assert(bytes.len() == 4 + p0.len() + tail.len());
        assert(bytes[0] == (n >> 24) as u8);
        assert(bytes[1] == (n >> 16) as u8);
        assert(bytes[2] == (n >> 8) as u8);
        assert(bytes[3] == n as u8);
        assert(be32(bytes[0], bytes[1], bytes[2], bytes[3]) == n);
        assert(bytes.subrange(4, 4 + n as int) =~= p0);
        assert(bytes.subrange(4 + n as int, bytes.len() as int) =~= tail);
        assert(all_payloads_fit(rest)) by {
            assert(forall|i: int|
                0 <= i < rest.len() ==> #[trigger] rest[i] == payloads[i + 1]);
        }
        lemma_stream_roundtrip(rest);
        assert(parse_stream(bytes) == StreamParse::Parsed(seq![p0] + rest));
        assert(seq![p0] + rest =~= payloads);
    }
}

/// A declared length above the protocol bound is refused by itself:
/// whatever bytes follow the prefix, the stream is a protocol
/// violation, and no payload of it is ever delivered.
pub proof fn lemma_oversized_length_rejected(bytes: Seq<u8>)
    requires
        bytes.len() >= 4,
        be32(bytes[0], bytes[1], bytes[2], bytes[3]) > MAX_PAYLOAD_LEN,
    ensures
        parse_stream(bytes) is Oversized,
{
}

/// A nonempty stream that stops mid-length-prefix, or mid-payload of a
/// frame whose declared length is within the bound, is truncated: no
/// partial frame is ever delivered from it.
pub proof fn lemma_truncated_stream_rejected(bytes: Seq<u8>)
    requires
        0 < bytes.len(),
        bytes.len() >= 4 ==> be32(bytes[0], bytes[1], bytes[2], bytes[3]) <= MAX_PAYLOAD_LEN
            && bytes.len() < 4 + be32(bytes[0], bytes[1], bytes[2], bytes[3]),
    ensures
        parse_stream(bytes) is Truncated,
{
}

/// The views of a vector of byte vectors.
pub open spec fn payload_views(vs: Seq<Vec<u8>>) -> Seq<Seq<u8>> {
    vs.map_values(|v: Vec<u8>| v@)
}

/// Frame one payload for the wire: length prefix, then the payload, as
/// one unit. A payload over the protocol bound is refused; the sender
/// never emits an oversized frame.
pub fn frame_payload(payload: &Vec<u8>) -> (r: Result<Vec<u8>, TransportError>)
    ensures
        payload@.len() <= MAX_PAYLOAD_LEN ==> (r matches Ok(b) && b@ == wire_frame(payload@)),
        payload@.len() > MAX_PAYLOAD_LEN ==> (r matches Err(e) && e
            == TransportError::ProtocolViolation),
{
    if payload.len() > MAX_PAYLOAD_LEN as usize {
        return Err(TransportError::ProtocolViolation);
    }
    let n = payload.len() as u32;
    let mut out = u32_to_be(n);
    let mut i: usize = 0;
    while i < payload.len()
        invariant
            i <= payload@.len(),
            payload@.len() <= MAX_PAYLOAD_LEN,
            n == payload@.len(),
            out@ == be32_bytes(n) + payload@.subrange(0, i as int),
        decreases payload@.len() - i,
    {
        out.push(payload[i]);
        proof {
            assert(out@ =~= be32_bytes(n) + payload@.subrange(0, i + 1));
        }
        i = i + 1;
    }
    proof {
        assert(payload@.subrange(0, payload@.len() as int) =~= payload@);
    }
    Ok(out)
}

/// The parser's progress: what remains at position `i` of the stream,
/// together with the payloads already taken, accounts exactly for what
/// the whole stream parses to.
spec fn parse_continues(bytes: Seq<u8>, i: int, acc: Seq<Seq<u8>>) -> bool {
    match parse_stream(bytes.subrange(i, bytes.len() as int)) {
        StreamParse::Parsed(rest) => parse_stream(bytes) == StreamParse::Parsed(acc + rest),
        StreamParse::Oversized => parse_stream(bytes) is Oversized,
        StreamParse::Truncated => parse_stream(bytes) is Truncated,
    }
}

/// The receiver's framing parser over a complete captured byte stream:
/// every framed payload in order, or the violation that ends the
/// session — `ProtocolViolation` for a declared length over the bound,
/// `Connection` for a stream cut off mid-prefix or mid-payload.
pub fn parse_wire_stream(bytes: &Vec<u8>) -> (r: Result<Vec<Vec<u8>>, TransportError>)
    ensures
        match r {
            Ok(payloads) => parse_stream(bytes@) == StreamParse::Parsed(payload_views(payloads@)),
            Err(TransportError::ProtocolViolation) => parse_stream(bytes@) is Oversized,
            Err(TransportError::Connection) => parse_stream(bytes@) is Truncated,
            Err(TransportError::Codec) => false,
        },
{
    let len = bytes.len();
    let mut i: usize = 0;
    let mut out: Vec<Vec<u8>> = Vec::new();
    proof {
        assert(bytes@.subrange(0, len as int) =~= bytes@);
        assert(payload_views(out@) =~= Seq::<Seq<u8>>::empty());
        assert(parse_continues(bytes@, 0, payload_views(out@)));
    }
    while i < len
        invariant
            i <= len,
            len == bytes@.len(),
            parse_continues(bytes@, i as int, payload_views(out@)),
        decreases len - i,
    {
        let ghost s = bytes@.subrange(i as int, len as int);
        if len - i < 4 {
            proof {
                assert(parse_stream(s) is Truncated);
            }
            return Err(TransportError::Connection);
        }
        let n = u32_from_be(bytes[i], bytes[i + 1], bytes[i + 2], bytes[i + 3]);
        proof {
            assert(s[0] == bytes@[i as int]);
            assert(s[1] == bytes@[i as int + 1]);
            assert(s[2] == bytes@[i as int + 2]);
            assert(s[3] == bytes@[i as int + 3]);
        }
        if n > MAX_PAYLOAD_LEN {
            proof {
                assert(parse_stream(s) is Oversized);
            }
            return Err(TransportError::ProtocolViolation);
        }
        let n_usize = n as usize;
        if len - i - 4 < n_usize {
            proof {
                assert(s.len() < 4 + n);
                assert(parse_stream(s) is Truncated);
            }
            return Err(TransportError::Connection);
        }
        let mut payload: Vec<u8> = Vec::new();
        let mut j: usize = 0;
        while j < n_usize
            invariant
                j <= n_usize,
                n_usize == n,
                i + 4 + n_usize <= len,
                len == bytes@.len(),
                payload@ == bytes@.subrange(i as int + 4, i as int + 4 + j),
            decreases n_usize - j,
        {
            payload.push(bytes[i + 4 + j]);
            proof {
                assert(payload@ =~= bytes@.subrange(i as int + 4, i as int + 4 + j + 1));
            }
            j = j + 1;
        }
        let ghost old_views = payload_views(out@);
        out.push(payload);
        proof {
            let ghost s_rest = bytes@.subrange(i as int + 4 + n, len as int);
            assert(s.subrange(4 + n as int, s.len() as int) =~= s_rest);
            assert(s.subrange(4, 4 + n as int) =~= payload@);
            assert(payload_views(out@) =~= old_views + seq![payload@]);
            assert(parse_stream(s) == (match parse_stream(s_rest) {
                StreamParse::Parsed(rest) => StreamParse::Parsed(seq![payload@] + rest),
                StreamParse::Oversized => StreamParse::Oversized,
                StreamParse::Truncated => StreamParse::Truncated,
            }));
            if parse_stream(s_rest) is Parsed {
                let rest = parse_stream(s_rest)->Parsed_0;
                assert(old_views + (seq![payload@] + rest) =~= (old_views + seq![payload@])
                    + rest);
            }
            assert(parse_continues(bytes@, i as int + 4 + n, payload_views(out@)));
        }
        i = i + 4 + n_usize;
    }
    proof {
        assert(bytes@.subrange(len as int, len as int) =~= Seq::<u8>::empty());
        assert(payload_views(out@) + Seq::<Seq<u8>>::empty() =~= payload_views(out@));
    }
    Ok(out)
}

} // verus!
