//! The Source RCON binary frame codec: length-prefixed little-endian frames
//! carrying a request id, a packet kind and a text payload, terminated by
//! two NUL bytes.

use vstd::prelude::*;
use vstd::bytes::*;
use vstd::slice::*;
use vstd::string::*;
use vstd::utf8::*;
use crate::error::RconError;
use crate::text::{contains_nul, has_nul};

verus! {

/// Kind tag of a packet carrying response data.
pub const SERVERDATA_RESPONSE_VALUE: i32 = 0;

/// Kind tag of a command execution request.
pub const SERVERDATA_EXECCOMMAND: i32 = 2;

/// Kind tag of the authentication answer. It is numerically the same as
/// `SERVERDATA_EXECCOMMAND`; the direction of travel tells them apart.
pub const SERVERDATA_AUTH_RESPONSE: i32 = 2;

/// Kind tag of an authentication request.
pub const SERVERDATA_AUTH: i32 = 3;

/// The longest payload whose frame length still fits the signed 32-bit
/// length prefix.
pub const MAX_PAYLOAD_BYTES: usize = 0x7fff_fff5;

/// One decoded packet.
#[derive(Debug, Clone)]
pub struct SourcePacket {
    pub id: i32,
    pub kind: i32,
    pub payload: String,
}

/// The frame without its length prefix: id and kind little-endian, the
/// payload bytes, and the two NUL terminators.
pub open spec fn spec_frame_body(id: i32, kind: i32, payload: Seq<u8>) -> Seq<u8> {
    spec_u32_to_le_bytes(id as u32) + spec_u32_to_le_bytes(kind as u32) + payload + seq![0u8, 0u8]
}

/// The bytes of one complete binary frame: the little-endian length of
/// everything after the length prefix, then the frame body.
pub open spec fn spec_frame(id: i32, kind: i32, payload: Seq<u8>) -> Seq<u8> {
    spec_u32_to_le_bytes((payload.len() + 10) as u32) + spec_frame_body(id, kind, payload)
}

/// The id little-endian-encoded in the first four body bytes, read as a
/// signed 32-bit value.
pub open spec fn spec_body_id(body: Seq<u8>) -> i32 {
    spec_u32_from_le_bytes(body.take(4)) as i32
}

/// The kind encoded in body bytes four to eight.
pub open spec fn spec_body_kind(body: Seq<u8>) -> i32 {
    spec_u32_from_le_bytes(body.subrange(4, 8)) as i32
}

/// The payload bytes between the eight-byte header and the two terminators.
pub open spec fn spec_body_payload(body: Seq<u8>) -> Seq<u8> {
    body.subrange(8, body.len() - 2)
}

/// The characters before the first NUL.
pub open spec fn take_until_nul(s: Seq<char>) -> Seq<char>
    decreases s.len(),
{
    if s.len() == 0 {
        s
    } else if s[0] == '\0' {
        Seq::empty()
    } else {
        seq![s[0]] + take_until_nul(s.drop_first())
    }
}

/// Cutting at the first NUL keeps exactly the prefix before it.
proof fn lemma_take_until_nul_take(s: Seq<char>, i: int)
    requires
        0 <= i <= s.len(),
        forall|j: int| 0 <= j < i ==> s[j] != '\0',
        i < s.len() ==> s[i] == '\0',
    ensures
        take_until_nul(s) == s.take(i),
    decreases s.len(),
{
    if s.len() == 0 {
        assert(s.take(0) =~= s);
    } else if i == 0 {
        assert(s.take(0) =~= Seq::<char>::empty());
    } else {
        lemma_take_until_nul_take(s.drop_first(), i - 1);
        assert(seq![s[0]] + s.drop_first().take(i - 1) =~= s.take(i));
    }
}

/// A text without NUL characters is unchanged by the cut.
pub proof fn lemma_take_until_nul_id(s: Seq<char>)
    requires
        !has_nul(s),
    ensures
        take_until_nul(s) == s,
{
    assert(forall|j: int| 0 <= j < s.len() ==> s[j] != '\0');
    lemma_take_until_nul_take(s, s.len() as int);
    assert(s.take(s.len() as int) =~= s);
}

/// Builds the frame for one outgoing packet. A payload carrying a NUL
/// character is rejected, as is one too long for the length prefix; in both
/// cases no frame is produced.
pub fn encode_packet(id: i32, kind: i32, payload: &str) -> (r: Result<Vec<u8>, RconError>)
    ensures
        has_nul(payload@) ==> r == Err::<Vec<u8>, RconError>(RconError::NulInPayload),
        !has_nul(payload@) && payload.spec_bytes().len() > MAX_PAYLOAD_BYTES ==> r == Err::<
            Vec<u8>,
            RconError,
        >(RconError::PayloadTooLong),
        !has_nul(payload@) && payload.spec_bytes().len() <= MAX_PAYLOAD_BYTES ==> (r matches Ok(
            frame,
        ) && frame@ == spec_frame(id, kind, payload.spec_bytes())),
{
    if contains_nul(payload) {
        return Err(RconError::NulInPayload);
    }
    let payload_bytes = payload.as_bytes();
    if payload_bytes.len() > MAX_PAYLOAD_BYTES {
        return Err(RconError::PayloadTooLong);
    }
    let length: u32 = (payload_bytes.len() + 10) as u32;
    let id_u32: u32 = #[verifier::truncate] (id as u32);
    let kind_u32: u32 = #[verifier::truncate] (kind as u32);
    let mut frame = u32_to_le_bytes(length);
    let mut id_bytes = u32_to_le_bytes(id_u32);
    let mut kind_bytes = u32_to_le_bytes(kind_u32);
    frame.append(&mut id_bytes);
    frame.append(&mut kind_bytes);
    let mut pb = payload.as_bytes_vec();
    frame.append(&mut pb);
    frame.push(0);
    frame.push(0);
    proof {
        assert(frame@ =~= spec_frame(id, kind, payload.spec_bytes()));
    }
    Ok(frame)
}

/// Reads the length prefix of a frame: four bytes, little-endian, read as a
/// signed count of the bytes that follow. A count below the 10-byte minimum
/// (id, kind and the two terminators) is rejected.
pub fn packet_body_len(len_bytes: &[u8]) -> (r: Result<usize, RconError>)
    requires
        len_bytes@.len() == 4,
    ensures
        ({
            let declared = spec_u32_from_le_bytes(len_bytes@) as i32;
            if declared < 10 {
                r == Err::<usize, RconError>(RconError::InvalidLength(declared))
            } else {
                r == Ok::<usize, RconError>(declared as usize)
            }
        }),
{
    let raw = u32_from_le_bytes(len_bytes);
    let declared: i32 = #[verifier::truncate] (raw as i32);
    if declared < 10 {
        Err(RconError::InvalidLength(declared))
    } else {
        Ok(declared as usize)
    }
}

/// What decoding a frame body must produce: the body needs the eight-byte
/// header and the two NUL terminators, the payload must be valid UTF-8, and
/// the decoded text is cut at its first NUL character, which some servers
/// use as padding.
pub open spec fn decode_post(body: Seq<u8>, r: Result<SourcePacket, RconError>) -> bool {
    if body.len() < 10 {
        r == Err::<SourcePacket, RconError>(RconError::ShortPacket)
    } else if body[body.len() - 2] != 0 || body[body.len() - 1] != 0 {
        r == Err::<SourcePacket, RconError>(RconError::MissingTerminator)
    } else if !valid_utf8(spec_body_payload(body)) {
        r == Err::<SourcePacket, RconError>(RconError::InvalidUtf8)
    } else {
        (r matches Ok(p) && p.id == spec_body_id(body) && p.kind == spec_body_kind(body)
            && p.payload@ == take_until_nul(decode_utf8(spec_body_payload(body))))
    }
}

/// Decodes a frame body (everything after the length prefix) into a packet.
pub fn decode_packet_body(body: &[u8]) -> (r: Result<SourcePacket, RconError>)
    ensures
        decode_post(body@, r),
{
    let n = body.len();
    if n < 10 {
        return Err(RconError::ShortPacket);
    }
    let id: i32 = #[verifier::truncate] (u32_from_le_bytes(slice_subrange(body, 0, 4)) as i32);
    let kind: i32 = #[verifier::truncate] (u32_from_le_bytes(slice_subrange(body, 4, 8)) as i32);
    proof {
        assert(body@.subrange(0, 4) =~= body@.take(4));
    }
    let t1 = *slice_index_get(body, n - 2);
    let t2 = *slice_index_get(body, n - 1);
    if t1 != 0 || t2 != 0 {
        return Err(RconError::MissingTerminator);
    }
    let payload_vec = slice_to_vec(slice_subrange(body, 8, n - 2));
    let decoded = match string_from_utf8(payload_vec) {
        Some(s) => s,
        None => {
            return Err(RconError::InvalidUtf8);
        },
    };
    let payload = cut_at_nul(decoded.as_str());
    Ok(SourcePacket { id, kind, payload })
}

/// Relies on `String::from_utf8`: it succeeds exactly on valid UTF-8 input
/// and returns its decoding, for which vstd's `valid_utf8` and `decode_utf8`
/// are the reference model.
#[verifier::external_body]
fn string_from_utf8(bytes: Vec<u8>) -> (r: Option<String>)
    ensures
        r is Some <==> valid_utf8(bytes@),
        r matches Some(s) ==> s@ == decode_utf8(bytes@),
{
    String::from_utf8(bytes).ok()
}

/// The text before the first NUL character.
fn cut_at_nul(s: &str) -> (r: String)
    ensures
        r@ == take_until_nul(s@),
{
    let n = s.unicode_len();
    let mut i: usize = 0;
    while i < n
        invariant
            i <= n,
            n == s@.len(),
            forall|j: int| 0 <= j < i ==> s@[j] != '\0',
        decreases n - i,
    {
        if s.get_char(i) == '\0' {
            proof {
                lemma_take_until_nul_take(s@, i as int);
                assert(s@.subrange(0, i as int) =~= s@.take(i as int));
            }
            return String::from_str(s.substring_char(0, i));
        }
        i += 1;
    }
    proof {
        lemma_take_until_nul_take(s@, n as int);
        assert(s@.take(n as int) =~= s@);
    }
    String::from_str(s)
}

/// Round trip: the body of an encoded frame declares the right length,
/// carries the two terminators, and decodes back to the id, kind and payload
/// it was built from — for every payload free of NUL characters that fits
/// the length prefix.
pub proof fn lemma_frame_round_trip(id: i32, kind: i32, payload: Seq<char>)
    requires
        !has_nul(payload),
        encode_utf8(payload).len() <= MAX_PAYLOAD_BYTES,
    ensures
        ({
            let pb = encode_utf8(payload);
            let frame = spec_frame(id, kind, pb);
            let body = spec_frame_body(id, kind, pb);
            &&& frame.len() == body.len() + 4
            &&& frame.skip(4) == body
            &&& spec_u32_from_le_bytes(frame.take(4)) as i32 == body.len()
            &&& body.len() >= 10
            &&& body[body.len() - 2] == 0 && body[body.len() - 1] == 0
            &&& spec_body_id(body) == id
            &&& spec_body_kind(body) == kind
            &&& valid_utf8(spec_body_payload(body))
            &&& take_until_nul(decode_utf8(spec_body_payload(body))) == payload
        }),
{
    let pb = encode_utf8(payload);
    let frame = spec_frame(id, kind, pb);
    let body = spec_frame_body(id, kind, pb);
    lemma_auto_spec_u32_to_from_le_bytes();
    assert(frame.take(4) =~= spec_u32_to_le_bytes((pb.len() + 10) as u32));
    assert(frame.skip(4) =~= body);
    assert(body.take(4) =~= spec_u32_to_le_bytes(id as u32));
    assert(body.subrange(4, 8) =~= spec_u32_to_le_bytes(kind as u32));
    assert(spec_body_payload(body) =~= pb);
    assert((id as u32) as i32 == id) by (bit_vector);
    assert((kind as u32) as i32 == kind) by (bit_vector);
    let lu = (pb.len() + 10) as u32;
    assert(lu <= 0x7fffffff ==> ((lu as i32) >= 0 && (lu as i32) as u32 == lu)) by (bit_vector);
    encode_utf8_valid_utf8(payload);
    encode_utf8_decode_utf8(payload);
    lemma_take_until_nul_id(payload);
}

} // verus!
