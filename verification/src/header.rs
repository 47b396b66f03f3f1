use vstd::prelude::*;
use vstd::bytes::{
    spec_u16_from_le_bytes, spec_u16_to_le_bytes, spec_u32_from_le_bytes, spec_u32_to_le_bytes,
    spec_u64_from_le_bytes, spec_u64_to_le_bytes, u16_from_le_bytes, u16_to_le_bytes,
    u32_from_le_bytes, u32_to_le_bytes, u64_from_le_bytes, u64_to_le_bytes,
};
use vstd::slice::slice_subrange;

use crate::errors::RrcpError;

verus! {

/// The protocol identifier carried in every header's magic field.
pub const MAGIC_NUMBER: u32 = 0x7312;

/// The protocol version written into every header built by this crate.
pub const RRCP_VERSION: u32 = 1;

/// The exact number of bytes of an encoded header on the wire.
pub const HEADER_SIZE: usize = 28;

/// How a frame body is encoded.
#[derive(Debug, Clone, Copy, PartialEq, Eq, PartialOrd, Ord, Structural)]
pub enum ContentType {
    NoContent,
    MessagePack,
}

/// The RPC selector carried in the frame header.
#[derive(Debug, Clone, Copy, PartialEq, Eq, PartialOrd, Ord, Structural)]
pub enum Flag {
    NoMethod,
    GetConfig,
    GetAction,
}

/// The wire value of a content type.
pub open spec fn content_type_value(ct: ContentType) -> u16 {
    match ct {
        ContentType::NoContent => 0,
        ContentType::MessagePack => 1,
    }
}

/// The wire value of a method flag.
pub open spec fn flag_value(f: Flag) -> u16 {
    match f {
        Flag::NoMethod => 0,
        Flag::GetConfig => 1,
        Flag::GetAction => 2,
    }
}

impl ContentType {
    /// The content type named by a wire value, if the value is a known
    /// enumerator.
    pub fn from_u16(value: u16) -> (r: Result<ContentType, RrcpError>)
        ensures
            value == 0 ==> r == Result::<ContentType, RrcpError>::Ok(ContentType::NoContent),
            value == 1 ==> r == Result::<ContentType, RrcpError>::Ok(ContentType::MessagePack),
            value > 1 ==> r == Result::<ContentType, RrcpError>::Err(RrcpError::UnknownContentType),
    {
        match value {
            0 => Ok(ContentType::NoContent),
            1 => Ok(ContentType::MessagePack),
            _ => Err(RrcpError::UnknownContentType),
        }
    }

    /// The wire value of this content type.
    pub fn as_u16(self) -> (r: u16)
        ensures
            r == content_type_value(self),
    {
        match self {
            ContentType::NoContent => 0,
            ContentType::MessagePack => 1,
        }
    }
}

impl Flag {
    /// The method flag named by a wire value, if the value is a known
    /// enumerator.
    pub fn from_u16(value: u16) -> (r: Result<Flag, RrcpError>)
        ensures
            value == 0 ==> r == Result::<Flag, RrcpError>::Ok(Flag::NoMethod),
            value == 1 ==> r == Result::<Flag, RrcpError>::Ok(Flag::GetConfig),
            value == 2 ==> r == Result::<Flag, RrcpError>::Ok(Flag::GetAction),
            value > 2 ==> r == Result::<Flag, RrcpError>::Err(RrcpError::UnknownMethod),
    {
        match value {
            0 => Ok(Flag::NoMethod),
            1 => Ok(Flag::GetConfig),
            2 => Ok(Flag::GetAction),
            _ => Err(RrcpError::UnknownMethod),
        }
    }

    /// The wire value of this method flag.
    pub fn as_u16(self) -> (r: u16)
        ensures
            r == flag_value(self),
    {
        match self {
            Flag::NoMethod => 0,
            Flag::GetConfig => 1,
            Flag::GetAction => 2,
        }
    }
}

/// The fixed-layout frame header. All fields travel little-endian, in
/// declaration order, with no padding: every byte position is part of the
/// wire contract.
#[derive(Debug, Clone, Copy, PartialEq, Eq, PartialOrd, Ord, Structural)]
pub struct RRCPHeader {
    /// Protocol identifier; must equal `MAGIC_NUMBER` on decode.
    pub magic: u32,
    /// Protocol version; currently always `RRCP_VERSION`.
    pub version: u32,
    /// Exact byte length of the body that follows the header on the wire.
    pub body_length: u64,
    /// Sender-side wall-clock milliseconds since the Unix epoch; advisory.
    pub server_timestamp_ms: u64,
    /// How the body is encoded.
    pub content_type: ContentType,
    /// Which RPC this frame invokes or answers.
    pub flag: Flag,
}

/// The exact byte sequence of an encoded header.
pub open spec fn spec_encode_header(h: RRCPHeader) -> Seq<u8> {
    spec_u32_to_le_bytes(h.magic) + spec_u32_to_le_bytes(h.version)
        + spec_u64_to_le_bytes(h.body_length) + spec_u64_to_le_bytes(h.server_timestamp_ms)
        + spec_u16_to_le_bytes(content_type_value(h.content_type))
        + spec_u16_to_le_bytes(flag_value(h.flag))
}

/// What decoding a buffer yields: the header read from its first
/// `HEADER_SIZE` bytes, or the first error in the fixed order of checks
/// (buffer length, magic, content type, method).
pub open spec fn spec_decode_header(bytes: Seq<u8>) -> Result<RRCPHeader, RrcpError> {
    if bytes.len() < HEADER_SIZE {
        Err(RrcpError::ShortBuffer)
    } else if spec_u32_from_le_bytes(bytes.subrange(0, 4)) != MAGIC_NUMBER {
        Err(RrcpError::BadMagic)
    } else if spec_u16_from_le_bytes(bytes.subrange(24, 26)) > 1 {
        Err(RrcpError::UnknownContentType)
    } else if spec_u16_from_le_bytes(bytes.subrange(26, 28)) > 2 {
        Err(RrcpError::UnknownMethod)
    } else {
        Ok(
            RRCPHeader {
                magic: spec_u32_from_le_bytes(bytes.subrange(0, 4)),
                version: spec_u32_from_le_bytes(bytes.subrange(4, 8)),
                body_length: spec_u64_from_le_bytes(bytes.subrange(8, 16)),
                server_timestamp_ms: spec_u64_from_le_bytes(bytes.subrange(16, 24)),
                content_type: if spec_u16_from_le_bytes(bytes.subrange(24, 26)) == 0 {
                    ContentType::NoContent
                } else {
                    ContentType::MessagePack
                },
                flag: if spec_u16_from_le_bytes(bytes.subrange(26, 28)) == 0 {
                    Flag::NoMethod
                } else if spec_u16_from_le_bytes(bytes.subrange(26, 28)) == 1 {
                    Flag::GetConfig
                } else {
                    Flag::GetAction
                },
            },
        )
    }
}

/// Relies on `std::time::SystemTime::now` and `duration_since`: the
/// wall-clock time as milliseconds since the Unix epoch, or 0 if the clock
/// is set before the epoch. Nothing is promised of the result: it depends
/// on the machine's clock.
#[verifier::external_body]
pub fn now_timestamp_ms() -> u64 {
    match std::time::SystemTime::now().duration_since(std::time::UNIX_EPOCH) {
        Ok(d) => d.as_millis() as u64,
        Err(_) => 0,
    }
}

impl RRCPHeader {
    /// A fresh request header for the given method: correct magic, current
    /// version, MessagePack content, an empty body until a body is attached,
    /// and the clock's timestamp.
    pub fn new_with_flag(flag: Flag) -> (h: RRCPHeader)
        ensures
            h.magic == MAGIC_NUMBER,
            h.version == RRCP_VERSION,
            h.body_length == 0,
            h.content_type == ContentType::MessagePack,
            h.flag == flag,
    {
        RRCPHeader {
            magic: MAGIC_NUMBER,
            version: RRCP_VERSION,
            body_length: 0,
            server_timestamp_ms: now_timestamp_ms(),
            content_type: ContentType::MessagePack,
            flag,
        }
    }

    /// Serializes the six fields in the fixed little-endian layout.
    pub fn to_bytes(&self) -> (r: Vec<u8>)
        ensures
            r@ == spec_encode_header(*self),
            r@.len() == HEADER_SIZE,
    {
        let mut buf: Vec<u8> = Vec::with_capacity(HEADER_SIZE);
        let mut part = u32_to_le_bytes(self.magic);
        buf.append(&mut part);
        let mut part = u32_to_le_bytes(self.version);
        buf.append(&mut part);
        let mut part = u64_to_le_bytes(self.body_length);
        buf.append(&mut part);
        let mut part = u64_to_le_bytes(self.server_timestamp_ms);
        buf.append(&mut part);
        let mut part = u16_to_le_bytes(self.content_type.as_u16());
        buf.append(&mut part);
        let mut part = u16_to_le_bytes(self.flag.as_u16());
        buf.append(&mut part);
        buf
    }

    /// Reads a header back from the first `HEADER_SIZE` bytes of a buffer.
    /// Fails with `ShortBuffer` on a buffer shorter than that, `BadMagic`
    /// before any other field is trusted, and the unknown-enumerator errors
    /// for content-type and method values outside the known sets.
    pub fn from_bytes(bytes: &[u8]) -> (r: Result<RRCPHeader, RrcpError>)
        ensures
            r == spec_decode_header(bytes@),
    {
        if bytes.len() < HEADER_SIZE {
            return Err(RrcpError::ShortBuffer);
        }
        let magic = u32_from_le_bytes(slice_subrange(bytes, 0, 4));
        if magic != MAGIC_NUMBER {
            return Err(RrcpError::BadMagic);
        }
        let version = u32_from_le_bytes(slice_subrange(bytes, 4, 8));
        let body_length = u64_from_le_bytes(slice_subrange(bytes, 8, 16));
        let server_timestamp_ms = u64_from_le_bytes(slice_subrange(bytes, 16, 24));
        let content_type = ContentType::from_u16(u16_from_le_bytes(slice_subrange(bytes, 24, 26)))?;
        let flag = Flag::from_u16(u16_from_le_bytes(slice_subrange(bytes, 26, 28)))?;
        Ok(
            RRCPHeader {
                magic,
                version,
                body_length,
                server_timestamp_ms,
                content_type,
                flag,
            },
        )
    }
}

/// `bytes` with bit `k` of byte `i` flipped.
pub open spec fn flip_bit(bytes: Seq<u8>, i: int, k: u8) -> Seq<u8> {
    bytes.update(i, bytes[i] ^ (1u8 << k))
}

/// Round trip: decoding an encoded header gives the header back, for every
/// header whose magic field holds the protocol constant.
pub proof fn lemma_header_round_trip(h: RRCPHeader)
    requires
        h.magic == MAGIC_NUMBER,
    ensures
        spec_decode_header(spec_encode_header(h)) == Ok::<RRCPHeader, RrcpError>(h),
{
    vstd::bytes::lemma_auto_spec_u16_to_from_le_bytes();
    vstd::bytes::lemma_auto_spec_u32_to_from_le_bytes();
    vstd::bytes::lemma_auto_spec_u64_to_from_le_bytes();
    let b = spec_encode_header(h);
    assert(b.subrange(0, 4) =~= spec_u32_to_le_bytes(h.magic));
    assert(b.subrange(4, 8) =~= spec_u32_to_le_bytes(h.version));
    assert(b.subrange(8, 16) =~= spec_u64_to_le_bytes(h.body_length));
    assert(b.subrange(16, 24) =~= spec_u64_to_le_bytes(h.server_timestamp_ms));
    assert(b.subrange(24, 26) =~= spec_u16_to_le_bytes(content_type_value(h.content_type)));
    assert(b.subrange(26, 28) =~= spec_u16_to_le_bytes(flag_value(h.flag)));
}

/// Rejection: a buffer shorter than `HEADER_SIZE` always decodes to the
/// short-buffer error; no header is ever built from it.
pub proof fn lemma_short_buffer_rejected(bytes: Seq<u8>)
    requires
        bytes.len() < HEADER_SIZE,
    ensures
        spec_decode_header(bytes) == Err::<RRCPHeader, RrcpError>(RrcpError::ShortBuffer),
{
}

/// Magic guard: flipping any single bit of the magic field in an encoded
/// header makes decoding fail with the bad-magic error, whatever the other
/// fields hold.
pub proof fn lemma_magic_bit_flip_rejected(h: RRCPHeader, i: int, k: u8)
    requires
        h.magic == MAGIC_NUMBER,
        0 <= i < 4,
        k < 8,
    ensures
        spec_decode_header(flip_bit(spec_encode_header(h), i, k)) == Err::<
            RRCPHeader,
            RrcpError,
        >(RrcpError::BadMagic),
{
    vstd::bytes::lemma_auto_spec_u16_to_from_le_bytes();
    vstd::bytes::lemma_auto_spec_u32_to_from_le_bytes();
    vstd::bytes::lemma_auto_spec_u64_to_from_le_bytes();
    let b = spec_encode_header(h);
    let b2 = flip_bit(b, i, k);
    assert(b.len() == HEADER_SIZE);
    assert(b.subrange(0, 4) =~= spec_u32_to_le_bytes(h.magic));
    let x = b[i];
    assert(x ^ (1u8 << k) != x) by (bit_vector)
        requires
            k < 8,
    ;
    assert(b2.len() == b.len());
    let magic2 = spec_u32_from_le_bytes(b2.subrange(0, 4));
    if magic2 == MAGIC_NUMBER {
        assert(spec_u32_from_le_bytes(b.subrange(0, 4)) == MAGIC_NUMBER);
        assert(spec_u32_to_le_bytes(magic2) =~= b2.subrange(0, 4));
        assert(b2.subrange(0, 4) =~= b.subrange(0, 4));
        assert(b2[i] == b[i]);
        assert(false);
    }
}

/// Unknown-enumerator guard: with enough bytes and a good magic field, a
/// content-type value outside {0, 1} decodes to the unknown-content-type
/// error, deterministically.
pub proof fn lemma_unknown_content_type_rejected(bytes: Seq<u8>)
    requires
        bytes.len() >= HEADER_SIZE,
        spec_u32_from_le_bytes(bytes.subrange(0, 4)) == MAGIC_NUMBER,
        spec_u16_from_le_bytes(bytes.subrange(24, 26)) > 1,
    ensures
        spec_decode_header(bytes) == Err::<RRCPHeader, RrcpError>(RrcpError::UnknownContentType),
{
}

/// Unknown-enumerator guard: with enough bytes, a good magic field and a
/// known content type, a method value outside {0, 1, 2} decodes to the
/// unknown-method error, deterministically.
pub proof fn lemma_unknown_method_rejected(bytes: Seq<u8>)
    requires
        bytes.len() >= HEADER_SIZE,
        spec_u32_from_le_bytes(bytes.subrange(0, 4)) == MAGIC_NUMBER,
        spec_u16_from_le_bytes(bytes.subrange(24, 26)) <= 1,
        spec_u16_from_le_bytes(bytes.subrange(26, 28)) > 2,
    ensures
        spec_decode_header(bytes) == Err::<RRCPHeader, RrcpError>(RrcpError::UnknownMethod),
{
}

} // verus!
