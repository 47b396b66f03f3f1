use vstd::prelude::*;
use vstd::slice::slice_subrange;

use crate::errors::RrcpError;
use crate::header::{
    spec_decode_header, spec_encode_header, ContentType, Flag, RRCPHeader, HEADER_SIZE,
};

verus! {

/// The mathematical model of a frame: a header and the body bytes.
pub struct FrameView {
    pub header: RRCPHeader,
    pub body: Seq<u8>,
}

/// One protocol frame: a header followed by an opaque body whose length the
/// header declares.
#[derive(Debug, PartialEq)]
pub struct RrcpFrame {
    pub header: RRCPHeader,
    pub body: Vec<u8>,
}

impl View for RrcpFrame {
    type V = FrameView;

    open spec fn view(&self) -> FrameView {
        FrameView { header: self.header, body: self.body@ }
    }
}

/// A frame is well formed when its header's declared body length equals the
/// body's actual length.
pub open spec fn frame_wf(f: FrameView) -> bool {
    f.header.body_length == f.body.len()
}

/// What splitting a delivered byte sequence into a frame yields: the frame,
/// or a truncation error where the stream closed before a whole header or a
/// whole body arrived, or the header decoder's own rejection. Bytes beyond
/// the declared body are left unread.
pub open spec fn spec_decode_frame(bytes: Seq<u8>) -> Result<FrameView, RrcpError> {
    if bytes.len() < HEADER_SIZE {
        Err(RrcpError::TruncatedFrame)
    } else {
        match spec_decode_header(bytes.subrange(0, HEADER_SIZE as int)) {
            Err(e) => Err(e),
            Ok(header) => if bytes.len() - HEADER_SIZE < header.body_length {
                Err(RrcpError::TruncatedFrame)
            } else {
                Ok(
                    FrameView {
                        header,
                        body: bytes.subrange(
                            HEADER_SIZE as int,
                            HEADER_SIZE + header.body_length as int,
                        ),
                    },
                )
            },
        }
    }
}

impl RrcpFrame {
    /// A request frame for the given method, carrying `body`: the header is
    /// built fresh and its declared body length is computed from the body
    /// itself, so the two cannot fall out of step.
    pub fn new_request(flag: Flag, body: Vec<u8>) -> (f: RrcpFrame)
        ensures
            frame_wf(f@),
            f.header.magic == crate::header::MAGIC_NUMBER,
            f.header.version == crate::header::RRCP_VERSION,
            f.header.body_length == body@.len(),
            f.header.content_type == ContentType::MessagePack,
            f.header.flag == flag,
            f.body@ == body@,
    {
        let mut header = RRCPHeader::new_with_flag(flag);
        header.body_length = body.len() as u64;
        RrcpFrame { header, body }
    }

    /// The frame's wire form: header bytes followed verbatim by the body.
    pub fn to_bytes(&self) -> (r: Vec<u8>)
        ensures
            r@ == spec_encode_header(self.header) + self.body@,
            r@.len() == HEADER_SIZE + self.body@.len(),
    {
        let mut buf = self.header.to_bytes();
        let mut body = Vec::new();
        body.extend_from_slice(self.body.as_slice());
        buf.append(&mut body);
        buf
    }

    /// Splits a delivered byte sequence into a complete frame, or reports
    /// why it is not one: a whole valid frame or an error, never a partial
    /// result. The returned frame is well formed.
    pub fn from_bytes(bytes: &[u8]) -> (r: Result<RrcpFrame, RrcpError>)
        ensures
            match r {
                Ok(f) => spec_decode_frame(bytes@) == Ok::<FrameView, RrcpError>(f@) && frame_wf(
                    f@,
                ),
                Err(e) => spec_decode_frame(bytes@) == Err::<FrameView, RrcpError>(e),
            },
    {
        if bytes.len() < HEADER_SIZE {
            return Err(RrcpError::TruncatedFrame);
        }
        let header_bytes = slice_subrange(bytes, 0, HEADER_SIZE);
        let header = match RRCPHeader::from_bytes(header_bytes) {
            Ok(h) => h,
            Err(e) => {
                return Err(e);
            },
        };
        if ((bytes.len() - HEADER_SIZE) as u64) < header.body_length {
            return Err(RrcpError::TruncatedFrame);
        }
        let body_end = HEADER_SIZE + header.body_length as usize;
        let mut body = Vec::new();
        body.extend_from_slice(slice_subrange(bytes, HEADER_SIZE, body_end));
        proof {
            assert(body@ =~= bytes@.subrange(
                HEADER_SIZE as int,
                HEADER_SIZE + header.body_length as int,
            ));
        }
        Ok(RrcpFrame { header, body })
    }
}

/// Round trip for whole frames: the wire form of a well-formed frame with a
/// good magic field splits back into exactly that frame.
pub proof fn lemma_frame_round_trip(f: FrameView)
    requires
        f.header.magic == crate::header::MAGIC_NUMBER,
        frame_wf(f),
    ensures
        spec_decode_frame(spec_encode_header(f.header) + f.body) == Ok::<FrameView, RrcpError>(f),
{
    crate::header::lemma_header_round_trip(f.header);
    let bytes = spec_encode_header(f.header) + f.body;
    vstd::bytes::lemma_auto_spec_u16_to_from_le_bytes();
    vstd::bytes::lemma_auto_spec_u32_to_from_le_bytes();
    vstd::bytes::lemma_auto_spec_u64_to_from_le_bytes();
    assert(spec_encode_header(f.header).len() == HEADER_SIZE);
    assert(bytes.subrange(0, HEADER_SIZE as int) =~= spec_encode_header(f.header));
    assert(bytes.subrange(HEADER_SIZE as int, HEADER_SIZE + f.header.body_length as int)
        =~= f.body);
}

/// Frame integrity: a byte sequence of exactly `HEADER_SIZE + n` bytes whose
/// header declares a body of `n` bytes splits into a frame whose body length
/// is exactly `n`; one byte fewer is a truncation error, not a short frame.
pub proof fn lemma_frame_integrity(bytes: Seq<u8>, n: u64)
    requires
        bytes.len() == HEADER_SIZE + n,
        spec_decode_header(bytes.subrange(0, HEADER_SIZE as int)) is Ok,
        spec_decode_header(bytes.subrange(0, HEADER_SIZE as int)) matches Ok(h) && h.body_length
            == n,
    ensures
        spec_decode_frame(bytes) is Ok,
        spec_decode_frame(bytes) matches Ok(f) && f.body.len() == n,
        spec_decode_frame(bytes.drop_last()) == Err::<FrameView, RrcpError>(
            RrcpError::TruncatedFrame,
        ),
{
    if n == 0 {
        assert(bytes.drop_last().len() < HEADER_SIZE);
    } else {
        assert(bytes.drop_last().subrange(0, HEADER_SIZE as int) =~= bytes.subrange(
            0,
            HEADER_SIZE as int,
        ));
    }
}

} // verus!
