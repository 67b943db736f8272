//! The frame envelope: a 12-byte header, the payload, and a 12-byte tail
//! that holds the checksum of the payload.

use vstd::prelude::*;

use crate::checksum::{checksum, crc32_iso_hdlc};
use crate::cursor::{get_u32_le, get_u8, rest_view, take, u32_at};
use crate::error::{MagicSite, ParseError};

verus! {

/// The header of a frame: 12 bytes on the wire.
#[derive(Debug, Clone, Copy, PartialEq, Eq)]
pub struct FrameHeader {
    /// The magic bytes `55 AA 05 0A`.
    pub header: [u8; 4],
    /// The packet type code.
    pub packet_type: u32,
    /// The length of the whole frame: header, payload and tail.
    pub packet_size: u32,
}

impl FrameHeader {
    /// The length of the header in bytes.
    pub const LEN: usize = 12;

    /// The bytes that open every frame.
    pub const FRAME_HEADER_ARRAY: [u8; 4] = [0x55, 0xAA, 0x05, 0x0A];

    /// Whether the magic field holds the magic bytes.
    pub open spec fn wf(self) -> bool {
        self.header@ == Self::FRAME_HEADER_ARRAY@
    }

    /// What reading a header from the front of `s` gives: the report that `s`
    /// is shorter than 12 bytes, else the report that its first four bytes are
    /// not the magic bytes, else the header and the bytes behind it.
    pub open spec fn spec_parse(s: Seq<u8>) -> Result<(FrameHeader, Seq<u8>), ParseError> {
        if s.len() < Self::LEN {
            Err(ParseError::InsufficientData { needed: Self::LEN, available: s.len() as usize })
        } else if s.subrange(0, 4) != Self::FRAME_HEADER_ARRAY@ {
            Err(ParseError::MagicMismatch { which: MagicSite::Header })
        } else {
            Ok(
                (
                    FrameHeader {
                        header: Self::FRAME_HEADER_ARRAY,
                        packet_type: u32_at(s, 4),
                        packet_size: u32_at(s, 8),
                    },
                    s.skip(Self::LEN as int),
                ),
            )
        }
    }

    /// Reads the header from the front of `bytes` and hands back the bytes
    /// that follow it.
    pub fn parse(bytes: &[u8]) -> (r: Result<(Self, &[u8]), ParseError>)
        ensures
            rest_view(r) == Self::spec_parse(bytes@),
            r matches Ok((header, _)) ==> header.wf(),
    {
        let (record, remainder) = take(bytes, Self::LEN)?;
        let (m0, record) = get_u8(record);
        let (m1, record) = get_u8(record);
        let (m2, record) = get_u8(record);
        let (m3, record) = get_u8(record);
        if m0 != 0x55 || m1 != 0xAA || m2 != 0x05 || m3 != 0x0A {
            assert(bytes@.subrange(0, 4) != Self::FRAME_HEADER_ARRAY@) by {
                let magic = Self::FRAME_HEADER_ARRAY@;
                let first = bytes@.subrange(0, 4);
                assert(first[0] == m0 && first[1] == m1 && first[2] == m2 && first[3] == m3);
                assert(magic[0] == 0x55 && magic[1] == 0xAA && magic[2] == 0x05 && magic[3]
                    == 0x0A);
            }
            return Err(ParseError::MagicMismatch { which: MagicSite::Header });
        }
        assert(bytes@.subrange(0, 4) =~= Self::FRAME_HEADER_ARRAY@);
        let (packet_type, record) = get_u32_le(record);
        let (packet_size, record) = get_u32_le(record);
        assert(record@.len() == 0);
        Ok(
            (
                FrameHeader { header: Self::FRAME_HEADER_ARRAY, packet_type, packet_size },
                remainder,
            ),
        )
    }
}

/// The tail of a frame: 12 bytes on the wire.
#[derive(Debug, Clone, Copy, PartialEq, Eq)]
pub struct FrameTail {
    /// The checksum of the payload.
    pub crc32: u32,
    /// Zero in frames that come from the device; not known in frames sent to it.
    pub msg_type_check: u32,
    /// Reserved.
    pub reserve: [u8; 2],
    /// The magic bytes `00 FF`.
    pub tail: [u8; 2],
}

impl FrameTail {
    /// The length of the tail in bytes.
    pub const LEN: usize = 12;

    /// The bytes that close every frame.
    pub const FRAME_TAIL_ARRAY: [u8; 2] = [0x00, 0xFF];

    /// Whether the magic field holds the magic bytes.
    pub open spec fn wf(self) -> bool {
        self.tail@ == Self::FRAME_TAIL_ARRAY@
    }

    /// What reading a tail from the front of `s` gives: the report that `s` is
    /// shorter than 12 bytes, else the report that the bytes at offsets 10 and
    /// 11 are not the magic bytes, else the tail and the bytes behind it.
    pub open spec fn spec_parse(s: Seq<u8>) -> Result<(FrameTail, Seq<u8>), ParseError> {
        if s.len() < Self::LEN {
            Err(ParseError::InsufficientData { needed: Self::LEN, available: s.len() as usize })
        } else if s.subrange(10, 12) != Self::FRAME_TAIL_ARRAY@ {
            Err(ParseError::MagicMismatch { which: MagicSite::Tail })
        } else {
            Ok(
                (
                    FrameTail {
                        crc32: u32_at(s, 0),
                        msg_type_check: u32_at(s, 4),
                        reserve: [s[8], s[9]],
                        tail: Self::FRAME_TAIL_ARRAY,
                    },
                    s.skip(Self::LEN as int),
                ),
            )
        }
    }

    /// Reads the tail from the front of `bytes` and hands back the bytes that
    /// follow it.
    pub fn parse(bytes: &[u8]) -> (r: Result<(Self, &[u8]), ParseError>)
        ensures
            rest_view(r) == Self::spec_parse(bytes@),
            r matches Ok((tail, _)) ==> tail.wf(),
    {
        let (record, remainder) = take(bytes, Self::LEN)?;
        let (crc32, record) = get_u32_le(record);
        let (msg_type_check, record) = get_u32_le(record);
        let (r0, record) = get_u8(record);
        let (r1, record) = get_u8(record);
        let (t0, record) = get_u8(record);
        let (t1, record) = get_u8(record);
        assert(record@.len() == 0);
        if t0 != 0x00 || t1 != 0xFF {
            assert(bytes@.subrange(10, 12) != Self::FRAME_TAIL_ARRAY@) by {
                let magic = Self::FRAME_TAIL_ARRAY@;
                let last = bytes@.subrange(10, 12);
                assert(last[0] == t0 && last[1] == t1);
                assert(magic[0] == 0x00 && magic[1] == 0xFF);
            }
            return Err(ParseError::MagicMismatch { which: MagicSite::Tail });
        }
        assert(bytes@.subrange(10, 12) =~= Self::FRAME_TAIL_ARRAY@);
        let tail = FrameTail {
            crc32,
            msg_type_check,
            reserve: [r0, r1],
            tail: Self::FRAME_TAIL_ARRAY,
        };
        proof {
            let model = Self::spec_parse(bytes@).unwrap().0;
            assert(tail.reserve =~= model.reserve);
        }
        Ok((tail, remainder))
    }
}

/// The length of header and tail together: the least size a frame can announce.
pub const ENVELOPE_LEN: usize = 24;

/// What cutting the payload out of the frame at the front of `s` gives: the
/// header, the payload and the bytes behind the payload. The header is read
/// first. A packet size below 24 leaves no room for a payload and is
/// rejected; so is a buffer that ends before the payload does.
pub open spec fn spec_split_payload(s: Seq<u8>) -> Result<
    (FrameHeader, Seq<u8>, Seq<u8>),
    ParseError,
> {
    match FrameHeader::spec_parse(s) {
        Err(e) => Err(e),
        Ok((header, rest)) => {
            let payload_len = header.packet_size - ENVELOPE_LEN;
            if payload_len < 0 {
                Err(ParseError::LengthUnderflow)
            } else if rest.len() < payload_len {
                Err(
                    ParseError::InsufficientData {
                        needed: payload_len as usize,
                        available: rest.len() as usize,
                    },
                )
            } else {
                Ok((header, rest.take(payload_len), rest.skip(payload_len)))
            }
        },
    }
}

/// What checking the bytes behind a payload gives, where `payload_crc` is
/// the checksum computed over the payload: the report that fewer than 12
/// bytes are there, else the report that the stored checksum differs from the
/// computed one, else what reading the tail gives.
pub open spec fn spec_check_tail(rest: Seq<u8>, payload_crc: u64) -> Result<
    (FrameTail, Seq<u8>),
    ParseError,
> {
    if rest.len() < FrameTail::LEN {
        Err(ParseError::InsufficientData { needed: FrameTail::LEN, available: rest.len() as usize })
    } else if payload_crc != u32_at(rest, 0) {
        Err(ParseError::CrcMismatch { expected: u32_at(rest, 0), computed: payload_crc })
    } else {
        FrameTail::spec_parse(rest)
    }
}

/// What taking the frame at the front of `s` apart gives: header, payload,
/// tail and the bytes behind the frame. The checksum is computed over the
/// payload alone.
pub open spec fn spec_decode_frame(s: Seq<u8>) -> Result<
    (FrameHeader, Seq<u8>, FrameTail, Seq<u8>),
    ParseError,
> {
    match spec_split_payload(s) {
        Err(e) => Err(e),
        Ok((header, payload, rest)) => match spec_check_tail(rest, crc32_iso_hdlc(payload)) {
            Err(e) => Err(e),
            Ok((tail, remainder)) => Ok((header, payload, tail, remainder)),
        },
    }
}

/// The frame length that the header at the front of `s` announces.
pub open spec fn announced_size(s: Seq<u8>) -> int {
    u32_at(s, 8) as int
}

/// The bytes of `s` between the header and the tail of the announced frame.
pub open spec fn payload_of(s: Seq<u8>) -> Seq<u8> {
    s.subrange(FrameHeader::LEN as int, announced_size(s) - FrameTail::LEN)
}

/// The checksum stored in the tail of the announced frame.
pub open spec fn stored_crc(s: Seq<u8>) -> u32 {
    u32_at(s, announced_size(s) - FrameTail::LEN)
}

/// The frame at the front of `s`, read off by offsets. With `n` the announced
/// size: the magic bytes lie at 0, the packet type at 4, the size at 8, the
/// payload from 12 to `n - 12`, the checksum at `n - 12`, the tail's magic
/// bytes at `n - 2`, and the next frame starts at `n`. The checks come in the
/// order of the offsets, the checksum before the tail's magic bytes.
pub open spec fn frame_by_offsets(s: Seq<u8>) -> Result<
    (FrameHeader, Seq<u8>, FrameTail, Seq<u8>),
    ParseError,
> {
    let n = announced_size(s);
    if s.len() < FrameHeader::LEN {
        Err(ParseError::InsufficientData { needed: FrameHeader::LEN, available: s.len() as usize })
    } else if s.subrange(0, 4) != FrameHeader::FRAME_HEADER_ARRAY@ {
        Err(ParseError::MagicMismatch { which: MagicSite::Header })
    } else if n < ENVELOPE_LEN {
        Err(ParseError::LengthUnderflow)
    } else if s.len() < n - FrameTail::LEN {
        Err(
            ParseError::InsufficientData {
                needed: (n - ENVELOPE_LEN) as usize,
                available: (s.len() - FrameHeader::LEN) as usize,
            },
        )
    } else if s.len() < n {
        Err(
            ParseError::InsufficientData {
                needed: FrameTail::LEN,
                available: (s.len() - (n - FrameTail::LEN)) as usize,
            },
        )
    } else if crc32_iso_hdlc(payload_of(s)) != stored_crc(s) {
        Err(
            ParseError::CrcMismatch {
                expected: stored_crc(s),
                computed: crc32_iso_hdlc(payload_of(s)),
            },
        )
    } else if s.subrange(n - 2, n) != FrameTail::FRAME_TAIL_ARRAY@ {
        Err(ParseError::MagicMismatch { which: MagicSite::Tail })
    } else {
        Ok(
            (
                FrameHeader {
                    header: FrameHeader::FRAME_HEADER_ARRAY,
                    packet_type: u32_at(s, 4),
                    packet_size: u32_at(s, 8),
                },
                payload_of(s),
                FrameTail {
                    crc32: stored_crc(s),
                    msg_type_check: u32_at(s, n - 8),
                    reserve: [s[n - 4], s[n - 3]],
                    tail: FrameTail::FRAME_TAIL_ARRAY,
                },
                s.skip(n),
            ),
        )
    }
}

/// Whether `s` starts with a frame whose envelope is in order: the magic
/// bytes open it, the announced size holds header and tail and does not reach
/// past the end of `s`, the stored checksum is that of the payload, and the
/// tail's magic bytes close it.
pub open spec fn starts_with_frame(s: Seq<u8>) -> bool {
    let n = announced_size(s);
    &&& s.len() >= FrameHeader::LEN
    &&& s.subrange(0, 4) == FrameHeader::FRAME_HEADER_ARRAY@
    &&& ENVELOPE_LEN <= n <= s.len()
    &&& crc32_iso_hdlc(payload_of(s)) == stored_crc(s)
    &&& s.subrange(n - 2, n) == FrameTail::FRAME_TAIL_ARRAY@
}

/// Taking a frame apart field by field gives what the offsets say, and it
/// succeeds exactly on the buffers that start with a frame whose envelope is
/// in order.
pub proof fn lemma_frame_by_offsets(s: Seq<u8>)
    ensures
        spec_decode_frame(s) == frame_by_offsets(s),
        spec_decode_frame(s) is Ok <==> starts_with_frame(s),
{
    let n = announced_size(s);
    if s.len() >= FrameHeader::LEN && s.subrange(0, 4) == FrameHeader::FRAME_HEADER_ARRAY@ && n
        >= ENVELOPE_LEN && s.len() >= n - FrameTail::LEN {
        let after_header = s.skip(FrameHeader::LEN as int);
        let payload = after_header.take(n - ENVELOPE_LEN);
        let rest = after_header.skip(n - ENVELOPE_LEN);
        assert(payload =~= payload_of(s));
        assert(rest =~= s.skip(n - FrameTail::LEN));
        assert(spec_split_payload(s) is Ok);
        assert(spec_split_payload(s).unwrap().1 == payload);
        assert(spec_split_payload(s).unwrap().2 == rest);
        if s.len() >= n {
            assert(u32_at(rest, 0) == stored_crc(s));
            assert(u32_at(rest, 4) == u32_at(s, n - 8));
            assert(rest.subrange(10, 12) =~= s.subrange(n - 2, n));
            assert(rest.skip(FrameTail::LEN as int) =~= s.skip(n));
            if crc32_iso_hdlc(payload_of(s)) == stored_crc(s) && s.subrange(n - 2, n)
                == FrameTail::FRAME_TAIL_ARRAY@ {
                let tail = spec_check_tail(rest, crc32_iso_hdlc(payload)).unwrap().0;
                let by_offsets = frame_by_offsets(s).unwrap().2;
                assert(tail.reserve =~= by_offsets.reserve);
            }
        }
    }
}

/// Reads the header of the frame at the front of `input` and cuts out the
/// payload that it announces. Hands back the header, the payload and the
/// bytes behind the payload.
pub fn split_payload(input: &[u8]) -> (r: Result<(FrameHeader, &[u8], &[u8]), ParseError>)
    ensures
        match r {
            Ok((header, payload, rest)) => spec_split_payload(input@) == Ok::<
                (FrameHeader, Seq<u8>, Seq<u8>),
                ParseError,
            >((header, payload@, rest@)),
            Err(e) => spec_split_payload(input@) == Err::<
                (FrameHeader, Seq<u8>, Seq<u8>),
                ParseError,
            >(e),
        },
        r matches Ok((header, _, _)) ==> header.wf(),
{
    let (header, rest) = FrameHeader::parse(input)?;
    let payload_len = match (header.packet_size as usize).checked_sub(ENVELOPE_LEN) {
        Some(payload_len) => payload_len,
        None => { return Err(ParseError::LengthUnderflow); },
    };
    let (payload, rest) = take(rest, payload_len)?;
    Ok((header, payload, rest))
}

/// Checks the bytes behind a payload against the checksum `payload_crc`
/// computed over the payload, and reads the tail from them. Hands back the
/// tail and the bytes behind it.
pub fn check_tail(rest: &[u8], payload_crc: u64) -> (r: Result<(FrameTail, &[u8]), ParseError>)
    ensures
        rest_view(r) == spec_check_tail(rest@, payload_crc),
        r matches Ok((tail, _)) ==> tail.wf() && tail.crc32 == payload_crc,
{
    if rest.len() < FrameTail::LEN {
        return Err(
            ParseError::InsufficientData { needed: FrameTail::LEN, available: rest.len() },
        );
    }
    let (stored, _) = get_u32_le(rest);
    if payload_crc != u64::from(stored) {
        return Err(ParseError::CrcMismatch { expected: stored, computed: payload_crc });
    }
    FrameTail::parse(rest)
}

/// Takes the frame at the front of `input` apart. Hands back the header, the
/// payload, the tail and the bytes that follow the frame.
pub fn decode_frame(input: &[u8]) -> (r: Result<
    (FrameHeader, &[u8], FrameTail, &[u8]),
    ParseError,
>)
    ensures
        match r {
            Ok((header, payload, tail, remainder)) => spec_decode_frame(input@) == Ok::<
                (FrameHeader, Seq<u8>, FrameTail, Seq<u8>),
                ParseError,
            >((header, payload@, tail, remainder@)),
            Err(e) => spec_decode_frame(input@) == Err::<
                (FrameHeader, Seq<u8>, FrameTail, Seq<u8>),
                ParseError,
            >(e),
        },
        r matches Ok((header, _, tail, _)) ==> header.wf() && tail.wf(),
        r is Ok <==> starts_with_frame(input@),
{
    proof {
        lemma_frame_by_offsets(input@);
    }
    let (header, payload, rest) = split_payload(input)?;
    let payload_crc = checksum(payload);
    let (tail, remainder) = check_tail(rest, payload_crc)?;
    Ok((header, payload, tail, remainder))
}

} // verus!
