//! How decoding behaves when bytes of a frame are changed and when bytes
//! follow a frame.

use vstd::prelude::*;

use crate::checksum::crc32_iso_hdlc;
use crate::cursor::u32_at;
use crate::error::{MagicSite, ParseError};
use crate::frame::{
    announced_size,
    lemma_frame_by_offsets,
    payload_of,
    starts_with_frame,
    stored_crc,
    FrameHeader,
    FrameTail,
};
use crate::packet::{lemma_parse_well_formed, well_formed_frame, Packet, PacketView};

verus! {

/// Changing any one of the four magic bytes that open a buffer makes
/// decoding fail on the header's magic bytes. This holds of every buffer of
/// at least 12 bytes that starts with the magic bytes, so of every frame.
pub proof fn lemma_header_magic_changed(s: Seq<u8>, i: int, b: u8)
    requires
        s.len() >= FrameHeader::LEN,
        s.subrange(0, 4) == FrameHeader::FRAME_HEADER_ARRAY@,
        0 <= i < 4,
        b != s[i],
    ensures
        Packet::spec_parse(s.update(i, b)) == Err::<(PacketView, Seq<u8>), ParseError>(
            ParseError::MagicMismatch { which: MagicSite::Header },
        ),
{
    let t = s.update(i, b);
    lemma_frame_by_offsets(t);
    assert(t.subrange(0, 4)[i] == b);
    assert(s.subrange(0, 4)[i] == s[i]);
}

/// What a change of one byte behind the header leaves as it was: the magic
/// bytes and the announced size.
proof fn lemma_header_kept(s: Seq<u8>, i: int, b: u8)
    requires
        FrameHeader::LEN <= i < s.len(),
    ensures
        s.update(i, b).subrange(0, 4) == s.subrange(0, 4),
        u32_at(s.update(i, b), 4) == u32_at(s, 4),
        announced_size(s.update(i, b)) == announced_size(s),
{
    assert(s.update(i, b).subrange(0, 4) =~= s.subrange(0, 4));
}

/// Changing any one of the two magic bytes that close a frame makes decoding
/// fail on the tail's magic bytes.
pub proof fn lemma_tail_magic_changed(s: Seq<u8>, i: int, b: u8)
    requires
        starts_with_frame(s),
        announced_size(s) - 2 <= i < announced_size(s),
        b != s[i],
    ensures
        Packet::spec_parse(s.update(i, b)) == Err::<(PacketView, Seq<u8>), ParseError>(
            ParseError::MagicMismatch { which: MagicSite::Tail },
        ),
{
    let n = announced_size(s);
    let t = s.update(i, b);
    lemma_header_kept(s, i, b);
    lemma_frame_by_offsets(t);
    assert(payload_of(t) =~= payload_of(s));
    assert(stored_crc(t) == stored_crc(s));
    assert(t.subrange(n - 2, n)[i - (n - 2)] == b);
    assert(s.subrange(n - 2, n)[i - (n - 2)] == s[i]);
}

/// Changing any one byte of the checksum stored in a frame, with the
/// payload as it was, makes decoding fail on the checksum. The error carries
/// the changed stored value and the checksum of the payload.
pub proof fn lemma_stored_crc_changed(s: Seq<u8>, i: int, b: u8)
    requires
        starts_with_frame(s),
        announced_size(s) - 12 <= i < announced_size(s) - 8,
        b != s[i],
    ensures
        stored_crc(s.update(i, b)) != stored_crc(s),
        Packet::spec_parse(s.update(i, b)) == Err::<(PacketView, Seq<u8>), ParseError>(
            ParseError::CrcMismatch {
                expected: stored_crc(s.update(i, b)),
                computed: crc32_iso_hdlc(payload_of(s)),
            },
        ),
{
    let t = s.update(i, b);
    lemma_header_kept(s, i, b);
    lemma_frame_by_offsets(t);
    assert(payload_of(t) =~= payload_of(s));
}

/// Changing any one byte of the payload of a frame, with the stored checksum
/// as it was, makes decoding fail on the checksum, provided the checksum tells
/// the changed payload from the one it was computed over. The error carries
/// the stored value and the checksum of the changed payload.
pub proof fn lemma_payload_changed(s: Seq<u8>, i: int, b: u8)
    requires
        starts_with_frame(s),
        FrameHeader::LEN <= i < announced_size(s) - FrameTail::LEN,
        b != s[i],
        crc32_iso_hdlc(payload_of(s).update(i - FrameHeader::LEN, b)) != crc32_iso_hdlc(
            payload_of(s),
        ),
    ensures
        Packet::spec_parse(s.update(i, b)) == Err::<(PacketView, Seq<u8>), ParseError>(
            ParseError::CrcMismatch {
                expected: stored_crc(s),
                computed: crc32_iso_hdlc(payload_of(s).update(i - FrameHeader::LEN, b)),
            },
        ),
{
    let t = s.update(i, b);
    lemma_header_kept(s, i, b);
    lemma_frame_by_offsets(t);
    assert(payload_of(t) =~= payload_of(s).update(i - FrameHeader::LEN, b));
    assert(stored_crc(t) == stored_crc(s));
}

/// Of a frame that has arrived in part only, decoding reports missing data:
/// from a buffer that starts with a frame, cut anywhere within that frame, no
/// packet and no other error comes. A caller may keep such bytes and try
/// again when more have arrived.
pub proof fn lemma_cut_frame_lacks_data(s: Seq<u8>, k: int)
    requires
        starts_with_frame(s),
        0 <= k < announced_size(s),
    ensures
        Packet::spec_parse(s.take(k)) matches Err(e) && e is InsufficientData,
{
    let t = s.take(k);
    lemma_frame_by_offsets(t);
    if k >= FrameHeader::LEN {
        assert(t.subrange(0, 4) =~= s.subrange(0, 4));
        assert(announced_size(t) == announced_size(s));
    }
}

/// Decoding looks at the first frame only: whatever follows a frame that
/// decodes, the packet is the same and the remainder grows by what follows.
pub proof fn lemma_parse_ignores_what_follows(a: Seq<u8>, b: Seq<u8>)
    requires
        Packet::spec_parse(a) is Ok,
    ensures
        Packet::spec_parse(a + b) == Ok::<(PacketView, Seq<u8>), ParseError>(
            (Packet::spec_parse(a).unwrap().0, Packet::spec_parse(a).unwrap().1 + b),
        ),
{
    let c = a + b;
    let n = announced_size(a);
    lemma_frame_by_offsets(a);
    lemma_frame_by_offsets(c);
    assert(c.subrange(0, 4) =~= a.subrange(0, 4));
    assert(announced_size(c) == n);
    assert(payload_of(c) =~= payload_of(a));
    assert(stored_crc(c) == stored_crc(a));
    assert(c.subrange(n - 2, n) =~= a.subrange(n - 2, n));
    assert(c.skip(n) =~= a.skip(n) + b);
}

/// Two well-formed frames back to back decode one after the other: the first
/// call gives the first packet and hands back exactly the second frame, the
/// second call gives the second packet and hands back nothing.
pub proof fn lemma_parse_two_frames(a: Seq<u8>, b: Seq<u8>)
    requires
        well_formed_frame(a),
        announced_size(a) == a.len(),
        well_formed_frame(b),
        announced_size(b) == b.len(),
    ensures
        Packet::spec_parse(a + b) == Ok::<(PacketView, Seq<u8>), ParseError>(
            (Packet::spec_decode(u32_at(a, 4), payload_of(a)).unwrap(), b),
        ),
        Packet::spec_parse(b) == Ok::<(PacketView, Seq<u8>), ParseError>(
            (Packet::spec_decode(u32_at(b, 4), payload_of(b)).unwrap(), Seq::empty()),
        ),
{
    lemma_parse_well_formed(a);
    lemma_parse_well_formed(b);
    lemma_parse_ignores_what_follows(a, b);
    assert(a.skip(a.len() as int) + b =~= b);
    assert(b.skip(b.len() as int) =~= Seq::<u8>::empty());
}

} // verus!
