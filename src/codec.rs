use vstd::bytes::*;
use vstd::prelude::*;
use vstd::slice::*;

use crate::packet::{Packet, PacketKind, PacketModel};

verus! {

// GenCam peers exchange packets as the JSON encoding of the `gencam_packet`
// crate's `GenCamPacket`. That crate is not published on the crates.io
// registry (neither as `gencam_packet` nor as `gencam-packet`), so its JSON
// shape cannot be built on here. This module defines a binary layout of the
// library's own instead, with its round trip proved below; peers that speak
// the JSON encoding cannot talk to a server built on it.

/// Bytes before the payload: the kind tag, the sequence number (8 bytes,
/// little-endian), the width and the height (4 bytes each, little-endian).
pub const HEADER_LEN: usize = 17;

/// Why inbound bytes are not a packet.
#[derive(Clone, Copy, Debug, PartialEq, Eq, Structural)]
pub enum DecodeError {
    Malformed,
}

pub open spec fn kind_tag(k: PacketKind) -> u8 {
    match k {
        PacketKind::ImageRequest => 0,
        PacketKind::Image => 1,
        PacketKind::Acknowledge => 2,
        PacketKind::Unknown => 3,
    }
}

pub open spec fn kind_of_tag(t: u8) -> Option<PacketKind> {
    if t == 0 {
        Some(PacketKind::ImageRequest)
    } else if t == 1 {
        Some(PacketKind::Image)
    } else if t == 2 {
        Some(PacketKind::Acknowledge)
    } else if t == 3 {
        Some(PacketKind::Unknown)
    } else {
        None
    }
}

/// The wire form of a packet: the header, then the payload if there is one.
pub open spec fn encode_spec(p: PacketModel) -> Seq<u8> {
    seq![kind_tag(p.kind)] + spec_u64_to_le_bytes(p.sequence) + spec_u32_to_le_bytes(p.width)
        + spec_u32_to_le_bytes(p.height) + match p.payload {
        Some(b) => b,
        None => Seq::empty(),
    }
}

/// The packet that a byte sequence stands for, if any: a full header with a
/// known tag, and bytes after the header only on an `Image` packet.
pub open spec fn decode_spec(b: Seq<u8>) -> Option<PacketModel> {
    if b.len() < HEADER_LEN {
        None
    } else {
        match kind_of_tag(b[0]) {
            None => None,
            Some(k) => if k != PacketKind::Image && b.len() != HEADER_LEN {
                None
            } else {
                Some(
                    PacketModel {
                        kind: k,
                        sequence: spec_u64_from_le_bytes(b.subrange(1, 9)),
                        width: spec_u32_from_le_bytes(b.subrange(9, 13)),
                        height: spec_u32_from_le_bytes(b.subrange(13, 17)),
                        payload: if k == PacketKind::Image {
                            Some(b.subrange(17, b.len() as int))
                        } else {
                            None
                        },
                    },
                )
            },
        }
    }
}

fn tag_of_kind(k: PacketKind) -> (r: u8)
    ensures
        r == kind_tag(k),
{
    match k {
        PacketKind::ImageRequest => 0,
        PacketKind::Image => 1,
        PacketKind::Acknowledge => 2,
        PacketKind::Unknown => 3,
    }
}

fn kind_from_tag(t: u8) -> (r: Option<PacketKind>)
    ensures
        r == kind_of_tag(t),
{
    if t == 0 {
        Some(PacketKind::ImageRequest)
    } else if t == 1 {
        Some(PacketKind::Image)
    } else if t == 2 {
        Some(PacketKind::Acknowledge)
    } else if t == 3 {
        Some(PacketKind::Unknown)
    } else {
        None
    }
}

/// The wire form of `p`. Never fails.
pub fn encode(p: &Packet) -> (r: Vec<u8>)
    ensures
        r@ == encode_spec(p@),
{
    let mut out: Vec<u8> = Vec::new();
    out.push(tag_of_kind(p.kind()));
    let seq_bytes = u64_to_le_bytes(p.sequence());
    out.extend_from_slice(seq_bytes.as_slice());
    let w_bytes = u32_to_le_bytes(p.width());
    out.extend_from_slice(w_bytes.as_slice());
    let h_bytes = u32_to_le_bytes(p.height());
    out.extend_from_slice(h_bytes.as_slice());
    match p.payload() {
        Some(v) => {
            out.extend_from_slice(v.as_slice());
        },
        None => {},
    }
    assert(out@ =~= encode_spec(p@));
    out
}

/// Reads a packet from its wire form. Malformed input is reported as an
/// error, never as a panic.
pub fn decode(b: &[u8]) -> (r: Result<Packet, DecodeError>)
    ensures
        r is Ok <==> decode_spec(b@) is Some,
        r matches Ok(p) ==> decode_spec(b@) == Some(p@),
        r matches Err(e) ==> e == DecodeError::Malformed,
{
    if b.len() < HEADER_LEN {
        return Err(DecodeError::Malformed);
    }
    let kind = match kind_from_tag(b[0]) {
        Some(k) => k,
        None => {
            return Err(DecodeError::Malformed);
        },
    };
    let is_image = match kind {
        PacketKind::Image => true,
        _ => false,
    };
    if !is_image && b.len() != HEADER_LEN {
        return Err(DecodeError::Malformed);
    }
    let sequence = u64_from_le_bytes(slice_subrange(b, 1, 9));
    let width = u32_from_le_bytes(slice_subrange(b, 9, 13));
    let height = u32_from_le_bytes(slice_subrange(b, 13, 17));
    let payload = if is_image {
        Some(slice_to_vec(slice_subrange(b, HEADER_LEN, b.len())))
    } else {
        None
    };
    match Packet::from_parts(kind, sequence, width, height, payload) {
        Some(p) => Ok(p),
        None => Err(DecodeError::Malformed),
    }
}

/// Decoding the wire form of a well-formed packet gives that packet back.
pub proof fn lemma_round_trip(p: PacketModel)
    requires
        p.wf(),
    ensures
        decode_spec(encode_spec(p)) == Some(p),
{
    lemma_auto_spec_u64_to_from_le_bytes();
    lemma_auto_spec_u32_to_from_le_bytes();
    let e = encode_spec(p);
    let s8 = spec_u64_to_le_bytes(p.sequence);
    let w4 = spec_u32_to_le_bytes(p.width);
    let h4 = spec_u32_to_le_bytes(p.height);
    assert(e.subrange(1, 9) =~= s8);
    assert(e.subrange(9, 13) =~= w4);
    assert(e.subrange(13, 17) =~= h4);
    match p.payload {
        Some(b) => {
            assert(e.subrange(17, e.len() as int) =~= b);
        },
        None => {},
    }
}

/// Every packet that decoding yields keeps the payload rule.
pub proof fn lemma_decode_wf(b: Seq<u8>)
    ensures
        decode_spec(b) matches Some(p) ==> p.wf(),
{
}

} // verus!
