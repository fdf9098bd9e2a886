//! The header that every datagram starts with, 29 bytes long.
use vstd::prelude::*;
use crate::codes::PacketId;
use crate::wire::{
    bytes16, bytes32, bytes64, le16, le32, le64, lemma_le16_round_trip, lemma_le32_round_trip,
    lemma_le64_round_trip, push_u16, push_u32, push_u64, read_u16, read_u32, read_u64, read_u8,
};

verus! {

pub const HEADER_SIZE: usize = 29;

/// The packet header; `sessionTime` holds the IEEE-754 bits of the session
/// timestamp.
#[derive(Debug, Clone, Copy, PartialEq, Eq, Structural)]
pub struct Header {
    pub packetFormat: u16,
    pub gameYear: u8,
    pub gameMajorVersion: u8,
    pub gameMinorVersion: u8,
    pub packetVersion: u8,
    pub packetId: PacketId,
    pub sessionUID: u64,
    pub sessionTime: u32,
    pub frameIdentifier: u32,
    pub overallFrameIdentifier: u32,
    pub playerCarIndex: u8,
    pub secondaryPlayerCarIndex: u8,
}

/// The packet ids that the wire format defines.
pub open spec fn known_packet_id(b: u8) -> bool {
    b <= 15
}

impl Header {
    /// This header is what the 29 bytes of `b` at `o` encode.
    pub open spec fn matches_bytes(self, b: Seq<u8>, o: int) -> bool {
        &&& self.packetFormat == le16(b, o)
        &&& self.gameYear == b[o + 2]
        &&& self.gameMajorVersion == b[o + 3]
        &&& self.gameMinorVersion == b[o + 4]
        &&& self.packetVersion == b[o + 5]
        &&& self.packetId == PacketId::from_code(b[o + 6])
        &&& self.sessionUID == le64(b, o + 7)
        &&& self.sessionTime == le32(b, o + 15)
        &&& self.frameIdentifier == le32(b, o + 19)
        &&& self.overallFrameIdentifier == le32(b, o + 23)
        &&& self.playerCarIndex == b[o + 27]
        &&& self.secondaryPlayerCarIndex == b[o + 28]
    }

    /// The 29 bytes that encode this header.
    pub open spec fn encoding(self) -> Seq<u8> {
        bytes16(self.packetFormat) + seq![
            self.gameYear,
            self.gameMajorVersion,
            self.gameMinorVersion,
            self.packetVersion,
            self.packetId.code(),
        ] + bytes64(self.sessionUID) + bytes32(self.sessionTime) + bytes32(self.frameIdentifier)
            + bytes32(self.overallFrameIdentifier) + seq![
            self.playerCarIndex,
            self.secondaryPlayerCarIndex,
        ]
    }

    /// The header given to a datagram too short to hold one: every field
    /// zero and the packet id poisoned.
    pub open spec fn truncated() -> Header {
        Header {
            packetFormat: 0,
            gameYear: 0,
            gameMajorVersion: 0,
            gameMinorVersion: 0,
            packetVersion: 0,
            packetId: PacketId::Poisoned,
            sessionUID: 0,
            sessionTime: 0,
            frameIdentifier: 0,
            overallFrameIdentifier: 0,
            playerCarIndex: 0,
            secondaryPlayerCarIndex: 0,
        }
    }

    /// Reads the header; a datagram shorter than a header gives the
    /// truncated header, whose packet id is poisoned.
    pub fn unpack(bytes: &[u8]) -> (r: Self)
        ensures
            bytes@.len() >= HEADER_SIZE ==> r.matches_bytes(bytes@, 0),
            bytes@.len() < HEADER_SIZE ==> r == Header::truncated(),
    {
        if bytes.len() < HEADER_SIZE {
            return Header {
                packetFormat: 0,
                gameYear: 0,
                gameMajorVersion: 0,
                gameMinorVersion: 0,
                packetVersion: 0,
                packetId: PacketId::Poisoned,
                sessionUID: 0,
                sessionTime: 0,
                frameIdentifier: 0,
                overallFrameIdentifier: 0,
                playerCarIndex: 0,
                secondaryPlayerCarIndex: 0,
            };
        }
        Header {
            packetFormat: read_u16(bytes, 0),
            gameYear: read_u8(bytes, 2),
            gameMajorVersion: read_u8(bytes, 3),
            gameMinorVersion: read_u8(bytes, 4),
            packetVersion: read_u8(bytes, 5),
            packetId: PacketId::from_u8(read_u8(bytes, 6)),
            sessionUID: read_u64(bytes, 7),
            sessionTime: read_u32(bytes, 15),
            frameIdentifier: read_u32(bytes, 19),
            overallFrameIdentifier: read_u32(bytes, 23),
            playerCarIndex: read_u8(bytes, 27),
            secondaryPlayerCarIndex: read_u8(bytes, 28),
        }
    }

    /// The header written back as its 29 wire bytes.
    pub fn pack(&self) -> (r: Vec<u8>)
        ensures
            r@ == self.encoding(),
    {
        let mut r: Vec<u8> = Vec::new();
        push_u16(&mut r, self.packetFormat);
        r.push(self.gameYear);
        r.push(self.gameMajorVersion);
        r.push(self.gameMinorVersion);
        r.push(self.packetVersion);
        r.push(self.packetId.to_u8());
        push_u64(&mut r, self.sessionUID);
        push_u32(&mut r, self.sessionTime);
        push_u32(&mut r, self.frameIdentifier);
        push_u32(&mut r, self.overallFrameIdentifier);
        r.push(self.playerCarIndex);
        r.push(self.secondaryPlayerCarIndex);
        assert(r@ =~= self.encoding());
        r
    }
}

/// Encoding a decoded header reproduces the 29 bytes it was read from,
/// whenever its packet id is one that the wire format defines.
pub proof fn lemma_header_round_trip(h: Header, b: Seq<u8>)
    requires
        b.len() >= HEADER_SIZE,
        h.matches_bytes(b, 0),
        known_packet_id(b[6]),
    ensures
        h.encoding() == b.subrange(0, HEADER_SIZE as int),
{
    lemma_le16_round_trip(b, 0);
    lemma_le64_round_trip(b, 7);
    lemma_le32_round_trip(b, 15);
    lemma_le32_round_trip(b, 19);
    lemma_le32_round_trip(b, 23);
    assert(h.packetId.code() == b[6]);
    assert(h.encoding() =~= b.subrange(0, HEADER_SIZE as int));
}

} // verus!
