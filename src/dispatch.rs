//! Reads the header of a datagram and routes it to the decoder of its packet.
use vstd::prelude::*;
use crate::codes::PacketId;
use crate::event::{event_size, EventType, PacketEvent, EVENT_BODY_AT};
use crate::wire::read_bytes;
use crate::header::{Header, HEADER_SIZE};
use crate::packet::{
    PacketMotion, PacketSession, PacketLap, PacketParticipants, PacketCarSetups, PacketCarTelemetry, PacketCarStatus, PacketFinalClassification, PacketLobbyInfo, PacketCarDamage, PacketSessionHistory, PACKET_MOTION_SIZE, PACKET_SESSION_SIZE, PACKET_LAP_SIZE, PACKET_PARTICIPANTS_SIZE, PACKET_CAR_SETUPS_SIZE, PACKET_CAR_TELEMETRY_SIZE, PACKET_CAR_STATUS_SIZE, PACKET_FINAL_CLASSIFICATION_SIZE, PACKET_LOBBY_INFO_SIZE, PACKET_CAR_DAMAGE_SIZE, PACKET_SESSION_HISTORY_SIZE,
};

verus! {

/// A decoded packet; `Unknown` for an id that is not decoded here or a
/// datagram too short for its packet.
#[derive(Debug, Clone)]
pub enum Packet {
    Motion(PacketMotion),
    Session(PacketSession),
    Lap(PacketLap),
    Event(PacketEvent),
    Participants(PacketParticipants),
    CarSetups(PacketCarSetups),
    CarTelemetry(PacketCarTelemetry),
    CarStatus(PacketCarStatus),
    FinalClassification(PacketFinalClassification),
    LobbyInfo(PacketLobbyInfo),
    CarDamage(PacketCarDamage),
    SessionHistory(PacketSessionHistory),
    Unknown,
}

/// The length of the packets of each id that is decoded (for events, the
/// length before the body); zero for the others.
pub open spec fn packet_size(id: PacketId) -> int {
    match id {
        PacketId::Motion => PACKET_MOTION_SIZE as int,
        PacketId::Session => PACKET_SESSION_SIZE as int,
        PacketId::Lap => PACKET_LAP_SIZE as int,
        PacketId::Event => EVENT_BODY_AT as int,
        PacketId::Participants => PACKET_PARTICIPANTS_SIZE as int,
        PacketId::CarSetups => PACKET_CAR_SETUPS_SIZE as int,
        PacketId::CarTelemetry => PACKET_CAR_TELEMETRY_SIZE as int,
        PacketId::CarStatus => PACKET_CAR_STATUS_SIZE as int,
        PacketId::FinalClassification => PACKET_FINAL_CLASSIFICATION_SIZE as int,
        PacketId::LobbyInfo => PACKET_LOBBY_INFO_SIZE as int,
        PacketId::CarDamage => PACKET_CAR_DAMAGE_SIZE as int,
        PacketId::SessionHistory => PACKET_SESSION_HISTORY_SIZE as int,
        _ => 0,
    }
}

/// The id that the header of `b` carries.
pub open spec fn id_of(b: Seq<u8>) -> PacketId {
    PacketId::from_code(b[6])
}

/// `b` holds a whole packet of an id that is decoded.
pub open spec fn decodable(b: Seq<u8>) -> bool {
    &&& b.len() >= HEADER_SIZE
    &&& packet_size(id_of(b)) > 0
    &&& b.len() >= packet_size(id_of(b))
    &&& id_of(b) == PacketId::Event ==> b.len() >= event_size(b)
}

impl Packet {
    /// This packet is what the datagram `b` decodes to.
    pub open spec fn decodes(self, b: Seq<u8>) -> bool {
        if !decodable(b) {
            self is Unknown
        } else {
            match id_of(b) {
                PacketId::Motion => self matches Packet::Motion(p) && p.matches_bytes(b, 0),
                PacketId::Session => self matches Packet::Session(p) && p.matches_bytes(b, 0),
                PacketId::Lap => self matches Packet::Lap(p) && p.matches_bytes(b, 0),
                PacketId::Event => self matches Packet::Event(p) && p.matches_bytes(b),
                PacketId::Participants => self matches Packet::Participants(p) && p.matches_bytes(
                    b,
                    0,
                ),
                PacketId::CarSetups => self matches Packet::CarSetups(p) && p.matches_bytes(b, 0),
                PacketId::CarTelemetry => self matches Packet::CarTelemetry(p) && p.matches_bytes(
                    b,
                    0,
                ),
                PacketId::CarStatus => self matches Packet::CarStatus(p) && p.matches_bytes(b, 0),
                PacketId::FinalClassification => self matches Packet::FinalClassification(p)
                    && p.matches_bytes(b, 0),
                PacketId::LobbyInfo => self matches Packet::LobbyInfo(p) && p.matches_bytes(b, 0),
                PacketId::CarDamage => self matches Packet::CarDamage(p) && p.matches_bytes(b, 0),
                PacketId::SessionHistory => self matches Packet::SessionHistory(p)
                    && p.matches_bytes(b, 0),
                _ => self is Unknown,
            }
        }
    }
}

/// Decodes one datagram. A datagram shorter than its packet, or with an id
/// that is not decoded here, gives `Unknown`.
pub fn decode(bytes: &[u8]) -> (r: Packet)
    ensures
        r.decodes(bytes@),
        r is Unknown <==> !decodable(bytes@),
{
    if bytes.len() < HEADER_SIZE {
        return Packet::Unknown;
    }
    let header = Header::unpack(bytes);
    let n = bytes.len();
    match header.packetId {
        PacketId::Motion => if n >= PACKET_MOTION_SIZE {
            Packet::Motion(PacketMotion::unpack(bytes))
        } else {
            Packet::Unknown
        },
        PacketId::Session => if n >= PACKET_SESSION_SIZE {
            Packet::Session(PacketSession::unpack(bytes))
        } else {
            Packet::Unknown
        },
        PacketId::Lap => if n >= PACKET_LAP_SIZE {
            Packet::Lap(PacketLap::unpack(bytes))
        } else {
            Packet::Unknown
        },
        PacketId::Event => if n >= EVENT_BODY_AT {
            let tag = read_bytes(bytes, 29, 4);
            let ty = EventType::of_tag(&tag);
            if n >= EVENT_BODY_AT + ty.body_len() {
                Packet::Event(PacketEvent::unpack(bytes))
            } else {
                Packet::Unknown
            }
        } else {
            Packet::Unknown
        },
        PacketId::Participants => if n >= PACKET_PARTICIPANTS_SIZE {
            Packet::Participants(PacketParticipants::unpack(bytes))
        } else {
            Packet::Unknown
        },
        PacketId::CarSetups => if n >= PACKET_CAR_SETUPS_SIZE {
            Packet::CarSetups(PacketCarSetups::unpack(bytes))
        } else {
            Packet::Unknown
        },
        PacketId::CarTelemetry => if n >= PACKET_CAR_TELEMETRY_SIZE {
            Packet::CarTelemetry(PacketCarTelemetry::unpack(bytes))
        } else {
            Packet::Unknown
        },
        PacketId::CarStatus => if n >= PACKET_CAR_STATUS_SIZE {
            Packet::CarStatus(PacketCarStatus::unpack(bytes))
        } else {
            Packet::Unknown
        },
        PacketId::FinalClassification => if n >= PACKET_FINAL_CLASSIFICATION_SIZE {
            Packet::FinalClassification(PacketFinalClassification::unpack(bytes))
        } else {
            Packet::Unknown
        },
        PacketId::LobbyInfo => if n >= PACKET_LOBBY_INFO_SIZE {
            Packet::LobbyInfo(PacketLobbyInfo::unpack(bytes))
        } else {
            Packet::Unknown
        },
        PacketId::CarDamage => if n >= PACKET_CAR_DAMAGE_SIZE {
            Packet::CarDamage(PacketCarDamage::unpack(bytes))
        } else {
            Packet::Unknown
        },
        PacketId::SessionHistory => if n >= PACKET_SESSION_HISTORY_SIZE {
            Packet::SessionHistory(PacketSessionHistory::unpack(bytes))
        } else {
            Packet::Unknown
        },
        _ => Packet::Unknown,
    }
}

} // verus!
