//! The event packet: a four-byte ASCII tag followed by a body that depends on it.
use vstd::prelude::*;
use crate::header::Header;
use crate::packet::{
    Buttons, DriveThroughPenaltyServed, EventTag, FastestLap, Flashback, Penalty, RaceWinner,
    Retirement, SpeedTrap, StartLights, StopGoPenaltyServed, TeamMateInPits,
};

verus! {

/// Where an event's body starts: after the header and the four-byte tag.
pub const EVENT_BODY_AT: usize = 33;

#[derive(Debug, Clone, Copy)]
pub struct SessionStarted {}

impl SessionStarted {
    pub fn unpack() -> (r: Self) {
        SessionStarted {  }
    }
}

#[derive(Debug, Clone, Copy)]
pub struct SessionEnded {}

impl SessionEnded {
    pub fn unpack() -> (r: Self) {
        SessionEnded {  }
    }
}

#[derive(Debug, Clone, Copy)]
pub struct DRSEnabled {}

impl DRSEnabled {
    pub fn unpack() -> (r: Self) {
        DRSEnabled {  }
    }
}

#[derive(Debug, Clone, Copy)]
pub struct DRSDisabled {}

impl DRSDisabled {
    pub fn unpack() -> (r: Self) {
        DRSDisabled {  }
    }
}

#[derive(Debug, Clone, Copy)]
pub struct ChequeredFlag {}

impl ChequeredFlag {
    pub fn unpack() -> (r: Self) {
        ChequeredFlag {  }
    }
}

#[derive(Debug, Clone, Copy)]
pub struct LightsOut {}

impl LightsOut {
    pub fn unpack() -> (r: Self) {
        LightsOut {  }
    }
}

/// The kind of an event, named by its tag.
#[derive(Debug, Default, Clone, Copy, PartialEq, Eq, Structural)]
pub enum EventType {
    SessionStarted,
    SessionEnded,
    FastestLap,
    Retirement,
    DRSEnabled,
    DRSDisabled,
    TeamMateInPits,
    ChequeredFlag,
    RaceWinner,
    Penalty,
    SpeedTrap,
    StartLights,
    LightsOut,
    DriveThroughPenaltyServed,
    StopGoPenaltyServed,
    Flashback,
    Buttons,
    #[default]
    Poisoned,
}

/// The four bytes `t` spell `a b c d`.
pub open spec fn spells(t: Seq<u8>, a: u8, b: u8, c: u8, d: u8) -> bool {
    t == seq![a, b, c, d]
}

impl EventType {
    /// The event that the tag `t` names.
    pub open spec fn from_tag(t: Seq<u8>) -> EventType {
        if spells(t, 83, 83, 84, 65) {
            EventType::SessionStarted  // SSTA
        } else if spells(t, 83, 69, 78, 68) {
            EventType::SessionEnded  // SEND
        } else if spells(t, 70, 84, 76, 80) {
            EventType::FastestLap  // FTLP
        } else if spells(t, 82, 84, 77, 84) {
            EventType::Retirement  // RTMT
        } else if spells(t, 68, 82, 83, 69) {
            EventType::DRSEnabled  // DRSE
        } else if spells(t, 68, 82, 83, 68) {
            EventType::DRSDisabled  // DRSD
        } else if spells(t, 84, 77, 80, 84) {
            EventType::TeamMateInPits  // TMPT
        } else if spells(t, 67, 72, 81, 70) {
            EventType::ChequeredFlag  // CHQF
        } else if spells(t, 82, 67, 87, 78) {
            EventType::RaceWinner  // RCWN
        } else if spells(t, 80, 69, 78, 65) {
            EventType::Penalty  // PENA
        } else if spells(t, 83, 80, 84, 80) {
            EventType::SpeedTrap  // SPTP
        } else if spells(t, 83, 84, 76, 71) {
            EventType::StartLights  // STLG
        } else if spells(t, 76, 71, 79, 84) {
            EventType::LightsOut  // LGOT
        } else if spells(t, 68, 84, 83, 86) {
            EventType::DriveThroughPenaltyServed  // DTSV
        } else if spells(t, 83, 71, 83, 86) {
            EventType::StopGoPenaltyServed  // SGSV
        } else if spells(t, 70, 76, 66, 75) {
            EventType::Flashback  // FLBK
        } else if spells(t, 66, 85, 84, 78) {
            EventType::Buttons  // BUTN
        } else {
            EventType::Poisoned
        }
    }
}

/// The body of an event; a tag that is not known keeps its four bytes.
#[derive(Debug, Clone)]
pub enum EventDetails {
    SessionStarted(SessionStarted),
    SessionEnded(SessionEnded),
    FastestLap(FastestLap),
    Retirement(Retirement),
    DRSEnabled(DRSEnabled),
    DRSDisabled(DRSDisabled),
    TeamMateInPits(TeamMateInPits),
    ChequeredFlag(ChequeredFlag),
    RaceWinner(RaceWinner),
    Penalty(Penalty),
    SpeedTrap(SpeedTrap),
    StartLights(StartLights),
    LightsOut(LightsOut),
    DriveThroughPenaltyServed(DriveThroughPenaltyServed),
    StopGoPenaltyServed(StopGoPenaltyServed),
    Flashback(Flashback),
    Buttons(Buttons),
    UnknownTag(Vec<u8>),
}

impl EventDetails {
    /// This body is the one that an event of kind `ty` with tag `tag` holds
    /// in the bytes of `b` at `o`.
    pub open spec fn matches_bytes(self, ty: EventType, tag: Seq<u8>, b: Seq<u8>, o: int) -> bool {
        match ty {
            EventType::SessionStarted => self is SessionStarted,
            EventType::SessionEnded => self is SessionEnded,
            EventType::FastestLap => self matches EventDetails::FastestLap(x) && x.matches_bytes(
                b,
                o,
            ),
            EventType::Retirement => self matches EventDetails::Retirement(x) && x.matches_bytes(
                b,
                o,
            ),
            EventType::DRSEnabled => self is DRSEnabled,
            EventType::DRSDisabled => self is DRSDisabled,
            EventType::TeamMateInPits => self matches EventDetails::TeamMateInPits(x)
                && x.matches_bytes(b, o),
            EventType::ChequeredFlag => self is ChequeredFlag,
            EventType::RaceWinner => self matches EventDetails::RaceWinner(x) && x.matches_bytes(
                b,
                o,
            ),
            EventType::Penalty => self matches EventDetails::Penalty(x) && x.matches_bytes(b, o),
            EventType::SpeedTrap => self matches EventDetails::SpeedTrap(x) && x.matches_bytes(
                b,
                o,
            ),
            EventType::StartLights => self matches EventDetails::StartLights(x) && x.matches_bytes(
                b,
                o,
            ),
            EventType::LightsOut => self is LightsOut,
            EventType::DriveThroughPenaltyServed => self matches EventDetails::DriveThroughPenaltyServed(
                x,
            ) && x.matches_bytes(b, o),
            EventType::StopGoPenaltyServed => self matches EventDetails::StopGoPenaltyServed(x)
                && x.matches_bytes(b, o),
            EventType::Flashback => self matches EventDetails::Flashback(x) && x.matches_bytes(b, o),
            EventType::Buttons => self matches EventDetails::Buttons(x) && x.matches_bytes(b, o),
            EventType::Poisoned => self matches EventDetails::UnknownTag(t) && t@ == tag,
        }
    }
}

/// The event packet.
#[derive(Debug, Clone)]
pub struct PacketEvent {
    pub header: Header,
    pub eventStringCode: EventTag,
    pub eventType: EventType,
    pub eventDetails: EventDetails,
}

/// Whether the four-byte `tag` spells `a b c d`.
fn spells_tag(tag: &Vec<u8>, a: u8, b: u8, c: u8, d: u8) -> (r: bool)
    requires
        tag@.len() == 4,
    ensures
        r == spells(tag@, a, b, c, d),
{
    let r = tag[0] == a && tag[1] == b && tag[2] == c && tag[3] == d;
    assert(r ==> tag@ =~= seq![a, b, c, d]);
    r
}

impl EventType {
    /// The length of the body that follows the tag of this event.
    pub open spec fn body_size(self) -> int {
        match self {
            EventType::FastestLap => 5,
            EventType::Retirement => 1,
            EventType::TeamMateInPits => 1,
            EventType::RaceWinner => 1,
            EventType::Penalty => 7,
            EventType::SpeedTrap => 12,
            EventType::StartLights => 1,
            EventType::DriveThroughPenaltyServed => 1,
            EventType::StopGoPenaltyServed => 1,
            EventType::Flashback => 8,
            EventType::Buttons => 4,
            _ => 0,
        }
    }

    pub fn body_len(&self) -> (r: usize)
        ensures
            r == self.body_size(),
    {
        match self {
            EventType::FastestLap => 5,
            EventType::Retirement => 1,
            EventType::TeamMateInPits => 1,
            EventType::RaceWinner => 1,
            EventType::Penalty => 7,
            EventType::SpeedTrap => 12,
            EventType::StartLights => 1,
            EventType::DriveThroughPenaltyServed => 1,
            EventType::StopGoPenaltyServed => 1,
            EventType::Flashback => 8,
            EventType::Buttons => 4,
            _ => 0,
        }
    }

    /// The event that the four-byte `tag` names.
    pub fn of_tag(t: &Vec<u8>) -> (r: EventType)
        requires
            t@.len() == 4,
        ensures
            r == EventType::from_tag(t@),
    {
        if spells_tag(t, 83, 83, 84, 65) {
            EventType::SessionStarted
        } else if spells_tag(t, 83, 69, 78, 68) {
            EventType::SessionEnded
        } else if spells_tag(t, 70, 84, 76, 80) {
            EventType::FastestLap
        } else if spells_tag(t, 82, 84, 77, 84) {
            EventType::Retirement
        } else if spells_tag(t, 68, 82, 83, 69) {
            EventType::DRSEnabled
        } else if spells_tag(t, 68, 82, 83, 68) {
            EventType::DRSDisabled
        } else if spells_tag(t, 84, 77, 80, 84) {
            EventType::TeamMateInPits
        } else if spells_tag(t, 67, 72, 81, 70) {
            EventType::ChequeredFlag
        } else if spells_tag(t, 82, 67, 87, 78) {
            EventType::RaceWinner
        } else if spells_tag(t, 80, 69, 78, 65) {
            EventType::Penalty
        } else if spells_tag(t, 83, 80, 84, 80) {
            EventType::SpeedTrap
        } else if spells_tag(t, 83, 84, 76, 71) {
            EventType::StartLights
        } else if spells_tag(t, 76, 71, 79, 84) {
            EventType::LightsOut
        } else if spells_tag(t, 68, 84, 83, 86) {
            EventType::DriveThroughPenaltyServed
        } else if spells_tag(t, 83, 71, 83, 86) {
            EventType::StopGoPenaltyServed
        } else if spells_tag(t, 70, 76, 66, 75) {
            EventType::Flashback
        } else if spells_tag(t, 66, 85, 84, 78) {
            EventType::Buttons
        } else {
            EventType::Poisoned
        }
    }
}

/// The length of the event packet in `b`: the header, the tag, and the body
/// that the tag calls for.
pub open spec fn event_size(b: Seq<u8>) -> int {
    EVENT_BODY_AT + EventType::from_tag(b.subrange(29, 33)).body_size()
}

impl PacketEvent {
    /// This packet is what the bytes of `b` encode.
    pub open spec fn matches_bytes(self, b: Seq<u8>) -> bool {
        &&& self.header.matches_bytes(b, 0)
        &&& self.eventStringCode.matches_bytes(b, 29)
        &&& self.eventType == EventType::from_tag(b.subrange(29, 33))
        &&& self.eventDetails.matches_bytes(self.eventType, b.subrange(29, 33), b, 33)
    }

    /// Reads an event packet: the header, the tag, and the body that the tag
    /// calls for (none for an unknown tag).
    pub fn unpack(bytes: &[u8]) -> (r: Self)
        requires
            bytes@.len() >= EVENT_BODY_AT,
            bytes@.len() >= event_size(bytes@),
        ensures
            r.matches_bytes(bytes@),
    {
        let header = Header::unpack(bytes);
        let eventTag = EventTag::read_at(bytes, 29);
        assert(eventTag.tag@ =~= bytes@.subrange(29, 33));
        let eventType = EventType::of_tag(&eventTag.tag);
        let o = EVENT_BODY_AT;
        let eventDetails = match eventType {
            EventType::SessionStarted => EventDetails::SessionStarted(SessionStarted::unpack()),
            EventType::SessionEnded => EventDetails::SessionEnded(SessionEnded::unpack()),
            EventType::FastestLap => EventDetails::FastestLap(FastestLap::read_at(bytes, o)),
            EventType::Retirement => EventDetails::Retirement(Retirement::read_at(bytes, o)),
            EventType::DRSEnabled => EventDetails::DRSEnabled(DRSEnabled::unpack()),
            EventType::DRSDisabled => EventDetails::DRSDisabled(DRSDisabled::unpack()),
            EventType::TeamMateInPits => EventDetails::TeamMateInPits(
                TeamMateInPits::read_at(bytes, o),
            ),
            EventType::ChequeredFlag => EventDetails::ChequeredFlag(ChequeredFlag::unpack()),
            EventType::RaceWinner => EventDetails::RaceWinner(RaceWinner::read_at(bytes, o)),
            EventType::Penalty => EventDetails::Penalty(Penalty::read_at(bytes, o)),
            EventType::SpeedTrap => EventDetails::SpeedTrap(SpeedTrap::read_at(bytes, o)),
            EventType::StartLights => EventDetails::StartLights(StartLights::read_at(bytes, o)),
            EventType::LightsOut => EventDetails::LightsOut(LightsOut::unpack()),
            EventType::DriveThroughPenaltyServed => EventDetails::DriveThroughPenaltyServed(
                DriveThroughPenaltyServed::read_at(bytes, o),
            ),
            EventType::StopGoPenaltyServed => EventDetails::StopGoPenaltyServed(
                StopGoPenaltyServed::read_at(bytes, o),
            ),
            EventType::Flashback => EventDetails::Flashback(Flashback::read_at(bytes, o)),
            EventType::Buttons => EventDetails::Buttons(Buttons::read_at(bytes, o)),
            EventType::Poisoned => EventDetails::UnknownTag(eventTag.tag.clone()),
        };
        PacketEvent { header, eventStringCode: eventTag, eventType, eventDetails }
    }
}

} // verus!
