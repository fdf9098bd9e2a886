//! The enumerations of the wire format. Each maps its on-wire codes to named
//! variants; a code that is not known maps to the enumeration's poisoned variant.
use vstd::prelude::*;

verus! {

/// The kind of a packet, from the header's id byte.
#[derive(Debug, Default, Clone, Copy, PartialEq, Eq, Structural)]
pub enum PacketId {
    Motion,
    Session,
    Lap,
    Event,
    Participants,
    CarSetups,
    CarTelemetry,
    CarStatus,
    FinalClassification,
    LobbyInfo,
    CarDamage,
    SessionHistory,
    TyreSets,
    MotionEx,
    TimeTrial,
    LapPositions,
    #[default]
    Poisoned,
}

impl PacketId {
    /// The variant that the on-wire byte `b` names.
    pub open spec fn from_code(b: u8) -> Self {
        match b {
            0 => PacketId::Motion,
            1 => PacketId::Session,
            2 => PacketId::Lap,
            3 => PacketId::Event,
            4 => PacketId::Participants,
            5 => PacketId::CarSetups,
            6 => PacketId::CarTelemetry,
            7 => PacketId::CarStatus,
            8 => PacketId::FinalClassification,
            9 => PacketId::LobbyInfo,
            10 => PacketId::CarDamage,
            11 => PacketId::SessionHistory,
            12 => PacketId::TyreSets,
            13 => PacketId::MotionEx,
            14 => PacketId::TimeTrial,
            15 => PacketId::LapPositions,
            _ => PacketId::Poisoned,
        }
    }

    /// The on-wire byte of each variant.
    pub open spec fn code(self) -> u8 {
        match self {
            PacketId::Motion => 0,
            PacketId::Session => 1,
            PacketId::Lap => 2,
            PacketId::Event => 3,
            PacketId::Participants => 4,
            PacketId::CarSetups => 5,
            PacketId::CarTelemetry => 6,
            PacketId::CarStatus => 7,
            PacketId::FinalClassification => 8,
            PacketId::LobbyInfo => 9,
            PacketId::CarDamage => 10,
            PacketId::SessionHistory => 11,
            PacketId::TyreSets => 12,
            PacketId::MotionEx => 13,
            PacketId::TimeTrial => 14,
            PacketId::LapPositions => 15,
            PacketId::Poisoned => 255,
        }
    }

    pub fn from_u8(byte: u8) -> (r: Self)
        ensures
            r == Self::from_code(byte),
    {
        match byte {
            0 => PacketId::Motion,
            1 => PacketId::Session,
            2 => PacketId::Lap,
            3 => PacketId::Event,
            4 => PacketId::Participants,
            5 => PacketId::CarSetups,
            6 => PacketId::CarTelemetry,
            7 => PacketId::CarStatus,
            8 => PacketId::FinalClassification,
            9 => PacketId::LobbyInfo,
            10 => PacketId::CarDamage,
            11 => PacketId::SessionHistory,
            12 => PacketId::TyreSets,
            13 => PacketId::MotionEx,
            14 => PacketId::TimeTrial,
            15 => PacketId::LapPositions,
            _ => PacketId::Poisoned,
        }
    }

    pub fn to_u8(&self) -> (r: u8)
        ensures
            r == self.code(),
    {
        match self {
            PacketId::Motion => 0,
            PacketId::Session => 1,
            PacketId::Lap => 2,
            PacketId::Event => 3,
            PacketId::Participants => 4,
            PacketId::CarSetups => 5,
            PacketId::CarTelemetry => 6,
            PacketId::CarStatus => 7,
            PacketId::FinalClassification => 8,
            PacketId::LobbyInfo => 9,
            PacketId::CarDamage => 10,
            PacketId::SessionHistory => 11,
            PacketId::TyreSets => 12,
            PacketId::MotionEx => 13,
            PacketId::TimeTrial => 14,
            PacketId::LapPositions => 15,
            PacketId::Poisoned => 255,
        }
    }
}

/// A flag shown in a marshal zone or to a car; a signed byte on the wire.
#[derive(Debug, Default, Clone, Copy, PartialEq, Eq, Structural)]
pub enum ZoneFlag {
    Invalid,
    NoFlag,
    Green,
    Blue,
    Yellow,
    Red,
    #[default]
    Unknown,
}

impl ZoneFlag {
    /// The variant that the on-wire byte `b` names.
    pub open spec fn from_code(b: u8) -> Self {
        match b {
            255 => ZoneFlag::Invalid,
            0 => ZoneFlag::NoFlag,
            1 => ZoneFlag::Green,
            2 => ZoneFlag::Blue,
            3 => ZoneFlag::Yellow,
            4 => ZoneFlag::Red,
            _ => ZoneFlag::Unknown,
        }
    }

    /// The on-wire byte of each variant.
    pub open spec fn code(self) -> u8 {
        match self {
            ZoneFlag::Invalid => 255,
            ZoneFlag::NoFlag => 0,
            ZoneFlag::Green => 1,
            ZoneFlag::Blue => 2,
            ZoneFlag::Yellow => 3,
            ZoneFlag::Red => 4,
            ZoneFlag::Unknown => 127,
        }
    }

    pub fn from_u8_to_i8(byte: &u8) -> (r: Self)
        ensures
            r == Self::from_code(*byte),
    {
        match *byte {
            255 => ZoneFlag::Invalid,
            0 => ZoneFlag::NoFlag,
            1 => ZoneFlag::Green,
            2 => ZoneFlag::Blue,
            3 => ZoneFlag::Yellow,
            4 => ZoneFlag::Red,
            _ => ZoneFlag::Unknown,
        }
    }

    pub fn to_u8(&self) -> (r: u8)
        ensures
            r == self.code(),
    {
        match self {
            ZoneFlag::Invalid => 255,
            ZoneFlag::NoFlag => 0,
            ZoneFlag::Green => 1,
            ZoneFlag::Blue => 2,
            ZoneFlag::Yellow => 3,
            ZoneFlag::Red => 4,
            ZoneFlag::Unknown => 127,
        }
    }
}

/// The kind of session.
#[derive(Debug, Default, Clone, Copy, PartialEq, Eq, Structural)]
pub enum Session {
    Unknown,
    Practice1,
    Practice2,
    Practice3,
    ShortPractice,
    Quali1,
    Quali2,
    Quali3,
    ShortQuli,
    OneShotQuli,
    Race,
    Race2,
    Race3,
    TimeTrial,
    #[default]
    Poisoned,
}

impl Session {
    /// The variant that the on-wire byte `b` names.
    pub open spec fn from_code(b: u8) -> Self {
        match b {
            0 => Session::Unknown,
            1 => Session::Practice1,
            2 => Session::Practice2,
            3 => Session::Practice3,
            4 => Session::ShortPractice,
            5 => Session::Quali1,
            6 => Session::Quali2,
            7 => Session::Quali3,
            8 => Session::ShortQuli,
            9 => Session::OneShotQuli,
            10 => Session::Race,
            11 => Session::Race2,
            12 => Session::Race3,
            13 => Session::TimeTrial,
            _ => Session::Poisoned,
        }
    }

    /// The on-wire byte of each variant.
    pub open spec fn code(self) -> u8 {
        match self {
            Session::Unknown => 0,
            Session::Practice1 => 1,
            Session::Practice2 => 2,
            Session::Practice3 => 3,
            Session::ShortPractice => 4,
            Session::Quali1 => 5,
            Session::Quali2 => 6,
            Session::Quali3 => 7,
            Session::ShortQuli => 8,
            Session::OneShotQuli => 9,
            Session::Race => 10,
            Session::Race2 => 11,
            Session::Race3 => 12,
            Session::TimeTrial => 13,
            Session::Poisoned => 255,
        }
    }

    pub fn from_u8(byte: &u8) -> (r: Self)
        ensures
            r == Self::from_code(*byte),
    {
        match *byte {
            0 => Session::Unknown,
            1 => Session::Practice1,
            2 => Session::Practice2,
            3 => Session::Practice3,
            4 => Session::ShortPractice,
            5 => Session::Quali1,
            6 => Session::Quali2,
            7 => Session::Quali3,
            8 => Session::ShortQuli,
            9 => Session::OneShotQuli,
            10 => Session::Race,
            11 => Session::Race2,
            12 => Session::Race3,
            13 => Session::TimeTrial,
            _ => Session::Poisoned,
        }
    }

    pub fn to_u8(&self) -> (r: u8)
        ensures
            r == self.code(),
    {
        match self {
            Session::Unknown => 0,
            Session::Practice1 => 1,
            Session::Practice2 => 2,
            Session::Practice3 => 3,
            Session::ShortPractice => 4,
            Session::Quali1 => 5,
            Session::Quali2 => 6,
            Session::Quali3 => 7,
            Session::ShortQuli => 8,
            Session::OneShotQuli => 9,
            Session::Race => 10,
            Session::Race2 => 11,
            Session::Race3 => 12,
            Session::TimeTrial => 13,
            Session::Poisoned => 255,
        }
    }
}

/// Weather conditions.
#[derive(Debug, Default, Clone, Copy, PartialEq, Eq, Structural)]
pub enum Weather {
    Clear,
    LightCloud,
    Overcast,
    RainLight,
    RainHeavy,
    RainStorm,
    #[default]
    Poisoned,
}

impl Weather {
    /// The variant that the on-wire byte `b` names.
    pub open spec fn from_code(b: u8) -> Self {
        match b {
            0 => Weather::Clear,
            1 => Weather::LightCloud,
            2 => Weather::Overcast,
            3 => Weather::RainLight,
            4 => Weather::RainHeavy,
            5 => Weather::RainStorm,
            _ => Weather::Poisoned,
        }
    }

    /// The on-wire byte of each variant.
    pub open spec fn code(self) -> u8 {
        match self {
            Weather::Clear => 0,
            Weather::LightCloud => 1,
            Weather::Overcast => 2,
            Weather::RainLight => 3,
            Weather::RainHeavy => 4,
            Weather::RainStorm => 5,
            Weather::Poisoned => 255,
        }
    }

    pub fn from_u8(byte: &u8) -> (r: Self)
        ensures
            r == Self::from_code(*byte),
    {
        match *byte {
            0 => Weather::Clear,
            1 => Weather::LightCloud,
            2 => Weather::Overcast,
            3 => Weather::RainLight,
            4 => Weather::RainHeavy,
            5 => Weather::RainStorm,
            _ => Weather::Poisoned,
        }
    }

    pub fn to_u8(&self) -> (r: u8)
        ensures
            r == self.code(),
    {
        match self {
            Weather::Clear => 0,
            Weather::LightCloud => 1,
            Weather::Overcast => 2,
            Weather::RainLight => 3,
            Weather::RainHeavy => 4,
            Weather::RainStorm => 5,
            Weather::Poisoned => 255,
        }
    }
}

/// Which way a temperature is heading.
#[derive(Debug, Default, Clone, Copy, PartialEq, Eq, Structural)]
pub enum Temperature {
    Up,
    Down,
    Steady,
    #[default]
    Poisoned,
}

impl Temperature {
    /// The variant that the on-wire byte `b` names.
    pub open spec fn from_code(b: u8) -> Self {
        match b {
            0 => Temperature::Up,
            1 => Temperature::Down,
            2 => Temperature::Steady,
            _ => Temperature::Poisoned,
        }
    }

    /// The on-wire byte of each variant.
    pub open spec fn code(self) -> u8 {
        match self {
            Temperature::Up => 0,
            Temperature::Down => 1,
            Temperature::Steady => 2,
            Temperature::Poisoned => 127,
        }
    }

    pub fn from_u8(byte: &u8) -> (r: Self)
        ensures
            r == Self::from_code(*byte),
    {
        match *byte {
            0 => Temperature::Up,
            1 => Temperature::Down,
            2 => Temperature::Steady,
            _ => Temperature::Poisoned,
        }
    }

    pub fn to_u8(&self) -> (r: u8)
        ensures
            r == self.code(),
    {
        match self {
            Temperature::Up => 0,
            Temperature::Down => 1,
            Temperature::Steady => 2,
            Temperature::Poisoned => 127,
        }
    }
}

/// The formula of the cars.
#[derive(Debug, Default, Clone, Copy, PartialEq, Eq, Structural)]
pub enum Formula {
    Modern,
    Classic,
    Formula2,
    Generic,
    Beta,
    Supercars,
    Esports,
    Formula22021,
    #[default]
    Poisoned,
}

impl Formula {
    /// The variant that the on-wire byte `b` names.
    pub open spec fn from_code(b: u8) -> Self {
        match b {
            0 => Formula::Modern,
            1 => Formula::Classic,
            2 => Formula::Formula2,
            3 => Formula::Generic,
            4 => Formula::Beta,
            5 => Formula::Supercars,
            6 => Formula::Esports,
            7 => Formula::Formula22021,
            _ => Formula::Poisoned,
        }
    }

    /// The on-wire byte of each variant.
    pub open spec fn code(self) -> u8 {
        match self {
            Formula::Modern => 0,
            Formula::Classic => 1,
            Formula::Formula2 => 2,
            Formula::Generic => 3,
            Formula::Beta => 4,
            Formula::Supercars => 5,
            Formula::Esports => 6,
            Formula::Formula22021 => 7,
            Formula::Poisoned => 255,
        }
    }

    pub fn from_u8(byte: &u8) -> (r: Self)
        ensures
            r == Self::from_code(*byte),
    {
        match *byte {
            0 => Formula::Modern,
            1 => Formula::Classic,
            2 => Formula::Formula2,
            3 => Formula::Generic,
            4 => Formula::Beta,
            5 => Formula::Supercars,
            6 => Formula::Esports,
            7 => Formula::Formula22021,
            _ => Formula::Poisoned,
        }
    }

    pub fn to_u8(&self) -> (r: u8)
        ensures
            r == self.code(),
    {
        match self {
            Formula::Modern => 0,
            Formula::Classic => 1,
            Formula::Formula2 => 2,
            Formula::Generic => 3,
            Formula::Beta => 4,
            Formula::Supercars => 5,
            Formula::Esports => 6,
            Formula::Formula22021 => 7,
            Formula::Poisoned => 255,
        }
    }
}

/// SLI Pro native support.
#[derive(Debug, Default, Clone, Copy, PartialEq, Eq, Structural)]
pub enum SLIPro {
    Inactive,
    Active,
    #[default]
    Poisoned,
}

impl SLIPro {
    /// The variant that the on-wire byte `b` names.
    pub open spec fn from_code(b: u8) -> Self {
        match b {
            0 => SLIPro::Inactive,
            1 => SLIPro::Active,
            _ => SLIPro::Poisoned,
        }
    }

    /// The on-wire byte of each variant.
    pub open spec fn code(self) -> u8 {
        match self {
            SLIPro::Inactive => 0,
            SLIPro::Active => 1,
            SLIPro::Poisoned => 255,
        }
    }

    pub fn from_u8(byte: &u8) -> (r: Self)
        ensures
            r == Self::from_code(*byte),
    {
        match *byte {
            0 => SLIPro::Inactive,
            1 => SLIPro::Active,
            _ => SLIPro::Poisoned,
        }
    }

    pub fn to_u8(&self) -> (r: u8)
        ensures
            r == self.code(),
    {
        match self {
            SLIPro::Inactive => 0,
            SLIPro::Active => 1,
            SLIPro::Poisoned => 255,
        }
    }
}

/// Whether the game is online.
#[derive(Debug, Default, Clone, Copy, PartialEq, Eq, Structural)]
pub enum NetworkGame {
    Offline,
    Online,
    #[default]
    Poisoned,
}

impl NetworkGame {
    /// The variant that the on-wire byte `b` names.
    pub open spec fn from_code(b: u8) -> Self {
        match b {
            0 => NetworkGame::Offline,
            1 => NetworkGame::Online,
            _ => NetworkGame::Poisoned,
        }
    }

    /// The on-wire byte of each variant.
    pub open spec fn code(self) -> u8 {
        match self {
            NetworkGame::Offline => 0,
            NetworkGame::Online => 1,
            NetworkGame::Poisoned => 255,
        }
    }

    pub fn from_u8(byte: &u8) -> (r: Self)
        ensures
            r == Self::from_code(*byte),
    {
        match *byte {
            0 => NetworkGame::Offline,
            1 => NetworkGame::Online,
            _ => NetworkGame::Poisoned,
        }
    }

    pub fn to_u8(&self) -> (r: u8)
        ensures
            r == self.code(),
    {
        match self {
            NetworkGame::Offline => 0,
            NetworkGame::Online => 1,
            NetworkGame::Poisoned => 255,
        }
    }
}

/// How accurate the forecast is.
#[derive(Debug, Default, Clone, Copy, PartialEq, Eq, Structural)]
pub enum Accuracy {
    Perfect,
    Approximate,
    #[default]
    Poisoned,
}

impl Accuracy {
    /// The variant that the on-wire byte `b` names.
    pub open spec fn from_code(b: u8) -> Self {
        match b {
            0 => Accuracy::Perfect,
            1 => Accuracy::Approximate,
            _ => Accuracy::Poisoned,
        }
    }

    /// The on-wire byte of each variant.
    pub open spec fn code(self) -> u8 {
        match self {
            Accuracy::Perfect => 0,
            Accuracy::Approximate => 1,
            Accuracy::Poisoned => 255,
        }
    }

    pub fn from_u8(byte: &u8) -> (r: Self)
        ensures
            r == Self::from_code(*byte),
    {
        match *byte {
            0 => Accuracy::Perfect,
            1 => Accuracy::Approximate,
            _ => Accuracy::Poisoned,
        }
    }

    pub fn to_u8(&self) -> (r: u8)
        ensures
            r == self.code(),
    {
        match self {
            Accuracy::Perfect => 0,
            Accuracy::Approximate => 1,
            Accuracy::Poisoned => 255,
        }
    }
}

/// An assist that is on or off.
#[derive(Debug, Default, Clone, Copy, PartialEq, Eq, Structural)]
pub enum Assist {
    Off,
    On,
    #[default]
    Poisoned,
}

impl Assist {
    /// The variant that the on-wire byte `b` names.
    pub open spec fn from_code(b: u8) -> Self {
        match b {
            0 => Assist::Off,
            1 => Assist::On,
            _ => Assist::Poisoned,
        }
    }

    /// The on-wire byte of each variant.
    pub open spec fn code(self) -> u8 {
        match self {
            Assist::Off => 0,
            Assist::On => 1,
            Assist::Poisoned => 255,
        }
    }

    pub fn from_u8(byte: &u8) -> (r: Self)
        ensures
            r == Self::from_code(*byte),
    {
        match *byte {
            0 => Assist::Off,
            1 => Assist::On,
            _ => Assist::Poisoned,
        }
    }

    pub fn to_u8(&self) -> (r: u8)
        ensures
            r == self.code(),
    {
        match self {
            Assist::Off => 0,
            Assist::On => 1,
            Assist::Poisoned => 255,
        }
    }
}

/// Safety car state.
#[derive(Debug, Default, Clone, Copy, PartialEq, Eq, Structural)]
pub enum SafetyCar {
    Ready,
    Deployed,
    Virtual,
    FormationLap,
    #[default]
    Poisoned,
}

impl SafetyCar {
    /// The variant that the on-wire byte `b` names.
    pub open spec fn from_code(b: u8) -> Self {
        match b {
            0 => SafetyCar::Ready,
            1 => SafetyCar::Deployed,
            2 => SafetyCar::Virtual,
            3 => SafetyCar::FormationLap,
            _ => SafetyCar::Poisoned,
        }
    }

    /// The on-wire byte of each variant.
    pub open spec fn code(self) -> u8 {
        match self {
            SafetyCar::Ready => 0,
            SafetyCar::Deployed => 1,
            SafetyCar::Virtual => 2,
            SafetyCar::FormationLap => 3,
            SafetyCar::Poisoned => 255,
        }
    }

    pub fn from_u8(byte: &u8) -> (r: Self)
        ensures
            r == Self::from_code(*byte),
    {
        match *byte {
            0 => SafetyCar::Ready,
            1 => SafetyCar::Deployed,
            2 => SafetyCar::Virtual,
            3 => SafetyCar::FormationLap,
            _ => SafetyCar::Poisoned,
        }
    }

    pub fn to_u8(&self) -> (r: u8)
        ensures
            r == self.code(),
    {
        match self {
            SafetyCar::Ready => 0,
            SafetyCar::Deployed => 1,
            SafetyCar::Virtual => 2,
            SafetyCar::FormationLap => 3,
            SafetyCar::Poisoned => 255,
        }
    }
}

/// How long the session is set to last.
#[derive(Debug, Default, Clone, Copy, PartialEq, Eq, Structural)]
pub enum SessionLength {
    NoLength,
    VeryShort,
    Short,
    Medium,
    MediumLong,
    Long,
    Full,
    #[default]
    Poisoned,
}

impl SessionLength {
    /// The variant that the on-wire byte `b` names.
    pub open spec fn from_code(b: u8) -> Self {
        match b {
            0 => SessionLength::NoLength,
            2 => SessionLength::VeryShort,
            3 => SessionLength::Short,
            4 => SessionLength::Medium,
            5 => SessionLength::MediumLong,
            6 => SessionLength::Long,
            7 => SessionLength::Full,
            _ => SessionLength::Poisoned,
        }
    }

    /// The on-wire byte of each variant.
    pub open spec fn code(self) -> u8 {
        match self {
            SessionLength::NoLength => 0,
            SessionLength::VeryShort => 2,
            SessionLength::Short => 3,
            SessionLength::Medium => 4,
            SessionLength::MediumLong => 5,
            SessionLength::Long => 6,
            SessionLength::Full => 7,
            SessionLength::Poisoned => 255,
        }
    }

    pub fn from_u8(byte: &u8) -> (r: Self)
        ensures
            r == Self::from_code(*byte),
    {
        match *byte {
            0 => SessionLength::NoLength,
            2 => SessionLength::VeryShort,
            3 => SessionLength::Short,
            4 => SessionLength::Medium,
            5 => SessionLength::MediumLong,
            6 => SessionLength::Long,
            7 => SessionLength::Full,
            _ => SessionLength::Poisoned,
        }
    }

    pub fn to_u8(&self) -> (r: u8)
        ensures
            r == self.code(),
    {
        match self {
            SessionLength::NoLength => 0,
            SessionLength::VeryShort => 2,
            SessionLength::Short => 3,
            SessionLength::Medium => 4,
            SessionLength::MediumLong => 5,
            SessionLength::Long => 6,
            SessionLength::Full => 7,
            SessionLength::Poisoned => 255,
        }
    }
}

/// A car's pit status.
#[derive(Debug, Default, Clone, Copy, PartialEq, Eq, Structural)]
pub enum PitStatus {
    NotInPits,
    Pitting,
    InPitArea,
    #[default]
    Poisoned,
}

impl PitStatus {
    /// The variant that the on-wire byte `b` names.
    pub open spec fn from_code(b: u8) -> Self {
        match b {
            0 => PitStatus::NotInPits,
            1 => PitStatus::Pitting,
            2 => PitStatus::InPitArea,
            _ => PitStatus::Poisoned,
        }
    }

    /// The on-wire byte of each variant.
    pub open spec fn code(self) -> u8 {
        match self {
            PitStatus::NotInPits => 0,
            PitStatus::Pitting => 1,
            PitStatus::InPitArea => 2,
            PitStatus::Poisoned => 255,
        }
    }

    pub fn from_u8(byte: u8) -> (r: Self)
        ensures
            r == Self::from_code(byte),
    {
        match byte {
            0 => PitStatus::NotInPits,
            1 => PitStatus::Pitting,
            2 => PitStatus::InPitArea,
            _ => PitStatus::Poisoned,
        }
    }

    pub fn to_u8(&self) -> (r: u8)
        ensures
            r == self.code(),
    {
        match self {
            PitStatus::NotInPits => 0,
            PitStatus::Pitting => 1,
            PitStatus::InPitArea => 2,
            PitStatus::Poisoned => 255,
        }
    }
}

/// What a driver is doing.
#[derive(Debug, Default, Clone, Copy, PartialEq, Eq, Structural)]
pub enum CarState {
    InGarage,
    OnFlyingLap,
    InLap,
    OutLap,
    OnTrack,
    #[default]
    Poisoned,
}

impl CarState {
    /// The variant that the on-wire byte `b` names.
    pub open spec fn from_code(b: u8) -> Self {
        match b {
            0 => CarState::InGarage,
            1 => CarState::OnFlyingLap,
            2 => CarState::InLap,
            3 => CarState::OutLap,
            4 => CarState::OnTrack,
            _ => CarState::Poisoned,
        }
    }

    /// The on-wire byte of each variant.
    pub open spec fn code(self) -> u8 {
        match self {
            CarState::InGarage => 0,
            CarState::OnFlyingLap => 1,
            CarState::InLap => 2,
            CarState::OutLap => 3,
            CarState::OnTrack => 4,
            CarState::Poisoned => 255,
        }
    }

    pub fn from_u8(byte: u8) -> (r: Self)
        ensures
            r == Self::from_code(byte),
    {
        match byte {
            0 => CarState::InGarage,
            1 => CarState::OnFlyingLap,
            2 => CarState::InLap,
            3 => CarState::OutLap,
            4 => CarState::OnTrack,
            _ => CarState::Poisoned,
        }
    }

    pub fn to_u8(&self) -> (r: u8)
        ensures
            r == self.code(),
    {
        match self {
            CarState::InGarage => 0,
            CarState::OnFlyingLap => 1,
            CarState::InLap => 2,
            CarState::OutLap => 3,
            CarState::OnTrack => 4,
            CarState::Poisoned => 255,
        }
    }
}

/// A car's result.
#[derive(Debug, Default, Clone, Copy, PartialEq, Eq, Structural)]
pub enum ResultStatus {
    #[default]
    Invalid,
    Inactive,
    Active,
    Finished,
    DidNotFinish,
    Disqualified,
    NotClassified,
    Retired,
    Poisoned,
}

impl ResultStatus {
    /// The variant that the on-wire byte `b` names.
    pub open spec fn from_code(b: u8) -> Self {
        match b {
            0 => ResultStatus::Invalid,
            1 => ResultStatus::Inactive,
            2 => ResultStatus::Active,
            3 => ResultStatus::Finished,
            4 => ResultStatus::DidNotFinish,
            5 => ResultStatus::Disqualified,
            6 => ResultStatus::NotClassified,
            7 => ResultStatus::Retired,
            _ => ResultStatus::Poisoned,
        }
    }

    /// The on-wire byte of each variant.
    pub open spec fn code(self) -> u8 {
        match self {
            ResultStatus::Invalid => 0,
            ResultStatus::Inactive => 1,
            ResultStatus::Active => 2,
            ResultStatus::Finished => 3,
            ResultStatus::DidNotFinish => 4,
            ResultStatus::Disqualified => 5,
            ResultStatus::NotClassified => 6,
            ResultStatus::Retired => 7,
            ResultStatus::Poisoned => 255,
        }
    }

    pub fn from_u8(byte: u8) -> (r: Self)
        ensures
            r == Self::from_code(byte),
    {
        match byte {
            0 => ResultStatus::Invalid,
            1 => ResultStatus::Inactive,
            2 => ResultStatus::Active,
            3 => ResultStatus::Finished,
            4 => ResultStatus::DidNotFinish,
            5 => ResultStatus::Disqualified,
            6 => ResultStatus::NotClassified,
            7 => ResultStatus::Retired,
            _ => ResultStatus::Poisoned,
        }
    }

    pub fn to_u8(&self) -> (r: u8)
        ensures
            r == self.code(),
    {
        match self {
            ResultStatus::Invalid => 0,
            ResultStatus::Inactive => 1,
            ResultStatus::Active => 2,
            ResultStatus::Finished => 3,
            ResultStatus::DidNotFinish => 4,
            ResultStatus::Disqualified => 5,
            ResultStatus::NotClassified => 6,
            ResultStatus::Retired => 7,
            ResultStatus::Poisoned => 255,
        }
    }
}

/// The selected gear; a signed byte on the wire, reverse is -1.
#[derive(Debug, Default, Clone, Copy, PartialEq, Eq, Structural)]
pub enum Gear {
    Reverse,
    Neutral,
    First,
    Second,
    Third,
    Forth,
    Fifth,
    Sixth,
    Seventh,
    Eighth,
    #[default]
    Poisoned,
}

impl Gear {
    /// The variant that the on-wire byte `b` names.
    pub open spec fn from_code(b: u8) -> Self {
        match b {
            255 => Gear::Reverse,
            0 => Gear::Neutral,
            1 => Gear::First,
            2 => Gear::Second,
            3 => Gear::Third,
            4 => Gear::Forth,
            5 => Gear::Fifth,
            6 => Gear::Sixth,
            7 => Gear::Seventh,
            8 => Gear::Eighth,
            _ => Gear::Poisoned,
        }
    }

    /// The on-wire byte of each variant.
    pub open spec fn code(self) -> u8 {
        match self {
            Gear::Reverse => 255,
            Gear::Neutral => 0,
            Gear::First => 1,
            Gear::Second => 2,
            Gear::Third => 3,
            Gear::Forth => 4,
            Gear::Fifth => 5,
            Gear::Sixth => 6,
            Gear::Seventh => 7,
            Gear::Eighth => 8,
            Gear::Poisoned => 127,
        }
    }

    pub fn from_u8_to_i8(byte: &u8) -> (r: Self)
        ensures
            r == Self::from_code(*byte),
    {
        match *byte {
            255 => Gear::Reverse,
            0 => Gear::Neutral,
            1 => Gear::First,
            2 => Gear::Second,
            3 => Gear::Third,
            4 => Gear::Forth,
            5 => Gear::Fifth,
            6 => Gear::Sixth,
            7 => Gear::Seventh,
            8 => Gear::Eighth,
            _ => Gear::Poisoned,
        }
    }

    pub fn to_u8(&self) -> (r: u8)
        ensures
            r == self.code(),
    {
        match self {
            Gear::Reverse => 255,
            Gear::Neutral => 0,
            Gear::First => 1,
            Gear::Second => 2,
            Gear::Third => 3,
            Gear::Forth => 4,
            Gear::Fifth => 5,
            Gear::Sixth => 6,
            Gear::Seventh => 7,
            Gear::Eighth => 8,
            Gear::Poisoned => 127,
        }
    }
}

/// The multi-function display panel that is open.
#[derive(Debug, Default, Clone, Copy, PartialEq, Eq, Structural)]
pub enum MFDPanel {
    Setup,
    Pits,
    Damage,
    Engine,
    Temperatures,
    Closed,
    #[default]
    Poisoned,
}

impl MFDPanel {
    /// The variant that the on-wire byte `b` names.
    pub open spec fn from_code(b: u8) -> Self {
        match b {
            0 => MFDPanel::Setup,
            1 => MFDPanel::Pits,
            2 => MFDPanel::Damage,
            3 => MFDPanel::Engine,
            4 => MFDPanel::Temperatures,
            255 => MFDPanel::Closed,
            _ => MFDPanel::Poisoned,
        }
    }

    /// The on-wire byte of each variant.
    pub open spec fn code(self) -> u8 {
        match self {
            MFDPanel::Setup => 0,
            MFDPanel::Pits => 1,
            MFDPanel::Damage => 2,
            MFDPanel::Engine => 3,
            MFDPanel::Temperatures => 4,
            MFDPanel::Closed => 255,
            MFDPanel::Poisoned => 254,
        }
    }

    pub fn from_u8(byte: &u8) -> (r: Self)
        ensures
            r == Self::from_code(*byte),
    {
        match *byte {
            0 => MFDPanel::Setup,
            1 => MFDPanel::Pits,
            2 => MFDPanel::Damage,
            3 => MFDPanel::Engine,
            4 => MFDPanel::Temperatures,
            255 => MFDPanel::Closed,
            _ => MFDPanel::Poisoned,
        }
    }

    pub fn to_u8(&self) -> (r: u8)
        ensures
            r == self.code(),
    {
        match self {
            MFDPanel::Setup => 0,
            MFDPanel::Pits => 1,
            MFDPanel::Damage => 2,
            MFDPanel::Engine => 3,
            MFDPanel::Temperatures => 4,
            MFDPanel::Closed => 255,
            MFDPanel::Poisoned => 254,
        }
    }
}

/// Traction control level.
#[derive(Debug, Default, Clone, Copy, PartialEq, Eq, Structural)]
pub enum TC {
    Off,
    Medium,
    Full,
    #[default]
    Poisoned,
}

impl TC {
    /// The variant that the on-wire byte `b` names.
    pub open spec fn from_code(b: u8) -> Self {
        match b {
            0 => TC::Off,
            1 => TC::Medium,
            2 => TC::Full,
            _ => TC::Poisoned,
        }
    }

    /// The on-wire byte of each variant.
    pub open spec fn code(self) -> u8 {
        match self {
            TC::Off => 0,
            TC::Medium => 1,
            TC::Full => 2,
            TC::Poisoned => 255,
        }
    }

    pub fn from_u8(byte: &u8) -> (r: Self)
        ensures
            r == Self::from_code(*byte),
    {
        match *byte {
            0 => TC::Off,
            1 => TC::Medium,
            2 => TC::Full,
            _ => TC::Poisoned,
        }
    }

    pub fn to_u8(&self) -> (r: u8)
        ensures
            r == self.code(),
    {
        match self {
            TC::Off => 0,
            TC::Medium => 1,
            TC::Full => 2,
            TC::Poisoned => 255,
        }
    }
}

/// Fuel mix.
#[derive(Debug, Default, Clone, Copy, PartialEq, Eq, Structural)]
pub enum FuelMix {
    Lean,
    Standard,
    Rich,
    Max,
    #[default]
    Poisoned,
}

impl FuelMix {
    /// The variant that the on-wire byte `b` names.
    pub open spec fn from_code(b: u8) -> Self {
        match b {
            0 => FuelMix::Lean,
            1 => FuelMix::Standard,
            2 => FuelMix::Rich,
            3 => FuelMix::Max,
            _ => FuelMix::Poisoned,
        }
    }

    /// The on-wire byte of each variant.
    pub open spec fn code(self) -> u8 {
        match self {
            FuelMix::Lean => 0,
            FuelMix::Standard => 1,
            FuelMix::Rich => 2,
            FuelMix::Max => 3,
            FuelMix::Poisoned => 255,
        }
    }

    pub fn from_u8(byte: &u8) -> (r: Self)
        ensures
            r == Self::from_code(*byte),
    {
        match *byte {
            0 => FuelMix::Lean,
            1 => FuelMix::Standard,
            2 => FuelMix::Rich,
            3 => FuelMix::Max,
            _ => FuelMix::Poisoned,
        }
    }

    pub fn to_u8(&self) -> (r: u8)
        ensures
            r == self.code(),
    {
        match self {
            FuelMix::Lean => 0,
            FuelMix::Standard => 1,
            FuelMix::Rich => 2,
            FuelMix::Max => 3,
            FuelMix::Poisoned => 255,
        }
    }
}

/// The tyre compound actually fitted.
#[derive(Debug, Default, Clone, Copy, PartialEq, Eq, Structural)]
pub enum ActualCompound {
    C6,
    C0,
    C1,
    C2,
    C3,
    C4,
    C5,
    F2Wet,
    F2Hard,
    F2Medium,
    F2Soft,
    F2SuperSoft,
    ClassicWet,
    ClassicDry,
    Wet,
    Inter,
    #[default]
    Poisoned,
}

impl ActualCompound {
    /// The variant that the on-wire byte `b` names.
    pub open spec fn from_code(b: u8) -> Self {
        match b {
            22 => ActualCompound::C6,
            21 => ActualCompound::C0,
            20 => ActualCompound::C1,
            19 => ActualCompound::C2,
            18 => ActualCompound::C3,
            17 => ActualCompound::C4,
            16 => ActualCompound::C5,
            15 => ActualCompound::F2Wet,
            14 => ActualCompound::F2Hard,
            13 => ActualCompound::F2Medium,
            12 => ActualCompound::F2Soft,
            11 => ActualCompound::F2SuperSoft,
            10 => ActualCompound::ClassicWet,
            9 => ActualCompound::ClassicDry,
            8 => ActualCompound::Wet,
            7 => ActualCompound::Inter,
            _ => ActualCompound::Poisoned,
        }
    }

    /// The on-wire byte of each variant.
    pub open spec fn code(self) -> u8 {
        match self {
            ActualCompound::C6 => 22,
            ActualCompound::C0 => 21,
            ActualCompound::C1 => 20,
            ActualCompound::C2 => 19,
            ActualCompound::C3 => 18,
            ActualCompound::C4 => 17,
            ActualCompound::C5 => 16,
            ActualCompound::F2Wet => 15,
            ActualCompound::F2Hard => 14,
            ActualCompound::F2Medium => 13,
            ActualCompound::F2Soft => 12,
            ActualCompound::F2SuperSoft => 11,
            ActualCompound::ClassicWet => 10,
            ActualCompound::ClassicDry => 9,
            ActualCompound::Wet => 8,
            ActualCompound::Inter => 7,
            ActualCompound::Poisoned => 255,
        }
    }

    pub fn from_u8(byte: &u8) -> (r: Self)
        ensures
            r == Self::from_code(*byte),
    {
        match *byte {
            22 => ActualCompound::C6,
            21 => ActualCompound::C0,
            20 => ActualCompound::C1,
            19 => ActualCompound::C2,
            18 => ActualCompound::C3,
            17 => ActualCompound::C4,
            16 => ActualCompound::C5,
            15 => ActualCompound::F2Wet,
            14 => ActualCompound::F2Hard,
            13 => ActualCompound::F2Medium,
            12 => ActualCompound::F2Soft,
            11 => ActualCompound::F2SuperSoft,
            10 => ActualCompound::ClassicWet,
            9 => ActualCompound::ClassicDry,
            8 => ActualCompound::Wet,
            7 => ActualCompound::Inter,
            _ => ActualCompound::Poisoned,
        }
    }

    pub fn to_u8(&self) -> (r: u8)
        ensures
            r == self.code(),
    {
        match self {
            ActualCompound::C6 => 22,
            ActualCompound::C0 => 21,
            ActualCompound::C1 => 20,
            ActualCompound::C2 => 19,
            ActualCompound::C3 => 18,
            ActualCompound::C4 => 17,
            ActualCompound::C5 => 16,
            ActualCompound::F2Wet => 15,
            ActualCompound::F2Hard => 14,
            ActualCompound::F2Medium => 13,
            ActualCompound::F2Soft => 12,
            ActualCompound::F2SuperSoft => 11,
            ActualCompound::ClassicWet => 10,
            ActualCompound::ClassicDry => 9,
            ActualCompound::Wet => 8,
            ActualCompound::Inter => 7,
            ActualCompound::Poisoned => 255,
        }
    }
}

/// The tyre compound as shown.
#[derive(Debug, Default, Clone, Copy, PartialEq, Eq, Structural)]
pub enum VisualCompound {
    OldHard,
    OldMedium,
    OldSoft,
    OldSuperSoft,
    Hard,
    Medium,
    Soft,
    OldWet,
    ClassicWet,
    ClassicDry,
    Wet,
    Inter,
    #[default]
    Poisoned,
}

impl VisualCompound {
    /// The variant that the on-wire byte `b` names.
    pub open spec fn from_code(b: u8) -> Self {
        match b {
            22 => VisualCompound::OldHard,
            21 => VisualCompound::OldMedium,
            20 => VisualCompound::OldSoft,
            19 => VisualCompound::OldSuperSoft,
            18 => VisualCompound::Hard,
            17 => VisualCompound::Medium,
            16 => VisualCompound::Soft,
            15 => VisualCompound::OldWet,
            10 => VisualCompound::ClassicWet,
            9 => VisualCompound::ClassicDry,
            8 => VisualCompound::Wet,
            7 => VisualCompound::Inter,
            _ => VisualCompound::Poisoned,
        }
    }

    /// The on-wire byte of each variant.
    pub open spec fn code(self) -> u8 {
        match self {
            VisualCompound::OldHard => 22,
            VisualCompound::OldMedium => 21,
            VisualCompound::OldSoft => 20,
            VisualCompound::OldSuperSoft => 19,
            VisualCompound::Hard => 18,
            VisualCompound::Medium => 17,
            VisualCompound::Soft => 16,
            VisualCompound::OldWet => 15,
            VisualCompound::ClassicWet => 10,
            VisualCompound::ClassicDry => 9,
            VisualCompound::Wet => 8,
            VisualCompound::Inter => 7,
            VisualCompound::Poisoned => 0,
        }
    }

    pub fn from_u8(byte: &u8) -> (r: Self)
        ensures
            r == Self::from_code(*byte),
    {
        match *byte {
            22 => VisualCompound::OldHard,
            21 => VisualCompound::OldMedium,
            20 => VisualCompound::OldSoft,
            19 => VisualCompound::OldSuperSoft,
            18 => VisualCompound::Hard,
            17 => VisualCompound::Medium,
            16 => VisualCompound::Soft,
            15 => VisualCompound::OldWet,
            10 => VisualCompound::ClassicWet,
            9 => VisualCompound::ClassicDry,
            8 => VisualCompound::Wet,
            7 => VisualCompound::Inter,
            _ => VisualCompound::Poisoned,
        }
    }

    pub fn to_u8(&self) -> (r: u8)
        ensures
            r == self.code(),
    {
        match self {
            VisualCompound::OldHard => 22,
            VisualCompound::OldMedium => 21,
            VisualCompound::OldSoft => 20,
            VisualCompound::OldSuperSoft => 19,
            VisualCompound::Hard => 18,
            VisualCompound::Medium => 17,
            VisualCompound::Soft => 16,
            VisualCompound::OldWet => 15,
            VisualCompound::ClassicWet => 10,
            VisualCompound::ClassicDry => 9,
            VisualCompound::Wet => 8,
            VisualCompound::Inter => 7,
            VisualCompound::Poisoned => 0,
        }
    }
}

/// ERS deployment mode.
#[derive(Debug, Default, Clone, Copy, PartialEq, Eq, Structural)]
pub enum ErsDeployMode {
    NoDeploy,
    Medium,
    Hotlap,
    Overtake,
    #[default]
    Poisoned,
}

impl ErsDeployMode {
    /// The variant that the on-wire byte `b` names.
    pub open spec fn from_code(b: u8) -> Self {
        match b {
            0 => ErsDeployMode::NoDeploy,
            1 => ErsDeployMode::Medium,
            2 => ErsDeployMode::Hotlap,
            3 => ErsDeployMode::Overtake,
            _ => ErsDeployMode::Poisoned,
        }
    }

    /// The on-wire byte of each variant.
    pub open spec fn code(self) -> u8 {
        match self {
            ErsDeployMode::NoDeploy => 0,
            ErsDeployMode::Medium => 1,
            ErsDeployMode::Hotlap => 2,
            ErsDeployMode::Overtake => 3,
            ErsDeployMode::Poisoned => 255,
        }
    }

    pub fn from_u8(byte: &u8) -> (r: Self)
        ensures
            r == Self::from_code(*byte),
    {
        match *byte {
            0 => ErsDeployMode::NoDeploy,
            1 => ErsDeployMode::Medium,
            2 => ErsDeployMode::Hotlap,
            3 => ErsDeployMode::Overtake,
            _ => ErsDeployMode::Poisoned,
        }
    }

    pub fn to_u8(&self) -> (r: u8)
        ensures
            r == self.code(),
    {
        match self {
            ErsDeployMode::NoDeploy => 0,
            ErsDeployMode::Medium => 1,
            ErsDeployMode::Hotlap => 2,
            ErsDeployMode::Overtake => 3,
            ErsDeployMode::Poisoned => 255,
        }
    }
}

/// A lobby player's ready state.
#[derive(Debug, Default, Clone, Copy, PartialEq, Eq, Structural)]
pub enum ReadyStatus {
    NotReady,
    Ready,
    Spectating,
    #[default]
    Poisoned,
}

impl ReadyStatus {
    /// The variant that the on-wire byte `b` names.
    pub open spec fn from_code(b: u8) -> Self {
        match b {
            0 => ReadyStatus::NotReady,
            1 => ReadyStatus::Ready,
            2 => ReadyStatus::Spectating,
            _ => ReadyStatus::Poisoned,
        }
    }

    /// The on-wire byte of each variant.
    pub open spec fn code(self) -> u8 {
        match self {
            ReadyStatus::NotReady => 0,
            ReadyStatus::Ready => 1,
            ReadyStatus::Spectating => 2,
            ReadyStatus::Poisoned => 255,
        }
    }

    pub fn from_u8(byte: &u8) -> (r: Self)
        ensures
            r == Self::from_code(*byte),
    {
        match *byte {
            0 => ReadyStatus::NotReady,
            1 => ReadyStatus::Ready,
            2 => ReadyStatus::Spectating,
            _ => ReadyStatus::Poisoned,
        }
    }

    pub fn to_u8(&self) -> (r: u8)
        ensures
            r == self.code(),
    {
        match self {
            ReadyStatus::NotReady => 0,
            ReadyStatus::Ready => 1,
            ReadyStatus::Spectating => 2,
            ReadyStatus::Poisoned => 255,
        }
    }
}

/// Which parts of a lap were valid, as bit flags.
#[derive(Debug, Default, Clone, Copy, PartialEq, Eq, Structural)]
pub enum Valid {
    Lap,
    Sector1,
    Sector2,
    Sector2And1,
    Sector3,
    Sector3And1,
    Sector3And2,
    All,
    #[default]
    Poisoned,
}

impl Valid {
    /// The variant that the on-wire byte `b` names.
    pub open spec fn from_code(b: u8) -> Self {
        match b {
            1 => Valid::Lap,
            2 => Valid::Sector1,
            4 => Valid::Sector2,
            6 => Valid::Sector2And1,
            8 => Valid::Sector3,
            10 => Valid::Sector3And1,
            12 => Valid::Sector3And2,
            15 => Valid::All,
            _ => Valid::Poisoned,
        }
    }

    /// The on-wire byte of each variant.
    pub open spec fn code(self) -> u8 {
        match self {
            Valid::Lap => 1,
            Valid::Sector1 => 2,
            Valid::Sector2 => 4,
            Valid::Sector2And1 => 6,
            Valid::Sector3 => 8,
            Valid::Sector3And1 => 10,
            Valid::Sector3And2 => 12,
            Valid::All => 15,
            Valid::Poisoned => 255,
        }
    }

    pub fn from_u8(byte: &u8) -> (r: Self)
        ensures
            r == Self::from_code(*byte),
    {
        match *byte {
            1 => Valid::Lap,
            2 => Valid::Sector1,
            4 => Valid::Sector2,
            6 => Valid::Sector2And1,
            8 => Valid::Sector3,
            10 => Valid::Sector3And1,
            12 => Valid::Sector3And2,
            15 => Valid::All,
            _ => Valid::Poisoned,
        }
    }

    pub fn to_u8(&self) -> (r: u8)
        ensures
            r == self.code(),
    {
        match self {
            Valid::Lap => 1,
            Valid::Sector1 => 2,
            Valid::Sector2 => 4,
            Valid::Sector2And1 => 6,
            Valid::Sector3 => 8,
            Valid::Sector3And1 => 10,
            Valid::Sector3And2 => 12,
            Valid::All => 15,
            Valid::Poisoned => 255,
        }
    }
}

/// One light of the rev-light bar, leftmost first.
#[derive(Debug, Default, Clone, Copy, PartialEq, Eq, Structural)]
pub enum LEDs {
    #[default]
    Off,
    One,
    Two,
    Three,
    Four,
    Five,
    Six,
    Seven,
    Eight,
    Nine,
    Ten,
    Eleven,
    Twelve,
    Thriteen,
    Fourteen,
    Fifthteen,
}

impl LEDs {
    /// The bit of the rev-light field that this light is; none for `Off`.
    pub open spec fn bit(self) -> u16 {
        match self {
            LEDs::Off => 0,
            LEDs::One => 1,
            LEDs::Two => 2,
            LEDs::Three => 4,
            LEDs::Four => 8,
            LEDs::Five => 16,
            LEDs::Six => 32,
            LEDs::Seven => 64,
            LEDs::Eight => 128,
            LEDs::Nine => 256,
            LEDs::Ten => 512,
            LEDs::Eleven => 1024,
            LEDs::Twelve => 2048,
            LEDs::Thriteen => 4096,
            LEDs::Fourteen => 8192,
            LEDs::Fifthteen => 16384,
        }
    }

    pub fn mask(&self) -> (r: u16)
        ensures
            r == self.bit(),
    {
        match self {
            LEDs::Off => 0,
            LEDs::One => 1,
            LEDs::Two => 2,
            LEDs::Three => 4,
            LEDs::Four => 8,
            LEDs::Five => 16,
            LEDs::Six => 32,
            LEDs::Seven => 64,
            LEDs::Eight => 128,
            LEDs::Nine => 256,
            LEDs::Ten => 512,
            LEDs::Eleven => 1024,
            LEDs::Twelve => 2048,
            LEDs::Thriteen => 4096,
            LEDs::Fourteen => 8192,
            LEDs::Fifthteen => 16384,
        }
    }
}

} // verus!
