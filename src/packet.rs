//! The packet records of the wire format, each read from a fixed layout.
//! Floating-point fields hold their IEEE-754 bits; the records are tightly packed.
use vstd::prelude::*;
use vstd::slice::slice_subrange;
use crate::codes::{Accuracy, ActualCompound, Assist, CarState, ErsDeployMode, Formula, FuelMix, Gear, MFDPanel, NetworkGame, PitStatus, ReadyStatus, ResultStatus, SLIPro, SafetyCar, Session, SessionLength, TC, Temperature, Valid, VisualCompound, Weather, ZoneFlag};
use crate::header::Header;
use crate::wire::{le16, le16_signed, le32, le64, read_bytes, read_i16, read_i8, read_u16, read_u16s, read_u32, read_u32s, read_u64, read_u8, signed8};

verus! {

pub const VECTOR_SIZE: usize = 12;
pub const DIRECTION_SIZE: usize = 6;
pub const FORCES_SIZE: usize = 12;
pub const WHEELS_SIZE: usize = 16;
pub const CAR_MOTION_SIZE: usize = 60;
pub const MARSHAL_ZONE_SIZE: usize = 5;
pub const WEATHER_FORECAST_SIZE: usize = 8;
pub const CAR_SIZE: usize = 57;
pub const FASTEST_LAP_SIZE: usize = 5;
pub const RETIREMENT_SIZE: usize = 1;
pub const TEAM_MATE_IN_PITS_SIZE: usize = 1;
pub const RACE_WINNER_SIZE: usize = 1;
pub const PENALTY_SIZE: usize = 7;
pub const SPEED_TRAP_SIZE: usize = 12;
pub const START_LIGHTS_SIZE: usize = 1;
pub const DRIVE_THROUGH_PENALTY_SERVED_SIZE: usize = 1;
pub const STOP_GO_PENALTY_SERVED_SIZE: usize = 1;
pub const FLASHBACK_SIZE: usize = 8;
pub const BUTTONS_SIZE: usize = 4;
pub const EVENT_TAG_SIZE: usize = 4;
pub const LIVERY_COLOUR_SIZE: usize = 3;
pub const PARTICIPANT_SIZE: usize = 57;
pub const CAR_SETUP_SIZE: usize = 49;
pub const KPH_SIZE: usize = 2;
pub const REV_LIGHTS_SIZE: usize = 2;
pub const CAR_TELEMETRY_SIZE: usize = 60;
pub const CAR_STATUS_SIZE: usize = 55;
pub const FINAL_CLASSIFICATION_SIZE: usize = 45;
pub const LOBBY_INFO_SIZE: usize = 53;
pub const CAR_DAMAGE_SIZE: usize = 42;
pub const LAP_HISTORY_SIZE: usize = 11;
pub const TYRE_STINT_HISTORY_SIZE: usize = 3;
pub const PACKET_MOTION_SIZE: usize = 1469;
pub const PACKET_SESSION_SIZE: usize = 753;
pub const PACKET_LAP_SIZE: usize = 1285;
pub const PACKET_PARTICIPANTS_SIZE: usize = 1284;
pub const PACKET_CAR_SETUPS_SIZE: usize = 1107;
pub const PACKET_CAR_TELEMETRY_SIZE: usize = 1352;
pub const PACKET_CAR_STATUS_SIZE: usize = 1239;
pub const PACKET_FINAL_CLASSIFICATION_SIZE: usize = 1020;
pub const PACKET_LOBBY_INFO_SIZE: usize = 1196;
pub const PACKET_CAR_DAMAGE_SIZE: usize = 953;
pub const PACKET_SESSION_HISTORY_SIZE: usize = 1160;

/// A vector of three single-precision values, held as IEEE-754 bits.
#[derive(Debug, Clone, Copy)]
pub struct Vector {
    pub X: u32,
    pub Y: u32,
    pub Z: u32,
}

impl Vector {
    /// This record is what the 12 bytes of `b` at `o` encode.
    pub open spec fn matches_bytes(self, b: Seq<u8>, o: int) -> bool {
        &&& self.X == le32(b, o)
        &&& self.Y == le32(b, o + 4)
        &&& self.Z == le32(b, o + 8)
    }

    /// The record encoded at `o`.
    pub fn read_at(bytes: &[u8], o: usize) -> (r: Self)
        requires
            o + VECTOR_SIZE <= bytes@.len(),
        ensures
            r.matches_bytes(bytes@, o as int),
    {
        assert(bytes@.len() == bytes.len());
        Vector {
            X: read_u32(bytes, o),
            Y: read_u32(bytes, o + 4),
            Z: read_u32(bytes, o + 8),
        }
    }

    pub fn unpack(bytes: &[u8]) -> (r: Self)
        requires
            bytes@.len() >= VECTOR_SIZE,
        ensures
            r.matches_bytes(bytes@, 0),
    {
        Self::read_at(bytes, 0)
    }
}

/// A normalised direction as three signed 16-bit values.
#[derive(Debug, Clone, Copy)]
pub struct Direction {
    pub X: i16,
    pub Y: i16,
    pub Z: i16,
}

impl Direction {
    /// This record is what the 6 bytes of `b` at `o` encode.
    pub open spec fn matches_bytes(self, b: Seq<u8>, o: int) -> bool {
        &&& self.X == le16_signed(b, o)
        &&& self.Y == le16_signed(b, o + 2)
        &&& self.Z == le16_signed(b, o + 4)
    }

    /// The record encoded at `o`.
    pub fn read_at(bytes: &[u8], o: usize) -> (r: Self)
        requires
            o + DIRECTION_SIZE <= bytes@.len(),
        ensures
            r.matches_bytes(bytes@, o as int),
    {
        assert(bytes@.len() == bytes.len());
        Direction {
            X: read_i16(bytes, o),
            Y: read_i16(bytes, o + 2),
            Z: read_i16(bytes, o + 4),
        }
    }

    pub fn unpack(bytes: &[u8]) -> (r: Self)
        requires
            bytes@.len() >= DIRECTION_SIZE,
        ensures
            r.matches_bytes(bytes@, 0),
    {
        Self::read_at(bytes, 0)
    }
}

/// G-forces, held as IEEE-754 bits.
#[derive(Debug, Clone, Copy)]
pub struct Forces {
    pub Lateral: u32,
    pub Longitudinal: u32,
    pub Vertical: u32,
}

impl Forces {
    /// This record is what the 12 bytes of `b` at `o` encode.
    pub open spec fn matches_bytes(self, b: Seq<u8>, o: int) -> bool {
        &&& self.Lateral == le32(b, o)
        &&& self.Longitudinal == le32(b, o + 4)
        &&& self.Vertical == le32(b, o + 8)
    }

    /// The record encoded at `o`.
    pub fn read_at(bytes: &[u8], o: usize) -> (r: Self)
        requires
            o + FORCES_SIZE <= bytes@.len(),
        ensures
            r.matches_bytes(bytes@, o as int),
    {
        assert(bytes@.len() == bytes.len());
        Forces {
            Lateral: read_u32(bytes, o),
            Longitudinal: read_u32(bytes, o + 4),
            Vertical: read_u32(bytes, o + 8),
        }
    }

    pub fn unpack(bytes: &[u8]) -> (r: Self)
        requires
            bytes@.len() >= FORCES_SIZE,
        ensures
            r.matches_bytes(bytes@, 0),
    {
        Self::read_at(bytes, 0)
    }
}

/// One value per wheel (rear left, rear right, front left, front right), held as IEEE-754 bits.
#[derive(Debug, Clone, Copy)]
pub struct Wheels {
    pub RL: u32,
    pub RR: u32,
    pub FL: u32,
    pub FR: u32,
}

impl Wheels {
    /// This record is what the 16 bytes of `b` at `o` encode.
    pub open spec fn matches_bytes(self, b: Seq<u8>, o: int) -> bool {
        &&& self.RL == le32(b, o)
        &&& self.RR == le32(b, o + 4)
        &&& self.FL == le32(b, o + 8)
        &&& self.FR == le32(b, o + 12)
    }

    /// The record encoded at `o`.
    pub fn read_at(bytes: &[u8], o: usize) -> (r: Self)
        requires
            o + WHEELS_SIZE <= bytes@.len(),
        ensures
            r.matches_bytes(bytes@, o as int),
    {
        assert(bytes@.len() == bytes.len());
        Wheels {
            RL: read_u32(bytes, o),
            RR: read_u32(bytes, o + 4),
            FL: read_u32(bytes, o + 8),
            FR: read_u32(bytes, o + 12),
        }
    }

    pub fn unpack(bytes: &[u8]) -> (r: Self)
        requires
            bytes@.len() >= WHEELS_SIZE,
        ensures
            r.matches_bytes(bytes@, 0),
    {
        Self::read_at(bytes, 0)
    }
}

/// Motion of one car; angles and positions are IEEE-754 bits.
#[derive(Debug, Clone, Copy)]
pub struct CarMotion {
    pub worldPosition: Vector,
    pub worldVelocity: Vector,
    pub worldForward: Direction,
    pub worldRight: Direction,
    pub gForce: Forces,
    pub yaw: u32,
    pub pitch: u32,
    pub roll: u32,
}

impl CarMotion {
    /// This record is what the 60 bytes of `b` at `o` encode.
    pub open spec fn matches_bytes(self, b: Seq<u8>, o: int) -> bool {
        &&& self.worldPosition.matches_bytes(b, o)
        &&& self.worldVelocity.matches_bytes(b, o + 12)
        &&& self.worldForward.matches_bytes(b, o + 24)
        &&& self.worldRight.matches_bytes(b, o + 30)
        &&& self.gForce.matches_bytes(b, o + 36)
        &&& self.yaw == le32(b, o + 48)
        &&& self.pitch == le32(b, o + 52)
        &&& self.roll == le32(b, o + 56)
    }

    /// The record encoded at `o`.
    pub fn read_at(bytes: &[u8], o: usize) -> (r: Self)
        requires
            o + CAR_MOTION_SIZE <= bytes@.len(),
        ensures
            r.matches_bytes(bytes@, o as int),
    {
        assert(bytes@.len() == bytes.len());
        CarMotion {
            worldPosition: Vector::read_at(bytes, o),
            worldVelocity: Vector::read_at(bytes, o + 12),
            worldForward: Direction::read_at(bytes, o + 24),
            worldRight: Direction::read_at(bytes, o + 30),
            gForce: Forces::read_at(bytes, o + 36),
            yaw: read_u32(bytes, o + 48),
            pitch: read_u32(bytes, o + 52),
            roll: read_u32(bytes, o + 56),
        }
    }

    pub fn unpack(bytes: &[u8]) -> (r: Self)
        requires
            bytes@.len() >= CAR_MOTION_SIZE,
        ensures
            r.matches_bytes(bytes@, 0),
    {
        Self::read_at(bytes, 0)
    }
}

/// A marshal zone: where it starts (IEEE-754 bits of a lap fraction) and its flag.
#[derive(Debug, Clone, Copy)]
pub struct MarshalZone {
    pub zoneStart: u32,
    pub zoneFlag: ZoneFlag,
}

impl MarshalZone {
    /// This record is what the 5 bytes of `b` at `o` encode.
    pub open spec fn matches_bytes(self, b: Seq<u8>, o: int) -> bool {
        &&& self.zoneStart == le32(b, o)
        &&& self.zoneFlag == ZoneFlag::from_code(b[o + 4])
    }

    /// The record encoded at `o`.
    pub fn read_at(bytes: &[u8], o: usize) -> (r: Self)
        requires
            o + MARSHAL_ZONE_SIZE <= bytes@.len(),
        ensures
            r.matches_bytes(bytes@, o as int),
    {
        assert(bytes@.len() == bytes.len());
        MarshalZone {
            zoneStart: read_u32(bytes, o),
            zoneFlag: ZoneFlag::from_u8_to_i8(&read_u8(bytes, o + 4)),
        }
    }

    pub fn unpack(bytes: &[u8]) -> (r: Self)
        requires
            bytes@.len() >= MARSHAL_ZONE_SIZE,
        ensures
            r.matches_bytes(bytes@, 0),
    {
        Self::read_at(bytes, 0)
    }
}

/// One weather forecast sample.
#[derive(Debug, Clone, Copy)]
pub struct WeatherForecast {
    pub sessionType: Session,
    pub timeOffset: u8,
    pub weather: Weather,
    pub trackTemperature: i8,
    pub trackChange: Temperature,
    pub airTemperature: i8,
    pub airChange: Temperature,
    pub rainPercentage: u8,
}

impl WeatherForecast {
    /// This record is what the 8 bytes of `b` at `o` encode.
    pub open spec fn matches_bytes(self, b: Seq<u8>, o: int) -> bool {
        &&& self.sessionType == Session::from_code(b[o])
        &&& self.timeOffset == b[o + 1]
        &&& self.weather == Weather::from_code(b[o + 2])
        &&& self.trackTemperature == signed8(b[o + 3])
        &&& self.trackChange == Temperature::from_code(b[o + 4])
        &&& self.airTemperature == signed8(b[o + 5])
        &&& self.airChange == Temperature::from_code(b[o + 6])
        &&& self.rainPercentage == b[o + 7]
    }

    /// The record encoded at `o`.
    pub fn read_at(bytes: &[u8], o: usize) -> (r: Self)
        requires
            o + WEATHER_FORECAST_SIZE <= bytes@.len(),
        ensures
            r.matches_bytes(bytes@, o as int),
    {
        assert(bytes@.len() == bytes.len());
        WeatherForecast {
            sessionType: Session::from_u8(&read_u8(bytes, o)),
            timeOffset: read_u8(bytes, o + 1),
            weather: Weather::from_u8(&read_u8(bytes, o + 2)),
            trackTemperature: read_i8(bytes, o + 3),
            trackChange: Temperature::from_u8(&read_u8(bytes, o + 4)),
            airTemperature: read_i8(bytes, o + 5),
            airChange: Temperature::from_u8(&read_u8(bytes, o + 6)),
            rainPercentage: read_u8(bytes, o + 7),
        }
    }

    pub fn unpack(bytes: &[u8]) -> (r: Self)
        requires
            bytes@.len() >= WEATHER_FORECAST_SIZE,
        ensures
            r.matches_bytes(bytes@, 0),
    {
        Self::read_at(bytes, 0)
    }
}

/// The lap record of one car; distances and speeds are IEEE-754 bits.
#[derive(Debug, Clone, Copy)]
pub struct Car {
    pub lastLapTimeInMS: u32,
    pub currentLapTimeInMS: u32,
    pub sector1TimeMSPart: u16,
    pub sector1TimeMinutesPart: u8,
    pub sector2TimeMSPart: u16,
    pub sector2TimeMinutesPart: u8,
    pub deltaToCarInFrontMSPart: u16,
    pub deltaToCarInFrontMinutesPart: u8,
    pub deltaToRaceLeaderMSPart: u16,
    pub deltaToRaceLeaderMinutesPart: u8,
    pub lapDistance: u32,
    pub totalDistance: u32,
    pub safetyCarDelta: u32,
    pub racePosition: u8,
    pub currentLapNum: u8,
    pub pitStatus: PitStatus,
    pub numPitStops: u8,
    pub sector: u8,
    pub currentLapInvalid: u8,
    pub penalties: u8,
    pub totalWarnings: u8,
    pub cornerCuttingWarnings: u8,
    pub numUnservedDriveThroughPens: u8,
    pub numUnservedStopGoPens: u8,
    pub gridPosition: u8,
    pub driverStatus: CarState,
    pub resultStatus: ResultStatus,
    pub pitLaneTimerActive: u8,
    pub pitLaneTimeInLaneInMS: u16,
    pub pitStopTimerInMS: u16,
    pub pitStopShouldServePen: u8,
    pub speedTrapFastestSpeed: u32,
    pub speedTrapFastestLap: u8,
}

impl Car {
    /// This record is what the 57 bytes of `b` at `o` encode.
    pub open spec fn matches_bytes(self, b: Seq<u8>, o: int) -> bool {
        &&& self.lastLapTimeInMS == le32(b, o)
        &&& self.currentLapTimeInMS == le32(b, o + 4)
        &&& self.sector1TimeMSPart == le16(b, o + 8)
        &&& self.sector1TimeMinutesPart == b[o + 10]
        &&& self.sector2TimeMSPart == le16(b, o + 11)
        &&& self.sector2TimeMinutesPart == b[o + 13]
        &&& self.deltaToCarInFrontMSPart == le16(b, o + 14)
        &&& self.deltaToCarInFrontMinutesPart == b[o + 16]
        &&& self.deltaToRaceLeaderMSPart == le16(b, o + 17)
        &&& self.deltaToRaceLeaderMinutesPart == b[o + 19]
        &&& self.lapDistance == le32(b, o + 20)
        &&& self.totalDistance == le32(b, o + 24)
        &&& self.safetyCarDelta == le32(b, o + 28)
        &&& self.racePosition == b[o + 32]
        &&& self.currentLapNum == b[o + 33]
        &&& self.pitStatus == PitStatus::from_code(b[o + 34])
        &&& self.numPitStops == b[o + 35]
        &&& self.sector == b[o + 36]
        &&& self.currentLapInvalid == b[o + 37]
        &&& self.penalties == b[o + 38]
        &&& self.totalWarnings == b[o + 39]
        &&& self.cornerCuttingWarnings == b[o + 40]
        &&& self.numUnservedDriveThroughPens == b[o + 41]
        &&& self.numUnservedStopGoPens == b[o + 42]
        &&& self.gridPosition == b[o + 43]
        &&& self.driverStatus == CarState::from_code(b[o + 44])
        &&& self.resultStatus == ResultStatus::from_code(b[o + 45])
        &&& self.pitLaneTimerActive == b[o + 46]
        &&& self.pitLaneTimeInLaneInMS == le16(b, o + 47)
        &&& self.pitStopTimerInMS == le16(b, o + 49)
        &&& self.pitStopShouldServePen == b[o + 51]
        &&& self.speedTrapFastestSpeed == le32(b, o + 52)
        &&& self.speedTrapFastestLap == b[o + 56]
    }

    /// The record encoded at `o`.
    #[verifier::rlimit(60)]
    pub fn read_at(bytes: &[u8], o: usize) -> (r: Self)
        requires
            o + CAR_SIZE <= bytes@.len(),
        ensures
            r.matches_bytes(bytes@, o as int),
    {
        assert(bytes@.len() == bytes.len());
        Car {
            lastLapTimeInMS: read_u32(bytes, o),
            currentLapTimeInMS: read_u32(bytes, o + 4),
            sector1TimeMSPart: read_u16(bytes, o + 8),
            sector1TimeMinutesPart: read_u8(bytes, o + 10),
            sector2TimeMSPart: read_u16(bytes, o + 11),
            sector2TimeMinutesPart: read_u8(bytes, o + 13),
            deltaToCarInFrontMSPart: read_u16(bytes, o + 14),
            deltaToCarInFrontMinutesPart: read_u8(bytes, o + 16),
            deltaToRaceLeaderMSPart: read_u16(bytes, o + 17),
            deltaToRaceLeaderMinutesPart: read_u8(bytes, o + 19),
            lapDistance: read_u32(bytes, o + 20),
            totalDistance: read_u32(bytes, o + 24),
            safetyCarDelta: read_u32(bytes, o + 28),
            racePosition: read_u8(bytes, o + 32),
            currentLapNum: read_u8(bytes, o + 33),
            pitStatus: PitStatus::from_u8(read_u8(bytes, o + 34)),
            numPitStops: read_u8(bytes, o + 35),
            sector: read_u8(bytes, o + 36),
            currentLapInvalid: read_u8(bytes, o + 37),
            penalties: read_u8(bytes, o + 38),
            totalWarnings: read_u8(bytes, o + 39),
            cornerCuttingWarnings: read_u8(bytes, o + 40),
            numUnservedDriveThroughPens: read_u8(bytes, o + 41),
            numUnservedStopGoPens: read_u8(bytes, o + 42),
            gridPosition: read_u8(bytes, o + 43),
            driverStatus: CarState::from_u8(read_u8(bytes, o + 44)),
            resultStatus: ResultStatus::from_u8(read_u8(bytes, o + 45)),
            pitLaneTimerActive: read_u8(bytes, o + 46),
            pitLaneTimeInLaneInMS: read_u16(bytes, o + 47),
            pitStopTimerInMS: read_u16(bytes, o + 49),
            pitStopShouldServePen: read_u8(bytes, o + 51),
            speedTrapFastestSpeed: read_u32(bytes, o + 52),
            speedTrapFastestLap: read_u8(bytes, o + 56),
        }
    }

    pub fn unpack(bytes: &[u8]) -> (r: Self)
        requires
            bytes@.len() >= CAR_SIZE,
        ensures
            r.matches_bytes(bytes@, 0),
    {
        Self::read_at(bytes, 0)
    }
}

/// Event body: the fastest lap (lap time as IEEE-754 bits of seconds).
#[derive(Debug, Clone, Copy)]
pub struct FastestLap {
    pub vehicleIdx: u8,
    pub lapTime: u32,
}

impl FastestLap {
    /// This record is what the 5 bytes of `b` at `o` encode.
    pub open spec fn matches_bytes(self, b: Seq<u8>, o: int) -> bool {
        &&& self.vehicleIdx == b[o]
        &&& self.lapTime == le32(b, o + 1)
    }

    /// The record encoded at `o`.
    pub fn read_at(bytes: &[u8], o: usize) -> (r: Self)
        requires
            o + FASTEST_LAP_SIZE <= bytes@.len(),
        ensures
            r.matches_bytes(bytes@, o as int),
    {
        assert(bytes@.len() == bytes.len());
        FastestLap {
            vehicleIdx: read_u8(bytes, o),
            lapTime: read_u32(bytes, o + 1),
        }
    }

    pub fn unpack(bytes: &[u8]) -> (r: Self)
        requires
            bytes@.len() >= FASTEST_LAP_SIZE,
        ensures
            r.matches_bytes(bytes@, 0),
    {
        Self::read_at(bytes, 0)
    }
}

/// Event body: a car retired.
#[derive(Debug, Clone, Copy)]
pub struct Retirement {
    pub vehicleIdx: u8,
}

impl Retirement {
    /// This record is what the 1 bytes of `b` at `o` encode.
    pub open spec fn matches_bytes(self, b: Seq<u8>, o: int) -> bool {
        &&& self.vehicleIdx == b[o]
    }

    /// The record encoded at `o`.
    pub fn read_at(bytes: &[u8], o: usize) -> (r: Self)
        requires
            o + RETIREMENT_SIZE <= bytes@.len(),
        ensures
            r.matches_bytes(bytes@, o as int),
    {
        assert(bytes@.len() == bytes.len());
        Retirement {
            vehicleIdx: read_u8(bytes, o),
        }
    }

    pub fn unpack(bytes: &[u8]) -> (r: Self)
        requires
            bytes@.len() >= RETIREMENT_SIZE,
        ensures
            r.matches_bytes(bytes@, 0),
    {
        Self::read_at(bytes, 0)
    }
}

/// Event body: the team mate entered the pits.
#[derive(Debug, Clone, Copy)]
pub struct TeamMateInPits {
    pub vehicleIdx: u8,
}

impl TeamMateInPits {
    /// This record is what the 1 bytes of `b` at `o` encode.
    pub open spec fn matches_bytes(self, b: Seq<u8>, o: int) -> bool {
        &&& self.vehicleIdx == b[o]
    }

    /// The record encoded at `o`.
    pub fn read_at(bytes: &[u8], o: usize) -> (r: Self)
        requires
            o + TEAM_MATE_IN_PITS_SIZE <= bytes@.len(),
        ensures
            r.matches_bytes(bytes@, o as int),
    {
        assert(bytes@.len() == bytes.len());
        TeamMateInPits {
            vehicleIdx: read_u8(bytes, o),
        }
    }

    pub fn unpack(bytes: &[u8]) -> (r: Self)
        requires
            bytes@.len() >= TEAM_MATE_IN_PITS_SIZE,
        ensures
            r.matches_bytes(bytes@, 0),
    {
        Self::read_at(bytes, 0)
    }
}

/// Event body: the race winner.
#[derive(Debug, Clone, Copy)]
pub struct RaceWinner {
    pub vehicleIdx: u8,
}

impl RaceWinner {
    /// This record is what the 1 bytes of `b` at `o` encode.
    pub open spec fn matches_bytes(self, b: Seq<u8>, o: int) -> bool {
        &&& self.vehicleIdx == b[o]
    }

    /// The record encoded at `o`.
    pub fn read_at(bytes: &[u8], o: usize) -> (r: Self)
        requires
            o + RACE_WINNER_SIZE <= bytes@.len(),
        ensures
            r.matches_bytes(bytes@, o as int),
    {
        assert(bytes@.len() == bytes.len());
        RaceWinner {
            vehicleIdx: read_u8(bytes, o),
        }
    }

    pub fn unpack(bytes: &[u8]) -> (r: Self)
        requires
            bytes@.len() >= RACE_WINNER_SIZE,
        ensures
            r.matches_bytes(bytes@, 0),
    {
        Self::read_at(bytes, 0)
    }
}

/// Event body: a penalty was issued.
#[derive(Debug, Clone, Copy)]
pub struct Penalty {
    pub penaltyType: u8,
    pub infringementType: u8,
    pub vehicleIdx: u8,
    pub otherVehicleIdx: u8,
    pub time: u8,
    pub lapNum: u8,
    pub placesGained: u8,
}

impl Penalty {
    /// This record is what the 7 bytes of `b` at `o` encode.
    pub open spec fn matches_bytes(self, b: Seq<u8>, o: int) -> bool {
        &&& self.penaltyType == b[o]
        &&& self.infringementType == b[o + 1]
        &&& self.vehicleIdx == b[o + 2]
        &&& self.otherVehicleIdx == b[o + 3]
        &&& self.time == b[o + 4]
        &&& self.lapNum == b[o + 5]
        &&& self.placesGained == b[o + 6]
    }

    /// The record encoded at `o`.
    pub fn read_at(bytes: &[u8], o: usize) -> (r: Self)
        requires
            o + PENALTY_SIZE <= bytes@.len(),
        ensures
            r.matches_bytes(bytes@, o as int),
    {
        assert(bytes@.len() == bytes.len());
        Penalty {
            penaltyType: read_u8(bytes, o),
            infringementType: read_u8(bytes, o + 1),
            vehicleIdx: read_u8(bytes, o + 2),
            otherVehicleIdx: read_u8(bytes, o + 3),
            time: read_u8(bytes, o + 4),
            lapNum: read_u8(bytes, o + 5),
            placesGained: read_u8(bytes, o + 6),
        }
    }

    pub fn unpack(bytes: &[u8]) -> (r: Self)
        requires
            bytes@.len() >= PENALTY_SIZE,
        ensures
            r.matches_bytes(bytes@, 0),
    {
        Self::read_at(bytes, 0)
    }
}

/// Event body: a speed trap was triggered (speeds as IEEE-754 bits).
#[derive(Debug, Clone, Copy)]
pub struct SpeedTrap {
    pub vehicleIdx: u8,
    pub speed: u32,
    pub isOverallFastestInSession: u8,
    pub isDriverFastestInSession: u8,
    pub fastestVehicleIdxInSession: u8,
    pub fastestSpeedInSession: u32,
}

impl SpeedTrap {
    /// This record is what the 12 bytes of `b` at `o` encode.
    pub open spec fn matches_bytes(self, b: Seq<u8>, o: int) -> bool {
        &&& self.vehicleIdx == b[o]
        &&& self.speed == le32(b, o + 1)
        &&& self.isOverallFastestInSession == b[o + 5]
        &&& self.isDriverFastestInSession == b[o + 6]
        &&& self.fastestVehicleIdxInSession == b[o + 7]
        &&& self.fastestSpeedInSession == le32(b, o + 8)
    }

    /// The record encoded at `o`.
    pub fn read_at(bytes: &[u8], o: usize) -> (r: Self)
        requires
            o + SPEED_TRAP_SIZE <= bytes@.len(),
        ensures
            r.matches_bytes(bytes@, o as int),
    {
        assert(bytes@.len() == bytes.len());
        SpeedTrap {
            vehicleIdx: read_u8(bytes, o),
            speed: read_u32(bytes, o + 1),
            isOverallFastestInSession: read_u8(bytes, o + 5),
            isDriverFastestInSession: read_u8(bytes, o + 6),
            fastestVehicleIdxInSession: read_u8(bytes, o + 7),
            fastestSpeedInSession: read_u32(bytes, o + 8),
        }
    }

    pub fn unpack(bytes: &[u8]) -> (r: Self)
        requires
            bytes@.len() >= SPEED_TRAP_SIZE,
        ensures
            r.matches_bytes(bytes@, 0),
    {
        Self::read_at(bytes, 0)
    }
}

/// Event body: the number of start lights showing.
#[derive(Debug, Clone, Copy)]
pub struct StartLights {
    pub numLights: u8,
}

impl StartLights {
    /// This record is what the 1 bytes of `b` at `o` encode.
    pub open spec fn matches_bytes(self, b: Seq<u8>, o: int) -> bool {
        &&& self.numLights == b[o]
    }

    /// The record encoded at `o`.
    pub fn read_at(bytes: &[u8], o: usize) -> (r: Self)
        requires
            o + START_LIGHTS_SIZE <= bytes@.len(),
        ensures
            r.matches_bytes(bytes@, o as int),
    {
        assert(bytes@.len() == bytes.len());
        StartLights {
            numLights: read_u8(bytes, o),
        }
    }

    pub fn unpack(bytes: &[u8]) -> (r: Self)
        requires
            bytes@.len() >= START_LIGHTS_SIZE,
        ensures
            r.matches_bytes(bytes@, 0),
    {
        Self::read_at(bytes, 0)
    }
}

/// Event body: a drive-through was served.
#[derive(Debug, Clone, Copy)]
pub struct DriveThroughPenaltyServed {
    pub vehicleIdx: u8,
}

impl DriveThroughPenaltyServed {
    /// This record is what the 1 bytes of `b` at `o` encode.
    pub open spec fn matches_bytes(self, b: Seq<u8>, o: int) -> bool {
        &&& self.vehicleIdx == b[o]
    }

    /// The record encoded at `o`.
    pub fn read_at(bytes: &[u8], o: usize) -> (r: Self)
        requires
            o + DRIVE_THROUGH_PENALTY_SERVED_SIZE <= bytes@.len(),
        ensures
            r.matches_bytes(bytes@, o as int),
    {
        assert(bytes@.len() == bytes.len());
        DriveThroughPenaltyServed {
            vehicleIdx: read_u8(bytes, o),
        }
    }

    pub fn unpack(bytes: &[u8]) -> (r: Self)
        requires
            bytes@.len() >= DRIVE_THROUGH_PENALTY_SERVED_SIZE,
        ensures
            r.matches_bytes(bytes@, 0),
    {
        Self::read_at(bytes, 0)
    }
}

/// Event body: a stop-go was served.
#[derive(Debug, Clone, Copy)]
pub struct StopGoPenaltyServed {
    pub vehicleIdx: u8,
}

impl StopGoPenaltyServed {
    /// This record is what the 1 bytes of `b` at `o` encode.
    pub open spec fn matches_bytes(self, b: Seq<u8>, o: int) -> bool {
        &&& self.vehicleIdx == b[o]
    }

    /// The record encoded at `o`.
    pub fn read_at(bytes: &[u8], o: usize) -> (r: Self)
        requires
            o + STOP_GO_PENALTY_SERVED_SIZE <= bytes@.len(),
        ensures
            r.matches_bytes(bytes@, o as int),
    {
        assert(bytes@.len() == bytes.len());
        StopGoPenaltyServed {
            vehicleIdx: read_u8(bytes, o),
        }
    }

    pub fn unpack(bytes: &[u8]) -> (r: Self)
        requires
            bytes@.len() >= STOP_GO_PENALTY_SERVED_SIZE,
        ensures
            r.matches_bytes(bytes@, 0),
    {
        Self::read_at(bytes, 0)
    }
}

/// Event body: a flashback (session time as IEEE-754 bits).
#[derive(Debug, Clone, Copy)]
pub struct Flashback {
    pub flashbackFrameIdentifier: u32,
    pub flashbackSessionTime: u32,
}

impl Flashback {
    /// This record is what the 8 bytes of `b` at `o` encode.
    pub open spec fn matches_bytes(self, b: Seq<u8>, o: int) -> bool {
        &&& self.flashbackFrameIdentifier == le32(b, o)
        &&& self.flashbackSessionTime == le32(b, o + 4)
    }

    /// The record encoded at `o`.
    pub fn read_at(bytes: &[u8], o: usize) -> (r: Self)
        requires
            o + FLASHBACK_SIZE <= bytes@.len(),
        ensures
            r.matches_bytes(bytes@, o as int),
    {
        assert(bytes@.len() == bytes.len());
        Flashback {
            flashbackFrameIdentifier: read_u32(bytes, o),
            flashbackSessionTime: read_u32(bytes, o + 4),
        }
    }

    pub fn unpack(bytes: &[u8]) -> (r: Self)
        requires
            bytes@.len() >= FLASHBACK_SIZE,
        ensures
            r.matches_bytes(bytes@, 0),
    {
        Self::read_at(bytes, 0)
    }
}

/// Event body: the buttons pressed, as bit flags.
#[derive(Debug, Clone, Copy)]
pub struct Buttons {
    pub buttonStatus: u32,
}

impl Buttons {
    /// This record is what the 4 bytes of `b` at `o` encode.
    pub open spec fn matches_bytes(self, b: Seq<u8>, o: int) -> bool {
        &&& self.buttonStatus == le32(b, o)
    }

    /// The record encoded at `o`.
    pub fn read_at(bytes: &[u8], o: usize) -> (r: Self)
        requires
            o + BUTTONS_SIZE <= bytes@.len(),
        ensures
            r.matches_bytes(bytes@, o as int),
    {
        assert(bytes@.len() == bytes.len());
        Buttons {
            buttonStatus: read_u32(bytes, o),
        }
    }

    pub fn unpack(bytes: &[u8]) -> (r: Self)
        requires
            bytes@.len() >= BUTTONS_SIZE,
        ensures
            r.matches_bytes(bytes@, 0),
    {
        Self::read_at(bytes, 0)
    }
}

/// The four ASCII bytes that name an event.
#[derive(Debug, Clone)]
pub struct EventTag {
    pub tag: Vec<u8>,
}

impl EventTag {
    /// This record is what the 4 bytes of `b` at `o` encode.
    pub open spec fn matches_bytes(self, b: Seq<u8>, o: int) -> bool {
        &&& self.tag@ == b.subrange(o, o + 4)
    }

    /// The record encoded at `o`.
    pub fn read_at(bytes: &[u8], o: usize) -> (r: Self)
        requires
            o + EVENT_TAG_SIZE <= bytes@.len(),
        ensures
            r.matches_bytes(bytes@, o as int),
    {
        assert(bytes@.len() == bytes.len());
        EventTag {
            tag: read_bytes(bytes, o, 4),
        }
    }

    pub fn unpack(bytes: &[u8]) -> (r: Self)
        requires
            bytes@.len() >= EVENT_TAG_SIZE,
        ensures
            r.matches_bytes(bytes@, 0),
    {
        Self::read_at(bytes, 0)
    }
}

/// An RGB livery colour.
#[derive(Debug, Clone, Copy)]
pub struct LiveryColour {
    pub r: u8,
    pub g: u8,
    pub b: u8,
}

impl LiveryColour {
    /// This record is what the 3 bytes of `b` at `o` encode.
    pub open spec fn matches_bytes(self, b: Seq<u8>, o: int) -> bool {
        &&& self.r == b[o]
        &&& self.g == b[o + 1]
        &&& self.b == b[o + 2]
    }

    /// The record encoded at `o`.
    pub fn read_at(bytes: &[u8], o: usize) -> (r: Self)
        requires
            o + LIVERY_COLOUR_SIZE <= bytes@.len(),
        ensures
            r.matches_bytes(bytes@, o as int),
    {
        assert(bytes@.len() == bytes.len());
        LiveryColour {
            r: read_u8(bytes, o),
            g: read_u8(bytes, o + 1),
            b: read_u8(bytes, o + 2),
        }
    }

    pub fn from_bytes(bytes: &[u8]) -> (r: Self)
        requires
            bytes@.len() >= LIVERY_COLOUR_SIZE,
        ensures
            r.matches_bytes(bytes@, 0),
    {
        Self::read_at(bytes, 0)
    }

    /// The 4 consecutive records that `bytes` starts with.
    pub fn unpack(bytes: &[u8]) -> (r: Vec<LiveryColour>)
        requires
            bytes@.len() >= 4 * 3,
        ensures
            r@.len() == 4,
            forall|i: int| 0 <= i < 4 ==> #[trigger] r@[i].matches_bytes(bytes@, 3 * i),
    {
        let mut r: Vec<LiveryColour> = Vec::new();
        assert(bytes@.len() == bytes.len());
        let mut i: usize = 0;
        while i < 4
            invariant
                i <= 4,
                bytes@.len() >= 4 * 3,
                r@.len() == i,
                forall|j: int| 0 <= j < i ==> #[trigger] r@[j].matches_bytes(bytes@, 3 * j),
            decreases 4 - i,
        {
            let s = i * 3;
            let item = LiveryColour::read_at(bytes, s);
            r.push(item);
            i += 1;
        }
        r
    }
}

/// One participant of the session.
#[derive(Debug, Clone)]
pub struct Participant {
    pub aiControlled: u8,
    pub driverId: u8,
    pub networkId: u8,
    pub teamId: u8,
    pub myTeam: u8,
    pub raceNumber: u8,
    pub nationality: u8,
    pub name: Vec<u8>,
    pub yourTelemetry: u8,
    pub showOnlineNames: u8,
    pub techLevel: u16,
    pub platform: u8,
    pub numColours: u8,
    pub liveryColours: Vec<LiveryColour>,
}

impl Participant {
    /// This record is what the 57 bytes of `b` at `o` encode.
    pub open spec fn matches_bytes(self, b: Seq<u8>, o: int) -> bool {
        &&& self.aiControlled == b[o]
        &&& self.driverId == b[o + 1]
        &&& self.networkId == b[o + 2]
        &&& self.teamId == b[o + 3]
        &&& self.myTeam == b[o + 4]
        &&& self.raceNumber == b[o + 5]
        &&& self.nationality == b[o + 6]
        &&& self.name@ == b.subrange(o + 7, o + 7 + 32)
        &&& self.yourTelemetry == b[o + 39]
        &&& self.showOnlineNames == b[o + 40]
        &&& self.techLevel == le16(b, o + 41)
        &&& self.platform == b[o + 43]
        &&& self.numColours == b[o + 44]
        &&& self.liveryColours@.len() == 4
        &&& forall|i: int|
            0 <= i < 4 ==> #[trigger] self.liveryColours@[i].matches_bytes(b.subrange(o + 45, o + 45 + 12), 3 * i)
    }

    /// The record encoded at `o`.
    #[verifier::rlimit(60)]
    pub fn read_at(bytes: &[u8], o: usize) -> (r: Self)
        requires
            o + PARTICIPANT_SIZE <= bytes@.len(),
        ensures
            r.matches_bytes(bytes@, o as int),
    {
        assert(bytes@.len() == bytes.len());
        Participant {
            aiControlled: read_u8(bytes, o),
            driverId: read_u8(bytes, o + 1),
            networkId: read_u8(bytes, o + 2),
            teamId: read_u8(bytes, o + 3),
            myTeam: read_u8(bytes, o + 4),
            raceNumber: read_u8(bytes, o + 5),
            nationality: read_u8(bytes, o + 6),
            name: read_bytes(bytes, o + 7, 32),
            yourTelemetry: read_u8(bytes, o + 39),
            showOnlineNames: read_u8(bytes, o + 40),
            techLevel: read_u16(bytes, o + 41),
            platform: read_u8(bytes, o + 43),
            numColours: read_u8(bytes, o + 44),
            liveryColours: LiveryColour::unpack(slice_subrange(bytes, o + 45, o + 45 + 12)),
        }
    }

    pub fn unpack(bytes: &[u8]) -> (r: Self)
        requires
            bytes@.len() >= PARTICIPANT_SIZE,
        ensures
            r.matches_bytes(bytes@, 0),
    {
        Self::read_at(bytes, 0)
    }
}

/// The setup of one car; angles, pressures and fuel are IEEE-754 bits.
#[derive(Debug, Clone, Copy)]
pub struct CarSetup {
    pub frontWing: u8,
    pub rearWing: u8,
    pub onThrottle: u8,
    pub offThrottle: u8,
    pub frontCamber: u32,
    pub rearCamber: u32,
    pub frontToe: u32,
    pub rearToe: u32,
    pub frontSuspension: u8,
    pub rearSuspension: u8,
    pub frontAntiRollBar: u8,
    pub rearAntiRollBar: u8,
    pub frontSuspensionHeight: u8,
    pub rearSuspensionHeight: u8,
    pub brakePressure: u8,
    pub brakeBias: u8,
    pub tyrePressure: Wheels,
    pub ballast: u8,
    pub fuelLoad: u32,
}

impl CarSetup {
    /// This record is what the 49 bytes of `b` at `o` encode.
    pub open spec fn matches_bytes(self, b: Seq<u8>, o: int) -> bool {
        &&& self.frontWing == b[o]
        &&& self.rearWing == b[o + 1]
        &&& self.onThrottle == b[o + 2]
        &&& self.offThrottle == b[o + 3]
        &&& self.frontCamber == le32(b, o + 4)
        &&& self.rearCamber == le32(b, o + 8)
        &&& self.frontToe == le32(b, o + 12)
        &&& self.rearToe == le32(b, o + 16)
        &&& self.frontSuspension == b[o + 20]
        &&& self.rearSuspension == b[o + 21]
        &&& self.frontAntiRollBar == b[o + 22]
        &&& self.rearAntiRollBar == b[o + 23]
        &&& self.frontSuspensionHeight == b[o + 24]
        &&& self.rearSuspensionHeight == b[o + 25]
        &&& self.brakePressure == b[o + 26]
        &&& self.brakeBias == b[o + 27]
        &&& self.tyrePressure.matches_bytes(b, o + 28)
        &&& self.ballast == b[o + 44]
        &&& self.fuelLoad == le32(b, o + 45)
    }

    /// The record encoded at `o`.
    pub fn read_at(bytes: &[u8], o: usize) -> (r: Self)
        requires
            o + CAR_SETUP_SIZE <= bytes@.len(),
        ensures
            r.matches_bytes(bytes@, o as int),
    {
        assert(bytes@.len() == bytes.len());
        CarSetup {
            frontWing: read_u8(bytes, o),
            rearWing: read_u8(bytes, o + 1),
            onThrottle: read_u8(bytes, o + 2),
            offThrottle: read_u8(bytes, o + 3),
            frontCamber: read_u32(bytes, o + 4),
            rearCamber: read_u32(bytes, o + 8),
            frontToe: read_u32(bytes, o + 12),
            rearToe: read_u32(bytes, o + 16),
            frontSuspension: read_u8(bytes, o + 20),
            rearSuspension: read_u8(bytes, o + 21),
            frontAntiRollBar: read_u8(bytes, o + 22),
            rearAntiRollBar: read_u8(bytes, o + 23),
            frontSuspensionHeight: read_u8(bytes, o + 24),
            rearSuspensionHeight: read_u8(bytes, o + 25),
            brakePressure: read_u8(bytes, o + 26),
            brakeBias: read_u8(bytes, o + 27),
            tyrePressure: Wheels::read_at(bytes, o + 28),
            ballast: read_u8(bytes, o + 44),
            fuelLoad: read_u32(bytes, o + 45),
        }
    }

    pub fn unpack(bytes: &[u8]) -> (r: Self)
        requires
            bytes@.len() >= CAR_SETUP_SIZE,
        ensures
            r.matches_bytes(bytes@, 0),
    {
        Self::read_at(bytes, 0)
    }
}

/// A speed in kilometres per hour.
#[derive(Debug, Clone, Copy)]
pub struct Kph {
    pub kph: u16,
}

impl Kph {
    /// This record is what the 2 bytes of `b` at `o` encode.
    pub open spec fn matches_bytes(self, b: Seq<u8>, o: int) -> bool {
        &&& self.kph == le16(b, o)
    }

    /// The record encoded at `o`.
    pub fn read_at(bytes: &[u8], o: usize) -> (r: Self)
        requires
            o + KPH_SIZE <= bytes@.len(),
        ensures
            r.matches_bytes(bytes@, o as int),
    {
        assert(bytes@.len() == bytes.len());
        Kph {
            kph: read_u16(bytes, o),
        }
    }

    pub fn unpack(bytes: &[u8]) -> (r: Self)
        requires
            bytes@.len() >= KPH_SIZE,
        ensures
            r.matches_bytes(bytes@, 0),
    {
        Self::read_at(bytes, 0)
    }
}

/// The rev lights as a bit field, bit 0 leftmost.
#[derive(Debug, Clone, Copy)]
pub struct RevLights {
    pub LEDs: u16,
}

impl RevLights {
    /// This record is what the 2 bytes of `b` at `o` encode.
    pub open spec fn matches_bytes(self, b: Seq<u8>, o: int) -> bool {
        &&& self.LEDs == le16(b, o)
    }

    /// The record encoded at `o`.
    pub fn read_at(bytes: &[u8], o: usize) -> (r: Self)
        requires
            o + REV_LIGHTS_SIZE <= bytes@.len(),
        ensures
            r.matches_bytes(bytes@, o as int),
    {
        assert(bytes@.len() == bytes.len());
        RevLights {
            LEDs: read_u16(bytes, o),
        }
    }

    pub fn unpack(bytes: &[u8]) -> (r: Self)
        requires
            bytes@.len() >= REV_LIGHTS_SIZE,
        ensures
            r.matches_bytes(bytes@, 0),
    {
        Self::read_at(bytes, 0)
    }
}

/// Telemetry of one car; pedal, steering and pressure values are IEEE-754 bits.
#[derive(Debug, Clone)]
pub struct CarTelemetry {
    pub speed: Kph,
    pub throttle: u32,
    pub steer: u32,
    pub brake: u32,
    pub clutch: u8,
    pub gear: Gear,
    pub engineRPM: u16,
    pub drs: u8,
    pub revLightsPercent: u8,
    pub revLightsBitValue: RevLights,
    pub brakesTemperature: Vec<u16>,
    pub tyresSurfaceTemperature: Vec<u8>,
    pub tyresInnerTemperature: Vec<u8>,
    pub engineTemperature: u16,
    pub tyresPressure: Vec<u32>,
    pub surfaceType: Vec<u8>,
}

impl CarTelemetry {
    /// This record is what the 60 bytes of `b` at `o` encode.
    pub open spec fn matches_bytes(self, b: Seq<u8>, o: int) -> bool {
        &&& self.speed.matches_bytes(b, o)
        &&& self.throttle == le32(b, o + 2)
        &&& self.steer == le32(b, o + 6)
        &&& self.brake == le32(b, o + 10)
        &&& self.clutch == b[o + 14]
        &&& self.gear == Gear::from_code(b[o + 15])
        &&& self.engineRPM == le16(b, o + 16)
        &&& self.drs == b[o + 18]
        &&& self.revLightsPercent == b[o + 19]
        &&& self.revLightsBitValue.matches_bytes(b, o + 20)
        &&& self.brakesTemperature@.len() == 4
        &&& forall|i: int| 0 <= i < 4 ==> #[trigger] self.brakesTemperature@[i] == le16(b, o + 22 + 2 * i)
        &&& self.tyresSurfaceTemperature@ == b.subrange(o + 30, o + 30 + 4)
        &&& self.tyresInnerTemperature@ == b.subrange(o + 34, o + 34 + 4)
        &&& self.engineTemperature == le16(b, o + 38)
        &&& self.tyresPressure@.len() == 4
        &&& forall|i: int| 0 <= i < 4 ==> #[trigger] self.tyresPressure@[i] == le32(b, o + 40 + 4 * i)
        &&& self.surfaceType@ == b.subrange(o + 56, o + 56 + 4)
    }

    /// The record encoded at `o`.
    pub fn read_at(bytes: &[u8], o: usize) -> (r: Self)
        requires
            o + CAR_TELEMETRY_SIZE <= bytes@.len(),
        ensures
            r.matches_bytes(bytes@, o as int),
    {
        assert(bytes@.len() == bytes.len());
        CarTelemetry {
            speed: Kph::read_at(bytes, o),
            throttle: read_u32(bytes, o + 2),
            steer: read_u32(bytes, o + 6),
            brake: read_u32(bytes, o + 10),
            clutch: read_u8(bytes, o + 14),
            gear: Gear::from_u8_to_i8(&read_u8(bytes, o + 15)),
            engineRPM: read_u16(bytes, o + 16),
            drs: read_u8(bytes, o + 18),
            revLightsPercent: read_u8(bytes, o + 19),
            revLightsBitValue: RevLights::read_at(bytes, o + 20),
            brakesTemperature: read_u16s(bytes, o + 22, 4),
            tyresSurfaceTemperature: read_bytes(bytes, o + 30, 4),
            tyresInnerTemperature: read_bytes(bytes, o + 34, 4),
            engineTemperature: read_u16(bytes, o + 38),
            tyresPressure: read_u32s(bytes, o + 40, 4),
            surfaceType: read_bytes(bytes, o + 56, 4),
        }
    }

    pub fn unpack(bytes: &[u8]) -> (r: Self)
        requires
            bytes@.len() >= CAR_TELEMETRY_SIZE,
        ensures
            r.matches_bytes(bytes@, 0),
    {
        Self::read_at(bytes, 0)
    }
}

/// Status of one car; fuel and energy values are IEEE-754 bits.
#[derive(Debug, Clone, Copy)]
pub struct CarStatus {
    pub tractionControl: TC,
    pub antiLockBrakes: Assist,
    pub fuelMix: FuelMix,
    pub frontBrakeBias: u8,
    pub pitLimiterStatus: u8,
    pub fuelInTank: u32,
    pub fuelCapacity: u32,
    pub fuelRemainingLaps: u32,
    pub maxRPM: u16,
    pub idleRPM: u16,
    pub maxGears: u8,
    pub drsAllowed: u8,
    pub drsActivationDistance: u16,
    pub actualTyre: ActualCompound,
    pub visualTyre: VisualCompound,
    pub tyresAgeLaps: u8,
    pub vehicleFiaFlags: ZoneFlag,
    pub enginePowerICE: u32,
    pub enginePowerMGUK: u32,
    pub ersStoreEnergy: u32,
    pub ersDeployMode: ErsDeployMode,
    pub ersHarvestedThisLapMGUK: u32,
    pub ersHarvestedThisLapMGUH: u32,
    pub ersDeployedThisLap: u32,
    pub networkPaused: u8,
}

impl CarStatus {
    /// This record is what the 55 bytes of `b` at `o` encode.
    pub open spec fn matches_bytes(self, b: Seq<u8>, o: int) -> bool {
        &&& self.tractionControl == TC::from_code(b[o])
        &&& self.antiLockBrakes == Assist::from_code(b[o + 1])
        &&& self.fuelMix == FuelMix::from_code(b[o + 2])
        &&& self.frontBrakeBias == b[o + 3]
        &&& self.pitLimiterStatus == b[o + 4]
        &&& self.fuelInTank == le32(b, o + 5)
        &&& self.fuelCapacity == le32(b, o + 9)
        &&& self.fuelRemainingLaps == le32(b, o + 13)
        &&& self.maxRPM == le16(b, o + 17)
        &&& self.idleRPM == le16(b, o + 19)
        &&& self.maxGears == b[o + 21]
        &&& self.drsAllowed == b[o + 22]
        &&& self.drsActivationDistance == le16(b, o + 23)
        &&& self.actualTyre == ActualCompound::from_code(b[o + 25])
        &&& self.visualTyre == VisualCompound::from_code(b[o + 26])
        &&& self.tyresAgeLaps == b[o + 27]
        &&& self.vehicleFiaFlags == ZoneFlag::from_code(b[o + 28])
        &&& self.enginePowerICE == le32(b, o + 29)
        &&& self.enginePowerMGUK == le32(b, o + 33)
        &&& self.ersStoreEnergy == le32(b, o + 37)
        &&& self.ersDeployMode == ErsDeployMode::from_code(b[o + 41])
        &&& self.ersHarvestedThisLapMGUK == le32(b, o + 42)
        &&& self.ersHarvestedThisLapMGUH == le32(b, o + 46)
        &&& self.ersDeployedThisLap == le32(b, o + 50)
        &&& self.networkPaused == b[o + 54]
    }

    /// The record encoded at `o`.
    pub fn read_at(bytes: &[u8], o: usize) -> (r: Self)
        requires
            o + CAR_STATUS_SIZE <= bytes@.len(),
        ensures
            r.matches_bytes(bytes@, o as int),
    {
        assert(bytes@.len() == bytes.len());
        CarStatus {
            tractionControl: TC::from_u8(&read_u8(bytes, o)),
            antiLockBrakes: Assist::from_u8(&read_u8(bytes, o + 1)),
            fuelMix: FuelMix::from_u8(&read_u8(bytes, o + 2)),
            frontBrakeBias: read_u8(bytes, o + 3),
            pitLimiterStatus: read_u8(bytes, o + 4),
            fuelInTank: read_u32(bytes, o + 5),
            fuelCapacity: read_u32(bytes, o + 9),
            fuelRemainingLaps: read_u32(bytes, o + 13),
            maxRPM: read_u16(bytes, o + 17),
            idleRPM: read_u16(bytes, o + 19),
            maxGears: read_u8(bytes, o + 21),
            drsAllowed: read_u8(bytes, o + 22),
            drsActivationDistance: read_u16(bytes, o + 23),
            actualTyre: ActualCompound::from_u8(&read_u8(bytes, o + 25)),
            visualTyre: VisualCompound::from_u8(&read_u8(bytes, o + 26)),
            tyresAgeLaps: read_u8(bytes, o + 27),
            vehicleFiaFlags: ZoneFlag::from_u8_to_i8(&read_u8(bytes, o + 28)),
            enginePowerICE: read_u32(bytes, o + 29),
            enginePowerMGUK: read_u32(bytes, o + 33),
            ersStoreEnergy: read_u32(bytes, o + 37),
            ersDeployMode: ErsDeployMode::from_u8(&read_u8(bytes, o + 41)),
            ersHarvestedThisLapMGUK: read_u32(bytes, o + 42),
            ersHarvestedThisLapMGUH: read_u32(bytes, o + 46),
            ersDeployedThisLap: read_u32(bytes, o + 50),
            networkPaused: read_u8(bytes, o + 54),
        }
    }

    pub fn unpack(bytes: &[u8]) -> (r: Self)
        requires
            bytes@.len() >= CAR_STATUS_SIZE,
        ensures
            r.matches_bytes(bytes@, 0),
    {
        Self::read_at(bytes, 0)
    }
}

/// The final classification of one car; the race time is IEEE-754 double bits.
#[derive(Debug, Clone)]
pub struct FinalClassification {
    pub position: u8,
    pub numLaps: u8,
    pub gridPosition: u8,
    pub points: u8,
    pub numPitStops: u8,
    pub resultStatus: ResultStatus,
    pub bestLapTimeInMS: u32,
    pub totalRaceTime: u64,
    pub penaltiesTime: u8,
    pub numPenalties: u8,
    pub numTyreStints: u8,
    pub tyreStintsActual: Vec<ActualCompound>,
    pub tyreStintsVisual: Vec<VisualCompound>,
    pub tyreStintsEndLaps: Vec<u8>,
}

impl FinalClassification {
    /// This record is what the 45 bytes of `b` at `o` encode.
    pub open spec fn matches_bytes(self, b: Seq<u8>, o: int) -> bool {
        &&& self.position == b[o]
        &&& self.numLaps == b[o + 1]
        &&& self.gridPosition == b[o + 2]
        &&& self.points == b[o + 3]
        &&& self.numPitStops == b[o + 4]
        &&& self.resultStatus == ResultStatus::from_code(b[o + 5])
        &&& self.bestLapTimeInMS == le32(b, o + 6)
        &&& self.totalRaceTime == le64(b, o + 10)
        &&& self.penaltiesTime == b[o + 18]
        &&& self.numPenalties == b[o + 19]
        &&& self.numTyreStints == b[o + 20]
        &&& self.tyreStintsActual@.len() == 8
        &&& forall|i: int|
            0 <= i < 8 ==> #[trigger] self.tyreStintsActual@[i] == ActualCompound::from_code(b.subrange(o + 21, o + 21 + 8)[i])
        &&& self.tyreStintsVisual@.len() == 8
        &&& forall|i: int|
            0 <= i < 8 ==> #[trigger] self.tyreStintsVisual@[i] == VisualCompound::from_code(b.subrange(o + 29, o + 29 + 8)[i])
        &&& self.tyreStintsEndLaps@ == b.subrange(o + 37, o + 37 + 8)
    }

    /// The record encoded at `o`.
    pub fn read_at(bytes: &[u8], o: usize) -> (r: Self)
        requires
            o + FINAL_CLASSIFICATION_SIZE <= bytes@.len(),
        ensures
            r.matches_bytes(bytes@, o as int),
    {
        assert(bytes@.len() == bytes.len());
        FinalClassification {
            position: read_u8(bytes, o),
            numLaps: read_u8(bytes, o + 1),
            gridPosition: read_u8(bytes, o + 2),
            points: read_u8(bytes, o + 3),
            numPitStops: read_u8(bytes, o + 4),
            resultStatus: ResultStatus::from_u8(read_u8(bytes, o + 5)),
            bestLapTimeInMS: read_u32(bytes, o + 6),
            totalRaceTime: read_u64(bytes, o + 10),
            penaltiesTime: read_u8(bytes, o + 18),
            numPenalties: read_u8(bytes, o + 19),
            numTyreStints: read_u8(bytes, o + 20),
            tyreStintsActual: FinalClassification::actualTyre(slice_subrange(bytes, o + 21, o + 21 + 8)),
            tyreStintsVisual: FinalClassification::visualTyre(slice_subrange(bytes, o + 29, o + 29 + 8)),
            tyreStintsEndLaps: read_bytes(bytes, o + 37, 8),
        }
    }

    pub fn unpack(bytes: &[u8]) -> (r: Self)
        requires
            bytes@.len() >= FINAL_CLASSIFICATION_SIZE,
        ensures
            r.matches_bytes(bytes@, 0),
    {
        Self::read_at(bytes, 0)
    }

    /// The 8 codes that `bytes` starts with.
    pub fn actualTyre(bytes: &[u8]) -> (r: Vec<ActualCompound>)
        requires
            bytes@.len() >= 8,
        ensures
            r@.len() == 8,
            forall|i: int| 0 <= i < 8 ==> #[trigger] r@[i] == ActualCompound::from_code(bytes@[i]),
    {
        let mut r: Vec<ActualCompound> = Vec::new();
        assert(bytes@.len() == bytes.len());
        let mut i: usize = 0;
        while i < 8
            invariant
                i <= 8,
                bytes@.len() >= 8,
                r@.len() == i,
                forall|j: int| 0 <= j < i ==> #[trigger] r@[j] == ActualCompound::from_code(bytes@[j]),
            decreases 8 - i,
        {
            r.push(ActualCompound::from_u8(&read_u8(bytes, i)));
            i += 1;
        }
        r
    }

    /// The 8 codes that `bytes` starts with.
    pub fn visualTyre(bytes: &[u8]) -> (r: Vec<VisualCompound>)
        requires
            bytes@.len() >= 8,
        ensures
            r@.len() == 8,
            forall|i: int| 0 <= i < 8 ==> #[trigger] r@[i] == VisualCompound::from_code(bytes@[i]),
    {
        let mut r: Vec<VisualCompound> = Vec::new();
        assert(bytes@.len() == bytes.len());
        let mut i: usize = 0;
        while i < 8
            invariant
                i <= 8,
                bytes@.len() >= 8,
                r@.len() == i,
                forall|j: int| 0 <= j < i ==> #[trigger] r@[j] == VisualCompound::from_code(bytes@[j]),
            decreases 8 - i,
        {
            r.push(VisualCompound::from_u8(&read_u8(bytes, i)));
            i += 1;
        }
        r
    }
}

/// One player in a multiplayer lobby.
#[derive(Debug, Clone)]
pub struct LobbyInfo {
    pub aiControlled: u8,
    pub teamId: u8,
    pub nationality: u8,
    pub name: Vec<u8>,
    pub carNumber: u8,
    pub readyStatus: ReadyStatus,
}

impl LobbyInfo {
    /// This record is what the 53 bytes of `b` at `o` encode.
    pub open spec fn matches_bytes(self, b: Seq<u8>, o: int) -> bool {
        &&& self.aiControlled == b[o]
        &&& self.teamId == b[o + 1]
        &&& self.nationality == b[o + 2]
        &&& self.name@ == b.subrange(o + 3, o + 3 + 48)
        &&& self.carNumber == b[o + 51]
        &&& self.readyStatus == ReadyStatus::from_code(b[o + 52])
    }

    /// The record encoded at `o`.
    pub fn read_at(bytes: &[u8], o: usize) -> (r: Self)
        requires
            o + LOBBY_INFO_SIZE <= bytes@.len(),
        ensures
            r.matches_bytes(bytes@, o as int),
    {
        assert(bytes@.len() == bytes.len());
        LobbyInfo {
            aiControlled: read_u8(bytes, o),
            teamId: read_u8(bytes, o + 1),
            nationality: read_u8(bytes, o + 2),
            name: read_bytes(bytes, o + 3, 48),
            carNumber: read_u8(bytes, o + 51),
            readyStatus: ReadyStatus::from_u8(&read_u8(bytes, o + 52)),
        }
    }

    pub fn unpack(bytes: &[u8]) -> (r: Self)
        requires
            bytes@.len() >= LOBBY_INFO_SIZE,
        ensures
            r.matches_bytes(bytes@, 0),
    {
        Self::read_at(bytes, 0)
    }
}

/// Damage of one car; tyre wear is IEEE-754 bits.
#[derive(Debug, Clone)]
pub struct CarDamage {
    pub tyresWear: Wheels,
    pub tyresDamage: Vec<u8>,
    pub brakesDamage: Vec<u8>,
    pub frontLeftWingDamage: u8,
    pub frontRightWingDamage: u8,
    pub rearWingDamage: u8,
    pub floorDamage: u8,
    pub diffuserDamage: u8,
    pub sidepodDamage: u8,
    pub drsFault: u8,
    pub ersFault: u8,
    pub gearBoxDamage: u8,
    pub engineDamage: u8,
    pub engineMGUHWear: u8,
    pub engineESWear: u8,
    pub engineCEWear: u8,
    pub engineICEWear: u8,
    pub engineMGUKWear: u8,
    pub engineTCWear: u8,
    pub engineBlown: u8,
    pub engineSeized: u8,
}

impl CarDamage {
    /// This record is what the 42 bytes of `b` at `o` encode.
    pub open spec fn matches_bytes(self, b: Seq<u8>, o: int) -> bool {
        &&& self.tyresWear.matches_bytes(b, o)
        &&& self.tyresDamage@ == b.subrange(o + 16, o + 16 + 4)
        &&& self.brakesDamage@ == b.subrange(o + 20, o + 20 + 4)
        &&& self.frontLeftWingDamage == b[o + 24]
        &&& self.frontRightWingDamage == b[o + 25]
        &&& self.rearWingDamage == b[o + 26]
        &&& self.floorDamage == b[o + 27]
        &&& self.diffuserDamage == b[o + 28]
        &&& self.sidepodDamage == b[o + 29]
        &&& self.drsFault == b[o + 30]
        &&& self.ersFault == b[o + 31]
        &&& self.gearBoxDamage == b[o + 32]
        &&& self.engineDamage == b[o + 33]
        &&& self.engineMGUHWear == b[o + 34]
        &&& self.engineESWear == b[o + 35]
        &&& self.engineCEWear == b[o + 36]
        &&& self.engineICEWear == b[o + 37]
        &&& self.engineMGUKWear == b[o + 38]
        &&& self.engineTCWear == b[o + 39]
        &&& self.engineBlown == b[o + 40]
        &&& self.engineSeized == b[o + 41]
    }

    /// The record encoded at `o`.
    pub fn read_at(bytes: &[u8], o: usize) -> (r: Self)
        requires
            o + CAR_DAMAGE_SIZE <= bytes@.len(),
        ensures
            r.matches_bytes(bytes@, o as int),
    {
        assert(bytes@.len() == bytes.len());
        CarDamage {
            tyresWear: Wheels::read_at(bytes, o),
            tyresDamage: read_bytes(bytes, o + 16, 4),
            brakesDamage: read_bytes(bytes, o + 20, 4),
            frontLeftWingDamage: read_u8(bytes, o + 24),
            frontRightWingDamage: read_u8(bytes, o + 25),
            rearWingDamage: read_u8(bytes, o + 26),
            floorDamage: read_u8(bytes, o + 27),
            diffuserDamage: read_u8(bytes, o + 28),
            sidepodDamage: read_u8(bytes, o + 29),
            drsFault: read_u8(bytes, o + 30),
            ersFault: read_u8(bytes, o + 31),
            gearBoxDamage: read_u8(bytes, o + 32),
            engineDamage: read_u8(bytes, o + 33),
            engineMGUHWear: read_u8(bytes, o + 34),
            engineESWear: read_u8(bytes, o + 35),
            engineCEWear: read_u8(bytes, o + 36),
            engineICEWear: read_u8(bytes, o + 37),
            engineMGUKWear: read_u8(bytes, o + 38),
            engineTCWear: read_u8(bytes, o + 39),
            engineBlown: read_u8(bytes, o + 40),
            engineSeized: read_u8(bytes, o + 41),
        }
    }

    pub fn unpack(bytes: &[u8]) -> (r: Self)
        requires
            bytes@.len() >= CAR_DAMAGE_SIZE,
        ensures
            r.matches_bytes(bytes@, 0),
    {
        Self::read_at(bytes, 0)
    }
}

/// One lap of a car's session history.
#[derive(Debug, Clone, Copy)]
pub struct LapHistory {
    pub lapTimeInMS: u32,
    pub sector1TimeInMS: u16,
    pub sector2TimeInMS: u16,
    pub sector3TimeInMS: u16,
    pub lapValidBitFlags: Valid,
}

impl LapHistory {
    /// This record is what the 11 bytes of `b` at `o` encode.
    pub open spec fn matches_bytes(self, b: Seq<u8>, o: int) -> bool {
        &&& self.lapTimeInMS == le32(b, o)
        &&& self.sector1TimeInMS == le16(b, o + 4)
        &&& self.sector2TimeInMS == le16(b, o + 6)
        &&& self.sector3TimeInMS == le16(b, o + 8)
        &&& self.lapValidBitFlags == Valid::from_code(b[o + 10])
    }

    /// The record encoded at `o`.
    pub fn read_at(bytes: &[u8], o: usize) -> (r: Self)
        requires
            o + LAP_HISTORY_SIZE <= bytes@.len(),
        ensures
            r.matches_bytes(bytes@, o as int),
    {
        assert(bytes@.len() == bytes.len());
        LapHistory {
            lapTimeInMS: read_u32(bytes, o),
            sector1TimeInMS: read_u16(bytes, o + 4),
            sector2TimeInMS: read_u16(bytes, o + 6),
            sector3TimeInMS: read_u16(bytes, o + 8),
            lapValidBitFlags: Valid::from_u8(&read_u8(bytes, o + 10)),
        }
    }

    pub fn unpack(bytes: &[u8]) -> (r: Self)
        requires
            bytes@.len() >= LAP_HISTORY_SIZE,
        ensures
            r.matches_bytes(bytes@, 0),
    {
        Self::read_at(bytes, 0)
    }
}

/// One tyre stint of a car's session history.
#[derive(Debug, Clone, Copy)]
pub struct TyreStintHistory {
    pub endLap: u8,
    pub tyreActualCompound: ActualCompound,
    pub tyreVisualCompound: VisualCompound,
}

impl TyreStintHistory {
    /// This record is what the 3 bytes of `b` at `o` encode.
    pub open spec fn matches_bytes(self, b: Seq<u8>, o: int) -> bool {
        &&& self.endLap == b[o]
        &&& self.tyreActualCompound == ActualCompound::from_code(b[o + 1])
        &&& self.tyreVisualCompound == VisualCompound::from_code(b[o + 2])
    }

    /// The record encoded at `o`.
    pub fn read_at(bytes: &[u8], o: usize) -> (r: Self)
        requires
            o + TYRE_STINT_HISTORY_SIZE <= bytes@.len(),
        ensures
            r.matches_bytes(bytes@, o as int),
    {
        assert(bytes@.len() == bytes.len());
        TyreStintHistory {
            endLap: read_u8(bytes, o),
            tyreActualCompound: ActualCompound::from_u8(&read_u8(bytes, o + 1)),
            tyreVisualCompound: VisualCompound::from_u8(&read_u8(bytes, o + 2)),
        }
    }

    pub fn unpack(bytes: &[u8]) -> (r: Self)
        requires
            bytes@.len() >= TYRE_STINT_HISTORY_SIZE,
        ensures
            r.matches_bytes(bytes@, 0),
    {
        Self::read_at(bytes, 0)
    }
}

/// The motion packet.
#[derive(Debug, Clone)]
pub struct PacketMotion {
    pub header: Header,
    pub carMotion: Vec<CarMotion>,
    pub suspensionPosition: Wheels,
    pub suspensionVelocity: Wheels,
    pub suspensionAcceleration: Wheels,
    pub wheelSpeed: Wheels,
    pub wheelSlip: Wheels,
    pub localVelocity: Vector,
    pub angularVelocity: Vector,
    pub angularAcceleration: Vector,
    pub frontWheelsAngle: u32,
}

impl PacketMotion {
    /// This record is what the 1469 bytes of `b` at `o` encode.
    pub open spec fn matches_bytes(self, b: Seq<u8>, o: int) -> bool {
        &&& self.header.matches_bytes(b, o)
        &&& self.carMotion@.len() == 22
        &&& forall|i: int|
            0 <= i < 22 ==> #[trigger] self.carMotion@[i].matches_bytes(b.subrange(o + 29, o + 29 + 1320), 60 * i)
        &&& self.suspensionPosition.matches_bytes(b, o + 1349)
        &&& self.suspensionVelocity.matches_bytes(b, o + 1365)
        &&& self.suspensionAcceleration.matches_bytes(b, o + 1381)
        &&& self.wheelSpeed.matches_bytes(b, o + 1397)
        &&& self.wheelSlip.matches_bytes(b, o + 1413)
        &&& self.localVelocity.matches_bytes(b, o + 1429)
        &&& self.angularVelocity.matches_bytes(b, o + 1441)
        &&& self.angularAcceleration.matches_bytes(b, o + 1453)
        &&& self.frontWheelsAngle == le32(b, o + 1465)
    }

    #[verifier::rlimit(60)]
    pub fn unpack(bytes: &[u8]) -> (r: Self)
        requires
            bytes@.len() >= PACKET_MOTION_SIZE,
        ensures
            r.matches_bytes(bytes@, 0),
    {
        let o: usize = 0;
        PacketMotion {
            header: Header::unpack(bytes),
            carMotion: PacketMotion::carMotion(slice_subrange(bytes, o + 29, o + 29 + 1320)),
            suspensionPosition: Wheels::read_at(bytes, o + 1349),
            suspensionVelocity: Wheels::read_at(bytes, o + 1365),
            suspensionAcceleration: Wheels::read_at(bytes, o + 1381),
            wheelSpeed: Wheels::read_at(bytes, o + 1397),
            wheelSlip: Wheels::read_at(bytes, o + 1413),
            localVelocity: Vector::read_at(bytes, o + 1429),
            angularVelocity: Vector::read_at(bytes, o + 1441),
            angularAcceleration: Vector::read_at(bytes, o + 1453),
            frontWheelsAngle: read_u32(bytes, o + 1465),
        }
    }

    /// The 22 consecutive records that `bytes` starts with.
    pub fn carMotion(bytes: &[u8]) -> (r: Vec<CarMotion>)
        requires
            bytes@.len() >= 22 * 60,
        ensures
            r@.len() == 22,
            forall|i: int| 0 <= i < 22 ==> #[trigger] r@[i].matches_bytes(bytes@, 60 * i),
    {
        let mut r: Vec<CarMotion> = Vec::new();
        assert(bytes@.len() == bytes.len());
        let mut i: usize = 0;
        while i < 22
            invariant
                i <= 22,
                bytes@.len() >= 22 * 60,
                r@.len() == i,
                forall|j: int| 0 <= j < i ==> #[trigger] r@[j].matches_bytes(bytes@, 60 * j),
            decreases 22 - i,
        {
            let s = i * 60;
            let item = CarMotion::read_at(bytes, s);
            r.push(item);
            i += 1;
        }
        r
    }
}

/// The session packet; distances are IEEE-754 bits.
#[derive(Debug, Clone)]
pub struct PacketSession {
    pub header: Header,
    pub weather: Weather,
    pub trackTemperature: i8,
    pub airTemperature: i8,
    pub totalLaps: u8,
    pub trackLength: u16,
    pub sessionType: Session,
    pub trackId: i8,
    pub formula: Formula,
    pub sessionTimeLeft: u16,
    pub sessionDuration: u16,
    pub pitSpeedLimit: u8,
    pub gamePaused: u8,
    pub isSpectating: u8,
    pub spectatorCarIndex: u8,
    pub sliProNativeSupport: SLIPro,
    pub numMarshalZones: u8,
    pub marshalZones: Vec<MarshalZone>,
    pub safetyCarStatus: SafetyCar,
    pub networkGame: NetworkGame,
    pub numWeatherForecasts: u8,
    pub weatherForecast: Vec<WeatherForecast>,
    pub forecastAccuracy: Accuracy,
    pub aiDifficulty: u8,
    pub seasonLinkIdentifier: u32,
    pub weekendLinkIdentifier: u32,
    pub sessionLinkIdentifier: u32,
    pub pitStopWindowIdealLap: u8,
    pub pitStopWindowLatestLap: u8,
    pub pitStopRejoinPosition: u8,
    pub steeringAssist: Assist,
    pub brakingAssist: u8,
    pub gearboxAssist: u8,
    pub pitAssist: Assist,
    pub pitReleaseAssist: Assist,
    pub ERSAssist: Assist,
    pub DRSAssist: Assist,
    pub dynamicRacingLine: u8,
    pub dynamicRacingLineType: u8,
    pub gameMode: u8,
    pub ruleSet: u8,
    pub timeOfDay: u32,
    pub sessionLength: SessionLength,
    pub speedUnitsLeadPlayer: u8,
    pub temperatureUnitsLeadPlayer: u8,
    pub speedUnitsSecondaryPlayer: u8,
    pub temperatureUnitsSecondaryPlayer: u8,
    pub numSafetyCarPeriods: u8,
    pub numVirtualSafetyCarPeriods: u8,
    pub numRedFlagPeriods: u8,
    pub equalCarPerformance: u8,
    pub recoveryMode: u8,
    pub flashbackLimit: u8,
    pub surfaceType: u8,
    pub lowFuelMode: u8,
    pub raceStarts: u8,
    pub tyreTemperature: u8,
    pub pitLaneTyreSim: u8,
    pub carDamage: u8,
    pub carDamageRate: u8,
    pub collisions: u8,
    pub collisionsOffForFirstLapOnly: u8,
    pub mpUnsafePitRelease: u8,
    pub mpOffForGriefing: u8,
    pub cornerCuttingStringency: u8,
    pub parcFermeRules: u8,
    pub pitStopExperience: u8,
    pub safetyCar: u8,
    pub safetyCarExperience: u8,
    pub formationLap: u8,
    pub formationLapExperience: u8,
    pub redFlags: u8,
    pub affectsLicenceLevelSolo: u8,
    pub affectsLicenceLevelMP: u8,
    pub numSessionsInWeekend: u8,
    pub weekendStructure: Vec<u8>,
    pub sector2LapDistanceStart: u32,
    pub sector3LapDistanceStart: u32,
}

impl PacketSession {
    /// This record is what the 753 bytes of `b` at `o` encode.
    pub open spec fn matches_bytes(self, b: Seq<u8>, o: int) -> bool {
        &&& self.header.matches_bytes(b, o)
        &&& self.weather == Weather::from_code(b[o + 29])
        &&& self.trackTemperature == signed8(b[o + 30])
        &&& self.airTemperature == signed8(b[o + 31])
        &&& self.totalLaps == b[o + 32]
        &&& self.trackLength == le16(b, o + 33)
        &&& self.sessionType == Session::from_code(b[o + 35])
        &&& self.trackId == signed8(b[o + 36])
        &&& self.formula == Formula::from_code(b[o + 37])
        &&& self.sessionTimeLeft == le16(b, o + 38)
        &&& self.sessionDuration == le16(b, o + 40)
        &&& self.pitSpeedLimit == b[o + 42]
        &&& self.gamePaused == b[o + 43]
        &&& self.isSpectating == b[o + 44]
        &&& self.spectatorCarIndex == b[o + 45]
        &&& self.sliProNativeSupport == SLIPro::from_code(b[o + 46])
        &&& self.numMarshalZones == b[o + 47]
        &&& self.marshalZones@.len() == 21
        &&& forall|i: int|
            0 <= i < 21 ==> #[trigger] self.marshalZones@[i].matches_bytes(b.subrange(o + 48, o + 48 + 105), 5 * i)
        &&& self.safetyCarStatus == SafetyCar::from_code(b[o + 153])
        &&& self.networkGame == NetworkGame::from_code(b[o + 154])
        &&& self.numWeatherForecasts == b[o + 155]
        &&& self.weatherForecast@.len() == 64
        &&& forall|i: int|
            0 <= i < 64 ==> #[trigger] self.weatherForecast@[i].matches_bytes(b.subrange(o + 156, o + 156 + 512), 8 * i)
        &&& self.forecastAccuracy == Accuracy::from_code(b[o + 668])
        &&& self.aiDifficulty == b[o + 669]
        &&& self.seasonLinkIdentifier == le32(b, o + 670)
        &&& self.weekendLinkIdentifier == le32(b, o + 674)
        &&& self.sessionLinkIdentifier == le32(b, o + 678)
        &&& self.pitStopWindowIdealLap == b[o + 682]
        &&& self.pitStopWindowLatestLap == b[o + 683]
        &&& self.pitStopRejoinPosition == b[o + 684]
        &&& self.steeringAssist == Assist::from_code(b[o + 685])
        &&& self.brakingAssist == b[o + 686]
        &&& self.gearboxAssist == b[o + 687]
        &&& self.pitAssist == Assist::from_code(b[o + 688])
        &&& self.pitReleaseAssist == Assist::from_code(b[o + 689])
        &&& self.ERSAssist == Assist::from_code(b[o + 690])
        &&& self.DRSAssist == Assist::from_code(b[o + 691])
        &&& self.dynamicRacingLine == b[o + 692]
        &&& self.dynamicRacingLineType == b[o + 693]
        &&& self.gameMode == b[o + 694]
        &&& self.ruleSet == b[o + 695]
        &&& self.timeOfDay == le32(b, o + 696)
        &&& self.sessionLength == SessionLength::from_code(b[o + 700])
        &&& self.speedUnitsLeadPlayer == b[o + 701]
        &&& self.temperatureUnitsLeadPlayer == b[o + 702]
        &&& self.speedUnitsSecondaryPlayer == b[o + 703]
        &&& self.temperatureUnitsSecondaryPlayer == b[o + 704]
        &&& self.numSafetyCarPeriods == b[o + 705]
        &&& self.numVirtualSafetyCarPeriods == b[o + 706]
        &&& self.numRedFlagPeriods == b[o + 707]
        &&& self.equalCarPerformance == b[o + 708]
        &&& self.recoveryMode == b[o + 709]
        &&& self.flashbackLimit == b[o + 710]
        &&& self.surfaceType == b[o + 711]
        &&& self.lowFuelMode == b[o + 712]
        &&& self.raceStarts == b[o + 713]
        &&& self.tyreTemperature == b[o + 714]
        &&& self.pitLaneTyreSim == b[o + 715]
        &&& self.carDamage == b[o + 716]
        &&& self.carDamageRate == b[o + 717]
        &&& self.collisions == b[o + 718]
        &&& self.collisionsOffForFirstLapOnly == b[o + 719]
        &&& self.mpUnsafePitRelease == b[o + 720]
        &&& self.mpOffForGriefing == b[o + 721]
        &&& self.cornerCuttingStringency == b[o + 722]
        &&& self.parcFermeRules == b[o + 723]
        &&& self.pitStopExperience == b[o + 724]
        &&& self.safetyCar == b[o + 725]
        &&& self.safetyCarExperience == b[o + 726]
        &&& self.formationLap == b[o + 727]
        &&& self.formationLapExperience == b[o + 728]
        &&& self.redFlags == b[o + 729]
        &&& self.affectsLicenceLevelSolo == b[o + 730]
        &&& self.affectsLicenceLevelMP == b[o + 731]
        &&& self.numSessionsInWeekend == b[o + 732]
        &&& self.weekendStructure@ == b.subrange(o + 733, o + 733 + 12)
        &&& self.sector2LapDistanceStart == le32(b, o + 745)
        &&& self.sector3LapDistanceStart == le32(b, o + 749)
    }

    #[verifier::rlimit(60)]
    pub fn unpack(bytes: &[u8]) -> (r: Self)
        requires
            bytes@.len() >= PACKET_SESSION_SIZE,
        ensures
            r.matches_bytes(bytes@, 0),
    {
        let o: usize = 0;
        PacketSession {
            header: Header::unpack(bytes),
            weather: Weather::from_u8(&read_u8(bytes, o + 29)),
            trackTemperature: read_i8(bytes, o + 30),
            airTemperature: read_i8(bytes, o + 31),
            totalLaps: read_u8(bytes, o + 32),
            trackLength: read_u16(bytes, o + 33),
            sessionType: Session::from_u8(&read_u8(bytes, o + 35)),
            trackId: read_i8(bytes, o + 36),
            formula: Formula::from_u8(&read_u8(bytes, o + 37)),
            sessionTimeLeft: read_u16(bytes, o + 38),
            sessionDuration: read_u16(bytes, o + 40),
            pitSpeedLimit: read_u8(bytes, o + 42),
            gamePaused: read_u8(bytes, o + 43),
            isSpectating: read_u8(bytes, o + 44),
            spectatorCarIndex: read_u8(bytes, o + 45),
            sliProNativeSupport: SLIPro::from_u8(&read_u8(bytes, o + 46)),
            numMarshalZones: read_u8(bytes, o + 47),
            marshalZones: PacketSession::marshalZone(slice_subrange(bytes, o + 48, o + 48 + 105)),
            safetyCarStatus: SafetyCar::from_u8(&read_u8(bytes, o + 153)),
            networkGame: NetworkGame::from_u8(&read_u8(bytes, o + 154)),
            numWeatherForecasts: read_u8(bytes, o + 155),
            weatherForecast: PacketSession::weatherForecast(slice_subrange(bytes, o + 156, o + 156 + 512)),
            forecastAccuracy: Accuracy::from_u8(&read_u8(bytes, o + 668)),
            aiDifficulty: read_u8(bytes, o + 669),
            seasonLinkIdentifier: read_u32(bytes, o + 670),
            weekendLinkIdentifier: read_u32(bytes, o + 674),
            sessionLinkIdentifier: read_u32(bytes, o + 678),
            pitStopWindowIdealLap: read_u8(bytes, o + 682),
            pitStopWindowLatestLap: read_u8(bytes, o + 683),
            pitStopRejoinPosition: read_u8(bytes, o + 684),
            steeringAssist: Assist::from_u8(&read_u8(bytes, o + 685)),
            brakingAssist: read_u8(bytes, o + 686),
            gearboxAssist: read_u8(bytes, o + 687),
            pitAssist: Assist::from_u8(&read_u8(bytes, o + 688)),
            pitReleaseAssist: Assist::from_u8(&read_u8(bytes, o + 689)),
            ERSAssist: Assist::from_u8(&read_u8(bytes, o + 690)),
            DRSAssist: Assist::from_u8(&read_u8(bytes, o + 691)),
            dynamicRacingLine: read_u8(bytes, o + 692),
            dynamicRacingLineType: read_u8(bytes, o + 693),
            gameMode: read_u8(bytes, o + 694),
            ruleSet: read_u8(bytes, o + 695),
            timeOfDay: read_u32(bytes, o + 696),
            sessionLength: SessionLength::from_u8(&read_u8(bytes, o + 700)),
            speedUnitsLeadPlayer: read_u8(bytes, o + 701),
            temperatureUnitsLeadPlayer: read_u8(bytes, o + 702),
            speedUnitsSecondaryPlayer: read_u8(bytes, o + 703),
            temperatureUnitsSecondaryPlayer: read_u8(bytes, o + 704),
            numSafetyCarPeriods: read_u8(bytes, o + 705),
            numVirtualSafetyCarPeriods: read_u8(bytes, o + 706),
            numRedFlagPeriods: read_u8(bytes, o + 707),
            equalCarPerformance: read_u8(bytes, o + 708),
            recoveryMode: read_u8(bytes, o + 709),
            flashbackLimit: read_u8(bytes, o + 710),
            surfaceType: read_u8(bytes, o + 711),
            lowFuelMode: read_u8(bytes, o + 712),
            raceStarts: read_u8(bytes, o + 713),
            tyreTemperature: read_u8(bytes, o + 714),
            pitLaneTyreSim: read_u8(bytes, o + 715),
            carDamage: read_u8(bytes, o + 716),
            carDamageRate: read_u8(bytes, o + 717),
            collisions: read_u8(bytes, o + 718),
            collisionsOffForFirstLapOnly: read_u8(bytes, o + 719),
            mpUnsafePitRelease: read_u8(bytes, o + 720),
            mpOffForGriefing: read_u8(bytes, o + 721),
            cornerCuttingStringency: read_u8(bytes, o + 722),
            parcFermeRules: read_u8(bytes, o + 723),
            pitStopExperience: read_u8(bytes, o + 724),
            safetyCar: read_u8(bytes, o + 725),
            safetyCarExperience: read_u8(bytes, o + 726),
            formationLap: read_u8(bytes, o + 727),
            formationLapExperience: read_u8(bytes, o + 728),
            redFlags: read_u8(bytes, o + 729),
            affectsLicenceLevelSolo: read_u8(bytes, o + 730),
            affectsLicenceLevelMP: read_u8(bytes, o + 731),
            numSessionsInWeekend: read_u8(bytes, o + 732),
            weekendStructure: read_bytes(bytes, o + 733, 12),
            sector2LapDistanceStart: read_u32(bytes, o + 745),
            sector3LapDistanceStart: read_u32(bytes, o + 749),
        }
    }

    /// The 21 consecutive records that `bytes` starts with.
    pub fn marshalZone(bytes: &[u8]) -> (r: Vec<MarshalZone>)
        requires
            bytes@.len() >= 21 * 5,
        ensures
            r@.len() == 21,
            forall|i: int| 0 <= i < 21 ==> #[trigger] r@[i].matches_bytes(bytes@, 5 * i),
    {
        let mut r: Vec<MarshalZone> = Vec::new();
        assert(bytes@.len() == bytes.len());
        let mut i: usize = 0;
        while i < 21
            invariant
                i <= 21,
                bytes@.len() >= 21 * 5,
                r@.len() == i,
                forall|j: int| 0 <= j < i ==> #[trigger] r@[j].matches_bytes(bytes@, 5 * j),
            decreases 21 - i,
        {
            let s = i * 5;
            let item = MarshalZone::read_at(bytes, s);
            r.push(item);
            i += 1;
        }
        r
    }

    /// The 64 consecutive records that `bytes` starts with.
    pub fn weatherForecast(bytes: &[u8]) -> (r: Vec<WeatherForecast>)
        requires
            bytes@.len() >= 64 * 8,
        ensures
            r@.len() == 64,
            forall|i: int| 0 <= i < 64 ==> #[trigger] r@[i].matches_bytes(bytes@, 8 * i),
    {
        let mut r: Vec<WeatherForecast> = Vec::new();
        assert(bytes@.len() == bytes.len());
        let mut i: usize = 0;
        while i < 64
            invariant
                i <= 64,
                bytes@.len() >= 64 * 8,
                r@.len() == i,
                forall|j: int| 0 <= j < i ==> #[trigger] r@[j].matches_bytes(bytes@, 8 * j),
            decreases 64 - i,
        {
            let s = i * 8;
            let item = WeatherForecast::read_at(bytes, s);
            r.push(item);
            i += 1;
        }
        r
    }
}

/// The lap packet.
#[derive(Debug, Clone)]
pub struct PacketLap {
    pub header: Header,
    pub cars: Vec<Car>,
    pub timeTrialPBCarIdx: u8,
    pub timeTrialRivalCarIdx: u8,
}

impl PacketLap {
    /// This record is what the 1285 bytes of `b` at `o` encode.
    pub open spec fn matches_bytes(self, b: Seq<u8>, o: int) -> bool {
        &&& self.header.matches_bytes(b, o)
        &&& self.cars@.len() == 22
        &&& forall|i: int|
            0 <= i < 22 ==> #[trigger] self.cars@[i].matches_bytes(b.subrange(o + 29, o + 29 + 1254), 57 * i)
        &&& self.timeTrialPBCarIdx == b[o + 1283]
        &&& self.timeTrialRivalCarIdx == b[o + 1284]
    }

    #[verifier::rlimit(60)]
    pub fn unpack(bytes: &[u8]) -> (r: Self)
        requires
            bytes@.len() >= PACKET_LAP_SIZE,
        ensures
            r.matches_bytes(bytes@, 0),
    {
        let o: usize = 0;
        PacketLap {
            header: Header::unpack(bytes),
            cars: PacketLap::lap(slice_subrange(bytes, o + 29, o + 29 + 1254)),
            timeTrialPBCarIdx: read_u8(bytes, o + 1283),
            timeTrialRivalCarIdx: read_u8(bytes, o + 1284),
        }
    }

    /// The 22 consecutive records that `bytes` starts with.
    #[verifier::rlimit(60)]
    pub fn lap(bytes: &[u8]) -> (r: Vec<Car>)
        requires
            bytes@.len() >= 22 * 57,
        ensures
            r@.len() == 22,
            forall|i: int| 0 <= i < 22 ==> #[trigger] r@[i].matches_bytes(bytes@, 57 * i),
    {
        let mut r: Vec<Car> = Vec::new();
        assert(bytes@.len() == bytes.len());
        let mut i: usize = 0;
        while i < 22
            invariant
                i <= 22,
                bytes@.len() >= 22 * 57,
                r@.len() == i,
                forall|j: int| 0 <= j < i ==> #[trigger] r@[j].matches_bytes(bytes@, 57 * j),
            decreases 22 - i,
        {
            let s = i * 57;
            let item = Car::read_at(bytes, s);
            r.push(item);
            i += 1;
        }
        r
    }
}

/// The participants packet.
#[derive(Debug, Clone)]
pub struct PacketParticipants {
    pub header: Header,
    pub numActiveCars: u8,
    pub participants: Vec<Participant>,
}

impl PacketParticipants {
    /// This record is what the 1284 bytes of `b` at `o` encode.
    pub open spec fn matches_bytes(self, b: Seq<u8>, o: int) -> bool {
        &&& self.header.matches_bytes(b, o)
        &&& self.numActiveCars == b[o + 29]
        &&& self.participants@.len() == 22
        &&& forall|i: int|
            0 <= i < 22 ==> #[trigger] self.participants@[i].matches_bytes(b.subrange(o + 30, o + 30 + 1254), 57 * i)
    }

    pub fn unpack(bytes: &[u8]) -> (r: Self)
        requires
            bytes@.len() >= PACKET_PARTICIPANTS_SIZE,
        ensures
            r.matches_bytes(bytes@, 0),
    {
        let o: usize = 0;
        PacketParticipants {
            header: Header::unpack(bytes),
            numActiveCars: read_u8(bytes, o + 29),
            participants: PacketParticipants::participants(slice_subrange(bytes, o + 30, o + 30 + 1254)),
        }
    }

    /// The 22 consecutive records that `bytes` starts with.
    #[verifier::rlimit(60)]
    pub fn participants(bytes: &[u8]) -> (r: Vec<Participant>)
        requires
            bytes@.len() >= 22 * 57,
        ensures
            r@.len() == 22,
            forall|i: int| 0 <= i < 22 ==> #[trigger] r@[i].matches_bytes(bytes@, 57 * i),
    {
        let mut r: Vec<Participant> = Vec::new();
        assert(bytes@.len() == bytes.len());
        let mut i: usize = 0;
        while i < 22
            invariant
                i <= 22,
                bytes@.len() >= 22 * 57,
                r@.len() == i,
                forall|j: int| 0 <= j < i ==> #[trigger] r@[j].matches_bytes(bytes@, 57 * j),
            decreases 22 - i,
        {
            let s = i * 57;
            let item = Participant::read_at(bytes, s);
            r.push(item);
            i += 1;
        }
        r
    }
}

/// The car setups packet.
#[derive(Debug, Clone)]
pub struct PacketCarSetups {
    pub header: Header,
    pub carSetups: Vec<CarSetup>,
}

impl PacketCarSetups {
    /// This record is what the 1107 bytes of `b` at `o` encode.
    pub open spec fn matches_bytes(self, b: Seq<u8>, o: int) -> bool {
        &&& self.header.matches_bytes(b, o)
        &&& self.carSetups@.len() == 22
        &&& forall|i: int|
            0 <= i < 22 ==> #[trigger] self.carSetups@[i].matches_bytes(b.subrange(o + 29, o + 29 + 1078), 49 * i)
    }

    pub fn unpack(bytes: &[u8]) -> (r: Self)
        requires
            bytes@.len() >= PACKET_CAR_SETUPS_SIZE,
        ensures
            r.matches_bytes(bytes@, 0),
    {
        let o: usize = 0;
        PacketCarSetups {
            header: Header::unpack(bytes),
            carSetups: PacketCarSetups::carSetups(slice_subrange(bytes, o + 29, o + 29 + 1078)),
        }
    }

    /// The 22 consecutive records that `bytes` starts with.
    pub fn carSetups(bytes: &[u8]) -> (r: Vec<CarSetup>)
        requires
            bytes@.len() >= 22 * 49,
        ensures
            r@.len() == 22,
            forall|i: int| 0 <= i < 22 ==> #[trigger] r@[i].matches_bytes(bytes@, 49 * i),
    {
        let mut r: Vec<CarSetup> = Vec::new();
        assert(bytes@.len() == bytes.len());
        let mut i: usize = 0;
        while i < 22
            invariant
                i <= 22,
                bytes@.len() >= 22 * 49,
                r@.len() == i,
                forall|j: int| 0 <= j < i ==> #[trigger] r@[j].matches_bytes(bytes@, 49 * j),
            decreases 22 - i,
        {
            let s = i * 49;
            let item = CarSetup::read_at(bytes, s);
            r.push(item);
            i += 1;
        }
        r
    }
}

/// The car telemetry packet.
#[derive(Debug, Clone)]
pub struct PacketCarTelemetry {
    pub header: Header,
    pub carTelemetry: Vec<CarTelemetry>,
    pub mfdFirstPlayer: MFDPanel,
    pub mfdSecondaryPlayer: MFDPanel,
    pub suggestedGear: Gear,
}

impl PacketCarTelemetry {
    /// This record is what the 1352 bytes of `b` at `o` encode.
    pub open spec fn matches_bytes(self, b: Seq<u8>, o: int) -> bool {
        &&& self.header.matches_bytes(b, o)
        &&& self.carTelemetry@.len() == 22
        &&& forall|i: int|
            0 <= i < 22 ==> #[trigger] self.carTelemetry@[i].matches_bytes(b.subrange(o + 29, o + 29 + 1320), 60 * i)
        &&& self.mfdFirstPlayer == MFDPanel::from_code(b[o + 1349])
        &&& self.mfdSecondaryPlayer == MFDPanel::from_code(b[o + 1350])
        &&& self.suggestedGear == Gear::from_code(b[o + 1351])
    }

    pub fn unpack(bytes: &[u8]) -> (r: Self)
        requires
            bytes@.len() >= PACKET_CAR_TELEMETRY_SIZE,
        ensures
            r.matches_bytes(bytes@, 0),
    {
        let o: usize = 0;
        PacketCarTelemetry {
            header: Header::unpack(bytes),
            carTelemetry: PacketCarTelemetry::carTelemetry(slice_subrange(bytes, o + 29, o + 29 + 1320)),
            mfdFirstPlayer: MFDPanel::from_u8(&read_u8(bytes, o + 1349)),
            mfdSecondaryPlayer: MFDPanel::from_u8(&read_u8(bytes, o + 1350)),
            suggestedGear: Gear::from_u8_to_i8(&read_u8(bytes, o + 1351)),
        }
    }

    /// The 22 consecutive records that `bytes` starts with.
    pub fn carTelemetry(bytes: &[u8]) -> (r: Vec<CarTelemetry>)
        requires
            bytes@.len() >= 22 * 60,
        ensures
            r@.len() == 22,
            forall|i: int| 0 <= i < 22 ==> #[trigger] r@[i].matches_bytes(bytes@, 60 * i),
    {
        let mut r: Vec<CarTelemetry> = Vec::new();
        assert(bytes@.len() == bytes.len());
        let mut i: usize = 0;
        while i < 22
            invariant
                i <= 22,
                bytes@.len() >= 22 * 60,
                r@.len() == i,
                forall|j: int| 0 <= j < i ==> #[trigger] r@[j].matches_bytes(bytes@, 60 * j),
            decreases 22 - i,
        {
            let s = i * 60;
            let item = CarTelemetry::read_at(bytes, s);
            r.push(item);
            i += 1;
        }
        r
    }
}

/// The car status packet.
#[derive(Debug, Clone)]
pub struct PacketCarStatus {
    pub header: Header,
    pub carStatus: Vec<CarStatus>,
}

impl PacketCarStatus {
    /// This record is what the 1239 bytes of `b` at `o` encode.
    pub open spec fn matches_bytes(self, b: Seq<u8>, o: int) -> bool {
        &&& self.header.matches_bytes(b, o)
        &&& self.carStatus@.len() == 22
        &&& forall|i: int|
            0 <= i < 22 ==> #[trigger] self.carStatus@[i].matches_bytes(b.subrange(o + 29, o + 29 + 1210), 55 * i)
    }

    pub fn unpack(bytes: &[u8]) -> (r: Self)
        requires
            bytes@.len() >= PACKET_CAR_STATUS_SIZE,
        ensures
            r.matches_bytes(bytes@, 0),
    {
        let o: usize = 0;
        PacketCarStatus {
            header: Header::unpack(bytes),
            carStatus: PacketCarStatus::carStatus(slice_subrange(bytes, o + 29, o + 29 + 1210)),
        }
    }

    /// The 22 consecutive records that `bytes` starts with.
    pub fn carStatus(bytes: &[u8]) -> (r: Vec<CarStatus>)
        requires
            bytes@.len() >= 22 * 55,
        ensures
            r@.len() == 22,
            forall|i: int| 0 <= i < 22 ==> #[trigger] r@[i].matches_bytes(bytes@, 55 * i),
    {
        let mut r: Vec<CarStatus> = Vec::new();
        assert(bytes@.len() == bytes.len());
        let mut i: usize = 0;
        while i < 22
            invariant
                i <= 22,
                bytes@.len() >= 22 * 55,
                r@.len() == i,
                forall|j: int| 0 <= j < i ==> #[trigger] r@[j].matches_bytes(bytes@, 55 * j),
            decreases 22 - i,
        {
            let s = i * 55;
            let item = CarStatus::read_at(bytes, s);
            r.push(item);
            i += 1;
        }
        r
    }
}

/// The final classification packet.
#[derive(Debug, Clone)]
pub struct PacketFinalClassification {
    pub header: Header,
    pub numCars: u8,
    pub classificationData: Vec<FinalClassification>,
}

impl PacketFinalClassification {
    /// This record is what the 1020 bytes of `b` at `o` encode.
    pub open spec fn matches_bytes(self, b: Seq<u8>, o: int) -> bool {
        &&& self.header.matches_bytes(b, o)
        &&& self.numCars == b[o + 29]
        &&& self.classificationData@.len() == 22
        &&& forall|i: int|
            0 <= i < 22 ==> #[trigger] self.classificationData@[i].matches_bytes(b.subrange(o + 30, o + 30 + 990), 45 * i)
    }

    pub fn unpack(bytes: &[u8]) -> (r: Self)
        requires
            bytes@.len() >= PACKET_FINAL_CLASSIFICATION_SIZE,
        ensures
            r.matches_bytes(bytes@, 0),
    {
        let o: usize = 0;
        PacketFinalClassification {
            header: Header::unpack(bytes),
            numCars: read_u8(bytes, o + 29),
            classificationData: PacketFinalClassification::classificationData(slice_subrange(bytes, o + 30, o + 30 + 990)),
        }
    }

    /// The 22 consecutive records that `bytes` starts with.
    pub fn classificationData(bytes: &[u8]) -> (r: Vec<FinalClassification>)
        requires
            bytes@.len() >= 22 * 45,
        ensures
            r@.len() == 22,
            forall|i: int| 0 <= i < 22 ==> #[trigger] r@[i].matches_bytes(bytes@, 45 * i),
    {
        let mut r: Vec<FinalClassification> = Vec::new();
        assert(bytes@.len() == bytes.len());
        let mut i: usize = 0;
        while i < 22
            invariant
                i <= 22,
                bytes@.len() >= 22 * 45,
                r@.len() == i,
                forall|j: int| 0 <= j < i ==> #[trigger] r@[j].matches_bytes(bytes@, 45 * j),
            decreases 22 - i,
        {
            let s = i * 45;
            let item = FinalClassification::read_at(bytes, s);
            r.push(item);
            i += 1;
        }
        r
    }
}

/// The lobby info packet.
#[derive(Debug, Clone)]
pub struct PacketLobbyInfo {
    pub header: Header,
    pub numPlayers: u8,
    pub lobbyPlayers: Vec<LobbyInfo>,
}

impl PacketLobbyInfo {
    /// This record is what the 1196 bytes of `b` at `o` encode.
    pub open spec fn matches_bytes(self, b: Seq<u8>, o: int) -> bool {
        &&& self.header.matches_bytes(b, o)
        &&& self.numPlayers == b[o + 29]
        &&& self.lobbyPlayers@.len() == 22
        &&& forall|i: int|
            0 <= i < 22 ==> #[trigger] self.lobbyPlayers@[i].matches_bytes(b.subrange(o + 30, o + 30 + 1166), 53 * i)
    }

    pub fn unpack(bytes: &[u8]) -> (r: Self)
        requires
            bytes@.len() >= PACKET_LOBBY_INFO_SIZE,
        ensures
            r.matches_bytes(bytes@, 0),
    {
        let o: usize = 0;
        PacketLobbyInfo {
            header: Header::unpack(bytes),
            numPlayers: read_u8(bytes, o + 29),
            lobbyPlayers: PacketLobbyInfo::lobbyInfo(slice_subrange(bytes, o + 30, o + 30 + 1166)),
        }
    }

    /// The 22 consecutive records that `bytes` starts with.
    pub fn lobbyInfo(bytes: &[u8]) -> (r: Vec<LobbyInfo>)
        requires
            bytes@.len() >= 22 * 53,
        ensures
            r@.len() == 22,
            forall|i: int| 0 <= i < 22 ==> #[trigger] r@[i].matches_bytes(bytes@, 53 * i),
    {
        let mut r: Vec<LobbyInfo> = Vec::new();
        assert(bytes@.len() == bytes.len());
        let mut i: usize = 0;
        while i < 22
            invariant
                i <= 22,
                bytes@.len() >= 22 * 53,
                r@.len() == i,
                forall|j: int| 0 <= j < i ==> #[trigger] r@[j].matches_bytes(bytes@, 53 * j),
            decreases 22 - i,
        {
            let s = i * 53;
            let item = LobbyInfo::read_at(bytes, s);
            r.push(item);
            i += 1;
        }
        r
    }
}

/// The car damage packet.
#[derive(Debug, Clone)]
pub struct PacketCarDamage {
    pub header: Header,
    pub carDamageData: Vec<CarDamage>,
}

impl PacketCarDamage {
    /// This record is what the 953 bytes of `b` at `o` encode.
    pub open spec fn matches_bytes(self, b: Seq<u8>, o: int) -> bool {
        &&& self.header.matches_bytes(b, o)
        &&& self.carDamageData@.len() == 22
        &&& forall|i: int|
            0 <= i < 22 ==> #[trigger] self.carDamageData@[i].matches_bytes(b.subrange(o + 29, o + 29 + 924), 42 * i)
    }

    pub fn unpack(bytes: &[u8]) -> (r: Self)
        requires
            bytes@.len() >= PACKET_CAR_DAMAGE_SIZE,
        ensures
            r.matches_bytes(bytes@, 0),
    {
        let o: usize = 0;
        PacketCarDamage {
            header: Header::unpack(bytes),
            carDamageData: PacketCarDamage::carDamage(slice_subrange(bytes, o + 29, o + 29 + 924)),
        }
    }

    /// The 22 consecutive records that `bytes` starts with.
    pub fn carDamage(bytes: &[u8]) -> (r: Vec<CarDamage>)
        requires
            bytes@.len() >= 22 * 42,
        ensures
            r@.len() == 22,
            forall|i: int| 0 <= i < 22 ==> #[trigger] r@[i].matches_bytes(bytes@, 42 * i),
    {
        let mut r: Vec<CarDamage> = Vec::new();
        assert(bytes@.len() == bytes.len());
        let mut i: usize = 0;
        while i < 22
            invariant
                i <= 22,
                bytes@.len() >= 22 * 42,
                r@.len() == i,
                forall|j: int| 0 <= j < i ==> #[trigger] r@[j].matches_bytes(bytes@, 42 * j),
            decreases 22 - i,
        {
            let s = i * 42;
            let item = CarDamage::read_at(bytes, s);
            r.push(item);
            i += 1;
        }
        r
    }
}

/// The session history packet of one car.
#[derive(Debug, Clone)]
pub struct PacketSessionHistory {
    pub header: Header,
    pub carIdx: u8,
    pub numLaps: u8,
    pub numTyreStints: u8,
    pub bestLapTimeLapNum: u8,
    pub bestSector1LapNum: u8,
    pub bestSector2LapNum: u8,
    pub bestSector3LapNum: u8,
    pub lapHistory: Vec<LapHistory>,
    pub tyreStintsHistory: Vec<TyreStintHistory>,
}

impl PacketSessionHistory {
    /// This record is what the 1160 bytes of `b` at `o` encode.
    pub open spec fn matches_bytes(self, b: Seq<u8>, o: int) -> bool {
        &&& self.header.matches_bytes(b, o)
        &&& self.carIdx == b[o + 29]
        &&& self.numLaps == b[o + 30]
        &&& self.numTyreStints == b[o + 31]
        &&& self.bestLapTimeLapNum == b[o + 32]
        &&& self.bestSector1LapNum == b[o + 33]
        &&& self.bestSector2LapNum == b[o + 34]
        &&& self.bestSector3LapNum == b[o + 35]
        &&& self.lapHistory@.len() == 100
        &&& forall|i: int|
            0 <= i < 100 ==> #[trigger] self.lapHistory@[i].matches_bytes(b.subrange(o + 36, o + 36 + 1100), 11 * i)
        &&& self.tyreStintsHistory@.len() == 8
        &&& forall|i: int|
            0 <= i < 8 ==> #[trigger] self.tyreStintsHistory@[i].matches_bytes(b.subrange(o + 1136, o + 1136 + 24), 3 * i)
    }

    pub fn unpack(bytes: &[u8]) -> (r: Self)
        requires
            bytes@.len() >= PACKET_SESSION_HISTORY_SIZE,
        ensures
            r.matches_bytes(bytes@, 0),
    {
        let o: usize = 0;
        PacketSessionHistory {
            header: Header::unpack(bytes),
            carIdx: read_u8(bytes, o + 29),
            numLaps: read_u8(bytes, o + 30),
            numTyreStints: read_u8(bytes, o + 31),
            bestLapTimeLapNum: read_u8(bytes, o + 32),
            bestSector1LapNum: read_u8(bytes, o + 33),
            bestSector2LapNum: read_u8(bytes, o + 34),
            bestSector3LapNum: read_u8(bytes, o + 35),
            lapHistory: PacketSessionHistory::lapHistory(slice_subrange(bytes, o + 36, o + 36 + 1100)),
            tyreStintsHistory: PacketSessionHistory::tyreStintHistory(slice_subrange(bytes, o + 1136, o + 1136 + 24)),
        }
    }

    /// The 100 consecutive records that `bytes` starts with.
    pub fn lapHistory(bytes: &[u8]) -> (r: Vec<LapHistory>)
        requires
            bytes@.len() >= 100 * 11,
        ensures
            r@.len() == 100,
            forall|i: int| 0 <= i < 100 ==> #[trigger] r@[i].matches_bytes(bytes@, 11 * i),
    {
        let mut r: Vec<LapHistory> = Vec::new();
        assert(bytes@.len() == bytes.len());
        let mut i: usize = 0;
        while i < 100
            invariant
                i <= 100,
                bytes@.len() >= 100 * 11,
                r@.len() == i,
                forall|j: int| 0 <= j < i ==> #[trigger] r@[j].matches_bytes(bytes@, 11 * j),
            decreases 100 - i,
        {
            let s = i * 11;
            let item = LapHistory::read_at(bytes, s);
            r.push(item);
            i += 1;
        }
        r
    }

    /// The 8 consecutive records that `bytes` starts with.
    pub fn tyreStintHistory(bytes: &[u8]) -> (r: Vec<TyreStintHistory>)
        requires
            bytes@.len() >= 8 * 3,
        ensures
            r@.len() == 8,
            forall|i: int| 0 <= i < 8 ==> #[trigger] r@[i].matches_bytes(bytes@, 3 * i),
    {
        let mut r: Vec<TyreStintHistory> = Vec::new();
        assert(bytes@.len() == bytes.len());
        let mut i: usize = 0;
        while i < 8
            invariant
                i <= 8,
                bytes@.len() >= 8 * 3,
                r@.len() == i,
                forall|j: int| 0 <= j < i ==> #[trigger] r@[j].matches_bytes(bytes@, 3 * j),
            decreases 8 - i,
        {
            let s = i * 3;
            let item = TyreStintHistory::read_at(bytes, s);
            r.push(item);
            i += 1;
        }
        r
    }
}

} // verus!
