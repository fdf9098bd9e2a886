//! The session: one row per car slot, the positions table and the overall
//! bests, folded from decoded packets.
use vstd::prelude::*;
use crate::bests::{Best, Period, Time};
use crate::codes::{ActualCompound, Assist, CarState, Gear, TC, VisualCompound, ZoneFlag};
use crate::packet::{Car, CarStatus, CarTelemetry, Kph, Participant, RevLights};
use crate::text::name_text;
use crate::wire::f32_bits_negative;

verus! {

/// Car slots in the session; slot indices run below this.
pub const MAX_CARS: usize = 22;

/// Entries of the positions table; race positions are 1-based.
pub const POSITION_SLOTS: usize = 23;

/// Milliseconds from a (minutes, milliseconds) pair of the wire.
pub open spec fn split_ms(minutes: u8, ms: u16) -> int {
    minutes * 60000 + ms
}

/// The sector-3 time of a completed lap: the lap time less the first two
/// sectors; zero (never latched) where the first two exceed the lap.
pub open spec fn sector3_of(last_lap: u32, s1: u32, s2: u32) -> u32 {
    if s1 + s2 <= last_lap {
        (last_lap - (s1 + s2)) as u32
    } else {
        0
    }
}

pub fn split_to_ms(minutes: u8, ms: u16) -> (r: u32)
    ensures
        r == split_ms(minutes, ms),
{
    minutes as u32 * 60000 + ms as u32
}

pub fn sector3_split(last_lap: u32, s1: u32, s2: u32) -> (r: u32)
    ensures
        r == sector3_of(last_lap, s1, s2),
{
    let sum = s1 as u64 + s2 as u64;
    if sum <= last_lap as u64 {
        (last_lap as u64 - sum) as u32
    } else {
        0
    }
}

/// Whether the car of a lap record is still behind the start line: its lap
/// distance is negative until it first crosses the line.
pub fn behind_start_line(car: &Car) -> (r: bool)
    ensures
        r == f32_bits_negative(car.lapDistance),
{
    car.lapDistance >= 0x8000_0000 && car.lapDistance != 0x8000_0000 && car.lapDistance
        <= 0xFF80_0000
}

#[derive(Debug, Clone)]
pub struct Driver {
    pub id: u8,
    pub idNetwork: u8,
    pub number: u8,
    pub nationality: u8,
    pub isAI: bool,
    pub isTelemetryEnabled: bool,
    pub name: String,
    pub underFlag: ZoneFlag,
}

#[derive(Debug, Clone, Copy)]
pub struct Team {
    pub id: u8,
    pub isCustom: bool,
}

#[derive(Debug, Clone, Copy)]
pub struct Drs {
    pub isOpen: bool,
    pub isAllowed: bool,
}

#[derive(Debug, Clone, Copy)]
pub struct Assists {
    pub TC: TC,
    pub ABS: Assist,
}

#[derive(Debug, Clone, Copy)]
pub struct Tyres {
    pub actual: ActualCompound,
    pub visual: VisualCompound,
    pub age: u8,
}

#[derive(Debug, Clone, Copy)]
pub struct Telemetry {
    pub speed: Kph,
    pub gear: Gear,
    pub rpm: u16,
    pub leds: RevLights,
}

/// The times shown for a car, and the driver's personal bests.
#[derive(Debug, Clone, Copy)]
pub struct Times {
    pub sector1: Time,
    pub sector2: Time,
    pub sector3: Time,
    pub lastLap: Time,
    pub current: Time,
    pub interval: Time,
    pub leader: Time,
    pub personal: Best,
}

impl Times {
    pub open spec fn is_cleared(self) -> bool {
        &&& self.sector1.is_cleared()
        &&& self.sector2.is_cleared()
        &&& self.sector3.is_cleared()
        &&& self.lastLap.is_cleared()
        &&& self.current.is_cleared()
        &&& self.interval.is_cleared()
        &&& self.leader.is_cleared()
        &&& self.personal.is_cleared()
    }

    pub fn new() -> (r: Times)
        ensures
            r.is_cleared(),
            r.personal.wf(),
    {
        Times {
            sector1: Time::new(),
            sector2: Time::new(),
            sector3: Time::new(),
            lastLap: Time::new(),
            current: Time::new(),
            interval: Time::new(),
            leader: Time::new(),
            personal: Best::new(),
        }
    }

    /// Classifies `time` against the driver's personal bests.
    pub fn isBest(&mut self, period: Period, time: u32, idx: usize, lap: u8) -> (r: bool)
        requires
            old(self).personal.wf(),
        ensures
            r == old(self).personal.record(period).beaten_by(time),
            final(self).personal == old(self).personal.classified(period, time, idx as u8, lap),
            final(self).personal.wf(),
            *final(self) == (Times { personal: final(self).personal, ..*old(self) }),
    {
        self.personal.isBest(period, time, idx, lap)
    }
}

/// Everything shown for one car slot.
#[derive(Debug, Clone)]
pub struct CarRow {
    pub driver: Driver,
    pub team: Team,
    pub Drs: Drs,
    pub assist: Assists,
    pub tyres: Tyres,
    pub telemetry: Telemetry,
    pub time: Times,
    pub spotGrid: u8,
    pub spotRace: u8,
    pub lapNum: u8,
    pub pitCount: u8,
    pub carStatus: CarState,
    pub sector: u8,
}

impl CarRow {
    pub open spec fn wf(self) -> bool {
        self.time.personal.wf() && self.sector <= 2
    }

    /// The row as a new session starts it.
    pub open spec fn is_default(self) -> bool {
        &&& self.driver.id == 0 && self.driver.idNetwork == 0 && self.driver.number == 0
        &&& self.driver.nationality == 0 && !self.driver.isAI && !self.driver.isTelemetryEnabled
        &&& self.driver.name@.len() == 0 && self.driver.underFlag == ZoneFlag::Unknown
        &&& self.team.id == 0 && !self.team.isCustom
        &&& !self.Drs.isOpen && !self.Drs.isAllowed
        &&& self.assist.TC == TC::Poisoned && self.assist.ABS == Assist::Poisoned
        &&& self.tyres.actual == ActualCompound::Poisoned
        &&& self.tyres.visual == VisualCompound::Poisoned && self.tyres.age == 0
        &&& self.telemetry.speed.kph == 0 && self.telemetry.gear == Gear::Poisoned
        &&& self.telemetry.rpm == 0 && self.telemetry.leds.LEDs == 0
        &&& self.time.is_cleared()
        &&& self.spotGrid == 0 && self.spotRace == 0 && self.lapNum == 0 && self.pitCount == 0
        &&& self.carStatus == CarState::Poisoned && self.sector == 0
    }

    pub fn new() -> (r: CarRow)
        ensures
            r.is_default(),
            r.wf(),
    {
        CarRow {
            driver: Driver {
                id: 0,
                idNetwork: 0,
                number: 0,
                nationality: 0,
                isAI: false,
                isTelemetryEnabled: false,
                name: String::new(),
                underFlag: ZoneFlag::Unknown,
            },
            team: Team { id: 0, isCustom: false },
            Drs: Drs { isOpen: false, isAllowed: false },
            assist: Assists { TC: TC::Poisoned, ABS: Assist::Poisoned },
            tyres: Tyres {
                actual: ActualCompound::Poisoned,
                visual: VisualCompound::Poisoned,
                age: 0,
            },
            telemetry: Telemetry {
                speed: Kph { kph: 0 },
                gear: Gear::Poisoned,
                rpm: 0,
                leds: RevLights { LEDs: 0 },
            },
            time: Times::new(),
            spotGrid: 0,
            spotRace: 0,
            lapNum: 0,
            pitCount: 0,
            carStatus: CarState::Poisoned,
            sector: 0,
        }
    }

    /// Takes the driver and team of a participant record.
    pub fn take_participant(&mut self, p: &Participant)
        ensures
            final(self).driver.isAI == (p.aiControlled == 1),
            final(self).driver.id == p.driverId,
            final(self).driver.idNetwork == p.networkId,
            final(self).driver.number == p.raceNumber,
            final(self).driver.nationality == p.nationality,
            final(self).driver.name@ == name_text(p.name@),
            final(self).driver.isTelemetryEnabled == (p.yourTelemetry == 1),
            final(self).driver.underFlag == old(self).driver.underFlag,
            final(self).team.id == p.teamId,
            final(self).team.isCustom == (p.myTeam == 1),
            *final(self) == (CarRow { driver: final(self).driver, team: final(self).team, ..*old(self) }),
    {
        self.driver.isAI = p.aiControlled == 1;
        self.driver.id = p.driverId;
        self.driver.idNetwork = p.networkId;
        self.team.id = p.teamId;
        self.team.isCustom = p.myTeam == 1;
        self.driver.number = p.raceNumber;
        self.driver.nationality = p.nationality;
        self.driver.name = p.name_to_string();
        self.driver.isTelemetryEnabled = p.yourTelemetry == 1;
    }

    /// Takes DRS, speed, gear, revs and rev lights of a telemetry record.
    pub fn take_telemetry(&mut self, t: &CarTelemetry)
        ensures
            final(self).Drs.isOpen == (t.drs == 1),
            final(self).Drs.isAllowed == old(self).Drs.isAllowed,
            final(self).telemetry.speed == t.speed,
            final(self).telemetry.gear == t.gear,
            final(self).telemetry.rpm == t.engineRPM,
            final(self).telemetry.leds == t.revLightsBitValue,
            *final(self) == (CarRow { Drs: final(self).Drs, telemetry: final(self).telemetry, ..*old(self) }),
    {
        self.Drs.isOpen = t.drs == 1;
        self.telemetry.speed = Kph { kph: t.speed.kph };
        self.telemetry.gear = t.gear;
        self.telemetry.rpm = t.engineRPM;
        self.telemetry.leds = RevLights { LEDs: t.revLightsBitValue.LEDs };
    }

    /// Takes DRS permission, assists, tyres and flag of a status record.
    pub fn take_status(&mut self, s: &CarStatus)
        ensures
            final(self).Drs.isAllowed == (s.drsAllowed == 1),
            final(self).Drs.isOpen == old(self).Drs.isOpen,
            final(self).assist.TC == s.tractionControl,
            final(self).assist.ABS == s.antiLockBrakes,
            final(self).tyres.actual == s.actualTyre,
            final(self).tyres.visual == s.visualTyre,
            final(self).tyres.age == s.tyresAgeLaps,
            final(self).driver.underFlag == s.vehicleFiaFlags,
            final(self).driver == (Driver { underFlag: s.vehicleFiaFlags, ..old(self).driver }),
            *final(self) == (CarRow {
                Drs: final(self).Drs,
                assist: final(self).assist,
                tyres: final(self).tyres,
                driver: final(self).driver,
                ..*old(self)
            }),
    {
        self.Drs.isAllowed = s.drsAllowed == 1;
        self.assist.TC = s.tractionControl;
        self.assist.ABS = s.antiLockBrakes;
        self.tyres.actual = s.actualTyre;
        self.tyres.visual = s.visualTyre;
        self.tyres.age = s.tyresAgeLaps;
        self.driver.underFlag = s.vehicleFiaFlags;
    }

    /// The lap that a just-completed lap is credited to.
    pub open spec fn completed_lap(self) -> u8 {
        if self.lapNum > 0 {
            (self.lapNum - 1) as u8
        } else {
            0
        }
    }

    /// A new lap began: sector 3 of the lap just completed is derived from
    /// the lap time and classified, then the lap time itself.
    fn close_lap(&mut self, ob: &mut Best, idx: usize, last_lap: u32)
        requires
            old(self).wf(),
            old(ob).wf(),
        ensures
            final(self).wf(),
            final(ob).wf(),
            final(ob).no_worse_than(*old(ob)),
            ({
                let s3 = sector3_of(last_lap, old(self).time.sector1.inMS, old(self).time.sector2.inMS);
                let lap = old(self).completed_lap();
                &&& final(self).time.sector3.inMS == s3
                &&& final(self).time.lastLap.inMS == last_lap
                &&& *final(ob) == old(ob).classified(Period::Sector3, s3, idx as u8, lap).classified(
                    Period::LapTime,
                    last_lap,
                    idx as u8,
                    lap,
                )
                &&& final(self).time.personal == old(self).time.personal.classified(
                    Period::Sector3,
                    s3,
                    idx as u8,
                    lap,
                ).classified(Period::LapTime, last_lap, idx as u8, lap)
                &&& final(self).time.sector3.isOB == old(ob).sector3.beaten_by(s3)
                &&& final(self).time.sector3.isPB == old(self).time.personal.sector3.beaten_by(s3)
                &&& final(self).time.lastLap.isOB == old(ob).classified(
                    Period::Sector3,
                    s3,
                    idx as u8,
                    lap,
                ).lapTime.beaten_by(last_lap)
            }),
            final(self).time.interval == old(self).time.interval,
            final(self).time.leader == old(self).time.leader,
            *final(self) == (CarRow { time: final(self).time, ..*old(self) }),
    {
        let lap = if self.lapNum > 0 {
            self.lapNum - 1
        } else {
            0
        };
        self.time.sector1.isOB = false;
        self.time.sector1.isPB = false;
        let s3 = sector3_split(last_lap, self.time.sector1.inMS, self.time.sector2.inMS);
        self.time.sector3.inMS = s3;
        let ob3 = ob.isBest(Period::Sector3, s3, idx, lap);
        let pb3 = self.time.isBest(Period::Sector3, s3, idx, lap);
        self.time.sector3.isOB = ob3;
        self.time.sector3.isPB = pb3;
        self.time.sector3.isSet = s3 != 0;
        self.time.lastLap.inMS = last_lap;
        let obl = ob.isBest(Period::LapTime, last_lap, idx, lap);
        let pbl = self.time.isBest(Period::LapTime, last_lap, idx, lap);
        self.time.lastLap.isOB = obl;
        self.time.lastLap.isPB = pbl;
        self.time.lastLap.isSet = last_lap != 0;
    }

    /// Sector 1 closed with the canonical split `s1`, which is classified.
    fn close_sector1(&mut self, ob: &mut Best, idx: usize, s1: u32)
        requires
            old(self).wf(),
            old(ob).wf(),
        ensures
            final(self).wf(),
            final(ob).wf(),
            final(ob).no_worse_than(*old(ob)),
            final(self).time.sector1.inMS == s1,
            *final(ob) == old(ob).classified(Period::Sector1, s1, idx as u8, old(self).lapNum),
            final(self).time.personal == old(self).time.personal.classified(
                Period::Sector1,
                s1,
                idx as u8,
                old(self).lapNum,
            ),
            final(self).time.sector1.isOB == old(ob).sector1.beaten_by(s1),
            final(self).time.sector1.isPB == old(self).time.personal.sector1.beaten_by(s1),
            final(self).time.sector2 == (Time { isOB: false, isPB: false, ..old(self).time.sector2 }),
            final(self).time.interval == old(self).time.interval,
            final(self).time.leader == old(self).time.leader,
            *final(self) == (CarRow { time: final(self).time, ..*old(self) }),
    {
        self.time.sector2.isOB = false;
        self.time.sector2.isPB = false;
        self.time.sector1.inMS = s1;
        let ob1 = ob.isBest(Period::Sector1, s1, idx, self.lapNum);
        let pb1 = self.time.isBest(Period::Sector1, s1, idx, self.lapNum);
        self.time.sector1.isOB = ob1;
        self.time.sector1.isPB = pb1;
        self.time.sector1.isSet = s1 != 0;
    }

    /// Sector 2 closed with the canonical split `s2`, which is classified.
    fn close_sector2(&mut self, ob: &mut Best, idx: usize, s2: u32)
        requires
            old(self).wf(),
            old(ob).wf(),
        ensures
            final(self).wf(),
            final(ob).wf(),
            final(ob).no_worse_than(*old(ob)),
            final(self).time.sector2.inMS == s2,
            final(self).time.sector1 == old(self).time.sector1,
            *final(ob) == old(ob).classified(Period::Sector2, s2, idx as u8, old(self).lapNum),
            final(self).time.personal == old(self).time.personal.classified(
                Period::Sector2,
                s2,
                idx as u8,
                old(self).lapNum,
            ),
            final(self).time.sector2.isOB == old(ob).sector2.beaten_by(s2),
            final(self).time.sector2.isPB == old(self).time.personal.sector2.beaten_by(s2),
            final(self).time.interval == old(self).time.interval,
            final(self).time.leader == old(self).time.leader,
            *final(self) == (CarRow { time: final(self).time, ..*old(self) }),
    {
        self.time.sector3.isOB = false;
        self.time.sector3.isPB = false;
        self.time.sector2.inMS = s2;
        let ob2 = ob.isBest(Period::Sector2, s2, idx, self.lapNum);
        let pb2 = self.time.isBest(Period::Sector2, s2, idx, self.lapNum);
        self.time.sector2.isOB = ob2;
        self.time.sector2.isPB = pb2;
        self.time.sector2.isSet = s2 != 0;
    }

    /// The bests (overall or this driver's) after this row folds the lap
    /// record `car` of slot `idx` into `ob`: the split that a sector
    /// transition closes is classified, and nothing else.
    pub open spec fn bests_after(self, ob: Best, idx: usize, car: Car) -> Best {
        let id = idx as u8;
        if car.sector == 0 && self.sector != 0 {
            let s3 = sector3_of(car.lastLapTimeInMS, self.time.sector1.inMS, self.time.sector2.inMS);
            let lap = self.completed_lap();
            ob.classified(Period::Sector3, s3, id, lap).classified(
                Period::LapTime,
                car.lastLapTimeInMS,
                id,
                lap,
            )
        } else if car.sector == 1 && self.sector != 1 {
            ob.classified(
                Period::Sector1,
                split_ms(car.sector1TimeMinutesPart, car.sector1TimeMSPart) as u32,
                id,
                self.lapNum,
            )
        } else if car.sector == 2 && self.sector != 2 {
            ob.classified(
                Period::Sector2,
                split_ms(car.sector2TimeMinutesPart, car.sector2TimeMSPart) as u32,
                id,
                self.lapNum,
            )
        } else {
            ob
        }
    }

    /// This row, with the overall bests `ob`, is what folding the lap record
    /// `car` of slot `idx` makes of the row `before` and the overall bests
    /// `ob_before`: the deltas and race state are taken, a sector transition
    /// latches the canonical split (or, on a new lap, the derived sector 3
    /// and the lap time) and classifies it into the overall and personal
    /// bests, and the running sector is estimated from the lap clock.
    pub open spec fn timing_folded(
        self,
        before: CarRow,
        ob: Best,
        ob_before: Best,
        idx: usize,
        car: Car,
    ) -> bool {
        let id = idx as u8;
        let s1 = split_ms(car.sector1TimeMinutesPart, car.sector1TimeMSPart) as u32;
        let s2 = split_ms(car.sector2TimeMinutesPart, car.sector2TimeMSPart) as u32;
        let s3 = sector3_of(car.lastLapTimeInMS, before.time.sector1.inMS, before.time.sector2.inMS);
        let lap = before.completed_lap();
        let now = car.currentLapTimeInMS;
        &&& ob.no_worse_than(ob_before)
        &&& self.time.personal.no_worse_than(before.time.personal)
        &&& self.time.interval.inMS == split_ms(car.deltaToCarInFrontMinutesPart, car.deltaToCarInFrontMSPart)
        &&& self.time.leader.inMS == split_ms(car.deltaToRaceLeaderMinutesPart, car.deltaToRaceLeaderMSPart)
        &&& self.time.current.inMS == now
        &&& self.time.lastLap.inMS == car.lastLapTimeInMS
        &&& self.spotGrid == car.gridPosition
        &&& self.spotRace == car.racePosition
        &&& self.lapNum == car.currentLapNum
        &&& self.pitCount == car.numPitStops
        &&& self.carStatus == car.driverStatus
        &&& self.sector == if car.sector <= 2 { car.sector } else { before.sector }
        &&& self == (CarRow {
            time: self.time,
            spotGrid: self.spotGrid,
            spotRace: self.spotRace,
            lapNum: self.lapNum,
            pitCount: self.pitCount,
            carStatus: self.carStatus,
            sector: self.sector,
            ..before
        })
        // A new lap: sector 3 is derived and classified, then the lap time.
        &&& car.sector == 0 && before.sector != 0 ==> {
            &&& self.time.sector3.inMS == s3
            &&& ob == ob_before.classified(Period::Sector3, s3, id, lap).classified(
                Period::LapTime,
                car.lastLapTimeInMS,
                id,
                lap,
            )
            &&& self.time.personal == before.time.personal.classified(Period::Sector3, s3, id, lap).classified(
                Period::LapTime,
                car.lastLapTimeInMS,
                id,
                lap,
            )
            &&& self.time.sector3.isOB == ob_before.sector3.beaten_by(s3)
            &&& self.time.sector3.isPB == before.time.personal.sector3.beaten_by(s3)
            &&& self.time.lastLap.isOB == ob_before.classified(Period::Sector3, s3, id, lap).lapTime.beaten_by(
                car.lastLapTimeInMS,
            )
        }
        // In sector 1 the running time is the sector-1 estimate.
        &&& car.sector == 0 ==> self.time.sector1.inMS == now
        // Sector 1 closed: its canonical split is classified.
        &&& car.sector == 1 && before.sector != 1 ==> {
            &&& self.time.sector1.inMS == s1
            &&& ob == ob_before.classified(Period::Sector1, s1, id, before.lapNum)
            &&& self.time.personal == before.time.personal.classified(Period::Sector1, s1, id, before.lapNum)
            &&& self.time.sector1.isOB == ob_before.sector1.beaten_by(s1)
            &&& self.time.sector1.isPB == before.time.personal.sector1.beaten_by(s1)
        }
        // In sector 2 the sector-2 estimate is the time since sector 1 closed.
        &&& car.sector == 1 && self.time.sector1.inMS < now ==> self.time.sector2.inMS == now
            - self.time.sector1.inMS
        // Sector 2 closed: its canonical split is classified.
        &&& car.sector == 2 && before.sector != 2 ==> {
            &&& self.time.sector2.inMS == s2
            &&& ob == ob_before.classified(Period::Sector2, s2, id, before.lapNum)
            &&& self.time.personal == before.time.personal.classified(Period::Sector2, s2, id, before.lapNum)
            &&& self.time.sector2.isOB == ob_before.sector2.beaten_by(s2)
            &&& self.time.sector2.isPB == before.time.personal.sector2.beaten_by(s2)
        }
        // In sector 3 the sector-3 estimate is the time since sector 2 closed.
        &&& car.sector == 2 && self.time.sector1.inMS + self.time.sector2.inMS < now
            ==> self.time.sector3.inMS == now - (self.time.sector1.inMS + self.time.sector2.inMS)
        // No transition: nothing is classified.
        &&& car.sector > 2 || car.sector == before.sector ==> ob == ob_before
            && self.time.personal == before.time.personal
    }

    /// Folds the timing of one lap record into this row and into the overall
    /// bests `ob`: interval and leader deltas, sector transitions with their
    /// canonical splits and classifications, live sector estimates, and the
    /// race state.
    #[verifier::rlimit(100)]
    pub fn fold_timing(&mut self, ob: &mut Best, idx: usize, car: &Car)
        requires
            old(self).wf(),
            old(ob).wf(),
        ensures
            final(self).wf(),
            final(ob).wf(),
            final(ob).no_worse_than(*old(ob)),
            final(self).timing_folded(*old(self), *final(ob), *old(ob), idx, *car),
            *final(ob) == old(self).bests_after(*old(ob), idx, *car),
            final(self).time.personal == old(self).bests_after(old(self).time.personal, idx, *car),
    {
        self.time.interval.inMS = split_to_ms(
            car.deltaToCarInFrontMinutesPart,
            car.deltaToCarInFrontMSPart,
        );
        self.time.leader.inMS = split_to_ms(
            car.deltaToRaceLeaderMinutesPart,
            car.deltaToRaceLeaderMSPart,
        );
        if car.sector == 0 {
            if car.sector != self.sector {
                self.time.lastLap.isOB = false;
                self.time.lastLap.isPB = false;
                self.close_lap(ob, idx, car.lastLapTimeInMS);
            }
            self.time.sector1.inMS = car.currentLapTimeInMS;
        } else if car.sector == 1 {
            if car.sector != self.sector {
                let s1 = split_to_ms(car.sector1TimeMinutesPart, car.sector1TimeMSPart);
                self.close_sector1(ob, idx, s1);
            }
            if self.time.sector1.inMS < car.currentLapTimeInMS {
                self.time.sector2.inMS = car.currentLapTimeInMS - self.time.sector1.inMS;
            }
        } else if car.sector == 2 {
            if car.sector != self.sector {
                let s2 = split_to_ms(car.sector2TimeMinutesPart, car.sector2TimeMSPart);
                self.close_sector2(ob, idx, s2);
            }
            let done = self.time.sector1.inMS as u64 + self.time.sector2.inMS as u64;
            if done < car.currentLapTimeInMS as u64 {
                self.time.sector3.inMS = (car.currentLapTimeInMS as u64 - done) as u32;
            }
        }
        self.time.current.inMS = car.currentLapTimeInMS;
        self.time.lastLap.inMS = car.lastLapTimeInMS;
        self.spotGrid = car.gridPosition;
        self.spotRace = car.racePosition;
        self.lapNum = car.currentLapNum;
        self.pitCount = car.numPitStops;
        self.carStatus = car.driverStatus;
        if car.sector <= 2 {
            self.sector = car.sector;
        }
    }
}

} // verus!
