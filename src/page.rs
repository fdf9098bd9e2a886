//! The session aggregate that every decoded packet is folded into.
use vstd::prelude::*;
use crate::bests::Best;
use crate::codes::Session;
use crate::dispatch::Packet;
use crate::event::EventType;
use crate::packet::{Car, PacketCarStatus, PacketCarTelemetry, PacketLap, PacketParticipants, PacketSession};
use crate::session::{behind_start_line, CarRow, Driver, MAX_CARS, POSITION_SLOTS};
use crate::text::name_text;
use crate::wire::f32_bits_negative;

verus! {

#[derive(Debug, Clone, Copy)]
pub struct SessionLap {
    pub leader: u8,
    pub total: u8,
}

/// The session: active-car count, the player's slot (the bound of the
/// participant slots), the positions table (a slot index for each race
/// position; position 0 unused), the session kind, the overall bests, the
/// car rows and the laps.
#[derive(Debug, Clone)]
pub struct Page {
    pub participants: u8,
    pub playerCarIndex: u8,
    pub positions: Vec<Option<usize>>,
    pub session: Session,
    pub ob: Best,
    pub car: Vec<CarRow>,
    pub lap: SessionLap,
}

/// Some slot of the lap packet claims race position `p`.
pub open spec fn claimed(cars: Seq<Car>, p: int) -> bool {
    exists|i: int| 0 <= i < cars.len() && i < MAX_CARS && #[trigger] cars[i].racePosition == p
}

/// The positions entry `entry` names a slot below `bound` whose lap record
/// claims race position `p`.
pub open spec fn names_claimant(entry: Option<usize>, cars: Seq<Car>, bound: int, p: int) -> bool {
    entry matches Some(k) && k < bound && k < cars.len() && cars[k as int].racePosition == p
}

/// The slots that per-car packets update: the player's slot and those
/// before it, within the records the packet holds.
pub open spec fn slots_in_use(player: u8, len: int) -> int {
    let n = if player + 1 < MAX_CARS { player + 1 } else { MAX_CARS as int };
    if n < len {
        n
    } else {
        len
    }
}

/// How many slots of a lap packet with `len` records are folded.
pub open spec fn slots_of(len: int) -> int {
    if len < MAX_CARS {
        len
    } else {
        MAX_CARS as int
    }
}

/// The lap record gives its car a timing fold: it has a race position and
/// is past the start line.
pub open spec fn times_folded_at(car: Car) -> bool {
    1 <= car.racePosition < POSITION_SLOTS && !f32_bits_negative(car.lapDistance)
}

/// The overall bests after the lap record `car` of slot `idx`, whose row
/// was `row`, is folded into `ob`.
pub open spec fn slot_bests(ob: Best, row: CarRow, idx: usize, car: Car) -> Best {
    if times_folded_at(car) {
        row.bests_after(ob, idx, car)
    } else {
        ob
    }
}

/// The overall bests after the first `k` slots of a lap packet are folded,
/// in slot order, into `ob`; `rows` are the rows before the packet.
pub open spec fn bests_through(ob: Best, rows: Seq<CarRow>, cars: Seq<Car>, k: int) -> Best
    decreases k,
{
    if k <= 0 {
        ob
    } else {
        slot_bests(bests_through(ob, rows, cars, k - 1), rows[k - 1], (k - 1) as usize, cars[k - 1])
    }
}

/// The leader's lap after the first `k` slots: the largest current lap of
/// the cars folded so far, and `leader` itself.
pub open spec fn leader_through(leader: u8, cars: Seq<Car>, k: int) -> u8
    decreases k,
{
    if k <= 0 {
        leader
    } else {
        let prev = leader_through(leader, cars, k - 1);
        if times_folded_at(cars[k - 1]) && cars[k - 1].currentLapNum > prev {
            cars[k - 1].currentLapNum
        } else {
            prev
        }
    }
}

/// The row `row`, with the overall bests going from `ob_before` to `ob`, is
/// what the lap record `car` of slot `idx` makes of the row `before`: a
/// record without a race position changes nothing; a car behind the start
/// line gets its race state and no timing; any other car gets the full
/// timing fold.
pub open spec fn row_folded(
    row: CarRow,
    before: CarRow,
    ob: Best,
    ob_before: Best,
    idx: usize,
    car: Car,
) -> bool {
    if !(1 <= car.racePosition < POSITION_SLOTS) {
        row == before && ob == ob_before
    } else if f32_bits_negative(car.lapDistance) {
        &&& row == (CarRow {
            spotGrid: car.gridPosition,
            spotRace: car.racePosition,
            lapNum: car.currentLapNum,
            pitCount: car.numPitStops,
            carStatus: car.driverStatus,
            ..before
        })
        &&& ob == ob_before
    } else {
        row.timing_folded(before, ob, ob_before, idx, car)
    }
}

impl Page {
    pub open spec fn wf(self) -> bool {
        &&& self.positions@.len() == POSITION_SLOTS
        &&& self.car@.len() == POSITION_SLOTS
        &&& self.ob.wf()
        &&& forall|i: int| 0 <= i < POSITION_SLOTS ==> (#[trigger] self.car@[i]).wf()
    }

    /// The state at the start of a session: every bests record cleared,
    /// every row at its defaults, the positions table empty.
    pub open spec fn is_fresh(self) -> bool {
        &&& self.wf()
        &&& self.ob.is_cleared()
        &&& forall|i: int| 0 <= i < POSITION_SLOTS ==> (#[trigger] self.car@[i]).is_default()
        &&& forall|p: int| 0 <= p < POSITION_SLOTS ==> (#[trigger] self.positions@[p]) is None
        &&& self.participants == 0
        &&& self.playerCarIndex == 0
        &&& self.session == Session::Poisoned
        &&& self.lap.leader == 0
        &&& self.lap.total == 0
    }

    /// This page is what folding the lap records `cars` makes of `before`.
    pub open spec fn lap_folded(self, before: Page, cars: Seq<Car>) -> bool {
        let n = slots_of(cars.len() as int);
        &&& self.ob == bests_through(before.ob, before.car@, cars, n)
        &&& self.ob.no_worse_than(before.ob)
        &&& self.personal_no_worse_than(before)
        &&& forall|j: int|
            0 <= j < n ==> row_folded(
                #[trigger] self.car@[j],
                before.car@[j],
                bests_through(before.ob, before.car@, cars, j + 1),
                bests_through(before.ob, before.car@, cars, j),
                j as usize,
                cars[j],
            )
        &&& forall|j: int| n <= j < POSITION_SLOTS ==> #[trigger] self.car@[j] == before.car@[j]
        &&& self.lap.leader == leader_through(before.lap.leader, cars, n)
        &&& self.positions@[0] == before.positions@[0]
        &&& forall|p: int|
            1 <= p < POSITION_SLOTS ==> {
                &&& claimed(cars, p) ==> names_claimant(
                    #[trigger] self.positions@[p],
                    cars,
                    MAX_CARS as int,
                    p,
                )
                &&& !claimed(cars, p) ==> self.positions@[p] == before.positions@[p]
            }
        &&& self.participants == before.participants
        &&& self.playerCarIndex == before.playerCarIndex
        &&& self.session == before.session
        &&& self.lap.total == before.lap.total
    }

    /// This page is what folding the session packet `s` makes of `before`.
    pub open spec fn session_folded(self, before: Page, s: PacketSession) -> bool {
        self == (Page {
            playerCarIndex: s.header.playerCarIndex,
            lap: SessionLap { total: s.totalLaps, ..before.lap },
            session: s.sessionType,
            ..before
        })
    }

    /// This page is what folding the participants packet `p` makes of `before`.
    pub open spec fn participants_folded(self, before: Page, p: PacketParticipants) -> bool {
        &&& self.participants == p.numActiveCars
        &&& self.ob == before.ob
        &&& self.positions == before.positions
        &&& self.playerCarIndex == before.playerCarIndex
        &&& self.session == before.session
        &&& self.lap == before.lap
        &&& forall|i: int|
            0 <= i < POSITION_SLOTS ==> {
                let row = #[trigger] self.car@[i];
                let prev = before.car@[i];
                if i < slots_in_use(before.playerCarIndex, p.participants@.len() as int) {
                    let q = p.participants@[i];
                    &&& row.driver.id == q.driverId
                    &&& row.driver.idNetwork == q.networkId
                    &&& row.driver.number == q.raceNumber
                    &&& row.driver.nationality == q.nationality
                    &&& row.driver.isAI == (q.aiControlled == 1)
                    &&& row.driver.isTelemetryEnabled == (q.yourTelemetry == 1)
                    &&& row.driver.name@ == name_text(q.name@)
                    &&& row.team.id == q.teamId
                    &&& row.team.isCustom == (q.myTeam == 1)
                    &&& row == (CarRow { driver: row.driver, team: row.team, ..prev })
                    &&& row.driver.underFlag == prev.driver.underFlag
                } else {
                    row == prev
                }
            }
    }

    /// This page is what folding the telemetry packet `t` makes of `before`.
    pub open spec fn telemetry_folded(self, before: Page, t: PacketCarTelemetry) -> bool {
        &&& self.ob == before.ob
        &&& self.positions == before.positions
        &&& self.participants == before.participants
        &&& self.playerCarIndex == before.playerCarIndex
        &&& self.session == before.session
        &&& self.lap == before.lap
        &&& forall|i: int|
            0 <= i < POSITION_SLOTS ==> {
                let row = #[trigger] self.car@[i];
                let prev = before.car@[i];
                if i < slots_in_use(before.playerCarIndex, t.carTelemetry@.len() as int) {
                    let c = t.carTelemetry@[i];
                    &&& row.Drs.isOpen == (c.drs == 1)
                    &&& row.telemetry.speed == c.speed
                    &&& row.telemetry.gear == c.gear
                    &&& row.telemetry.rpm == c.engineRPM
                    &&& row.telemetry.leds == c.revLightsBitValue
                    &&& row == (CarRow { Drs: row.Drs, telemetry: row.telemetry, ..prev })
                    &&& row.Drs.isAllowed == prev.Drs.isAllowed
                } else {
                    row == prev
                }
            }
    }

    /// This page is what folding the status packet `s` makes of `before`.
    pub open spec fn status_folded(self, before: Page, s: PacketCarStatus) -> bool {
        &&& self.ob == before.ob
        &&& self.positions == before.positions
        &&& self.participants == before.participants
        &&& self.playerCarIndex == before.playerCarIndex
        &&& self.session == before.session
        &&& self.lap == before.lap
        &&& forall|i: int|
            0 <= i < POSITION_SLOTS ==> {
                let row = #[trigger] self.car@[i];
                let prev = before.car@[i];
                if i < slots_in_use(before.playerCarIndex, s.carStatus@.len() as int) {
                    let c = s.carStatus@[i];
                    &&& row.Drs.isAllowed == (c.drsAllowed == 1)
                    &&& row.assist.TC == c.tractionControl
                    &&& row.assist.ABS == c.antiLockBrakes
                    &&& row.tyres.actual == c.actualTyre
                    &&& row.tyres.visual == c.visualTyre
                    &&& row.tyres.age == c.tyresAgeLaps
                    &&& row.driver.underFlag == c.vehicleFiaFlags
                    &&& row == (CarRow { Drs: row.Drs, assist: row.assist, tyres: row.tyres, driver: row.driver, ..prev })
                    &&& row.Drs.isOpen == prev.Drs.isOpen
                    &&& row.driver == (Driver { underFlag: c.vehicleFiaFlags, ..prev.driver })
                } else {
                    row == prev
                }
            }
    }

    /// The row of every slot has no worse personal bests than in `prev`.
    pub open spec fn personal_no_worse_than(self, prev: Page) -> bool {
        forall|i: int|
            0 <= i < POSITION_SLOTS ==> (#[trigger] self.car@[i]).time.personal.no_worse_than(
                prev.car@[i].time.personal,
            )
    }

    pub fn new() -> (r: Page)
        ensures
            r.is_fresh(),
    {
        let mut positions: Vec<Option<usize>> = Vec::new();
        let mut car: Vec<CarRow> = Vec::new();
        let mut i: usize = 0;
        while i < POSITION_SLOTS
            invariant
                i <= POSITION_SLOTS,
                positions@.len() == i,
                car@.len() == i,
                forall|j: int| 0 <= j < i ==> (#[trigger] positions@[j]) is None,
                forall|j: int| 0 <= j < i ==> (#[trigger] car@[j]).is_default() && car@[j].wf(),
            decreases POSITION_SLOTS - i,
        {
            positions.push(None);
            car.push(CarRow::new());
            i += 1;
        }
        Page {
            participants: 0,
            playerCarIndex: 0,
            positions,
            session: Session::Poisoned,
            ob: Best::new(),
            car,
            lap: SessionLap { leader: 0, total: 0 },
        }
    }

    /// Folds one lap record, of slot `idx`, into the session.
    fn fold_slot(&mut self, idx: usize, car: &Car)
        requires
            old(self).wf(),
            idx < MAX_CARS,
        ensures
            final(self).wf(),
            final(self).ob.no_worse_than(old(self).ob),
            final(self).personal_no_worse_than(*old(self)),
            final(self).ob == slot_bests(old(self).ob, old(self).car@[idx as int], idx, *car),
            row_folded(
                final(self).car@[idx as int],
                old(self).car@[idx as int],
                final(self).ob,
                old(self).ob,
                idx,
                *car,
            ),
            forall|j: int|
                0 <= j < POSITION_SLOTS && j != idx ==> final(self).car@[j] == old(self).car@[j],
            final(self).positions@ == if 1 <= car.racePosition < POSITION_SLOTS {
                old(self).positions@.update(car.racePosition as int, Some(idx))
            } else {
                old(self).positions@
            },
            final(self).lap.leader == if times_folded_at(*car) && car.currentLapNum > old(
                self,
            ).lap.leader {
                car.currentLapNum
            } else {
                old(self).lap.leader
            },
            final(self).participants == old(self).participants,
            final(self).playerCarIndex == old(self).playerCarIndex,
            final(self).session == old(self).session,
            final(self).lap.total == old(self).lap.total,
    {
        let pos = car.racePosition as usize;
        if pos == 0 || pos >= POSITION_SLOTS {
            return ;
        }
        self.positions.set(pos, Some(idx));
        let mut row = self.car.remove(idx);
        if behind_start_line(car) {
            row.spotGrid = car.gridPosition;
            row.spotRace = car.racePosition;
            row.lapNum = car.currentLapNum;
            row.pitCount = car.numPitStops;
            row.carStatus = car.driverStatus;
        } else {
            if car.currentLapNum > self.lap.leader {
                self.lap.leader = car.currentLapNum;
            }
            row.fold_timing(&mut self.ob, idx, car);
        }
        self.car.insert(idx, row);
        assert(forall|j: int|
            0 <= j < POSITION_SLOTS && j != idx ==> self.car@[j] == old(self).car@[j]);
    }

    /// Folds a lap packet, slot by slot in order: the positions table, the
    /// leader's lap, the race state of every car with a race position, and
    /// the timing of those past the start line, whose classifications thread
    /// the overall bests from slot to slot.
    pub fn apply_lap(&mut self, l: &PacketLap)
        requires
            old(self).wf(),
        ensures
            final(self).wf(),
            final(self).lap_folded(*old(self), l.cars@),
    {
        let n = if l.cars.len() < MAX_CARS {
            l.cars.len()
        } else {
            MAX_CARS
        };
        let ghost rows = old(self).car@;
        let ghost cars = l.cars@;
        let mut i: usize = 0;
        while i < n
            invariant
                n == slots_of(cars.len() as int),
                n <= cars.len(),
                cars == l.cars@,
                rows == old(self).car@,
                i <= n,
                self.wf(),
                self.ob.no_worse_than(old(self).ob),
                self.personal_no_worse_than(*old(self)),
                self.ob == bests_through(old(self).ob, rows, cars, i as int),
                self.lap.leader == leader_through(old(self).lap.leader, cars, i as int),
                forall|j: int|
                    0 <= j < i ==> row_folded(
                        #[trigger] self.car@[j],
                        rows[j],
                        bests_through(old(self).ob, rows, cars, j + 1),
                        bests_through(old(self).ob, rows, cars, j),
                        j as usize,
                        cars[j],
                    ),
                forall|j: int| i <= j < POSITION_SLOTS ==> #[trigger] self.car@[j] == rows[j],
                self.positions@[0] == old(self).positions@[0],
                forall|p: int|
                    1 <= p < POSITION_SLOTS ==> {
                        &&& (exists|k: int| 0 <= k < i && #[trigger] cars[k].racePosition == p)
                            ==> names_claimant(#[trigger] self.positions@[p], cars, i as int, p)
                        &&& !(exists|k: int| 0 <= k < i && #[trigger] cars[k].racePosition == p)
                            ==> self.positions@[p] == old(self).positions@[p]
                    },
                self.participants == old(self).participants,
                self.playerCarIndex == old(self).playerCarIndex,
                self.session == old(self).session,
                self.lap.total == old(self).lap.total,
            decreases n - i,
        {
            let ghost before = *self;
            self.fold_slot(i, &l.cars[i]);
            proof {
                assert(before.car@[i as int] == rows[i as int]);
                assert(bests_through(old(self).ob, rows, cars, i + 1) == slot_bests(
                    bests_through(old(self).ob, rows, cars, i as int),
                    rows[i as int],
                    i,
                    cars[i as int],
                ));
                assert forall|p: int| 1 <= p < POSITION_SLOTS implies {
                    &&& (exists|k: int| 0 <= k < i + 1 && #[trigger] cars[k].racePosition == p)
                        ==> names_claimant(#[trigger] self.positions@[p], cars, i + 1, p)
                    &&& !(exists|k: int| 0 <= k < i + 1 && #[trigger] cars[k].racePosition == p)
                        ==> self.positions@[p] == old(self).positions@[p]
                } by {
                    if cars[i as int].racePosition == p {
                    } else {
                        if exists|k: int| 0 <= k < i + 1 && #[trigger] cars[k].racePosition == p {
                            let k = choose|k: int|
                                0 <= k < i + 1 && #[trigger] cars[k].racePosition == p;
                            assert(k < i);
                        }
                    }
                }
                assert forall|j: int| 0 <= j < POSITION_SLOTS implies (
                #[trigger] self.car@[j]).time.personal.no_worse_than(
                    old(self).car@[j].time.personal,
                ) by {
                    assert(before.car@[j].time.personal.no_worse_than(
                        old(self).car@[j].time.personal,
                    ));
                }
            }
            i += 1;
        }
    }

    fn slot_count(&self, len: usize) -> (r: usize)
        ensures
            r == slots_in_use(self.playerCarIndex, len as int),
    {
        let n: usize = if (self.playerCarIndex as usize) + 1 < MAX_CARS {
            self.playerCarIndex as usize + 1
        } else {
            MAX_CARS
        };
        if n < len {
            n
        } else {
            len
        }
    }

    /// Folds a session packet: the player's slot, the total laps, the kind.
    pub fn apply_session(&mut self, s: &PacketSession)
        ensures
            final(self).session_folded(*old(self), *s),
    {
        self.playerCarIndex = s.header.playerCarIndex;
        self.lap.total = s.totalLaps;
        self.session = s.sessionType;
    }

    /// Folds a participants packet into the rows of the slots in use.
    pub fn apply_participants(&mut self, p: &PacketParticipants)
        requires
            old(self).wf(),
        ensures
            final(self).wf(),
            final(self).participants_folded(*old(self), *p),
    {
        self.participants = p.numActiveCars;
        let n = self.slot_count(p.participants.len());
        let mut i: usize = 0;
        while i < n
            invariant
                n == slots_in_use(old(self).playerCarIndex, p.participants@.len() as int),
                n <= p.participants@.len(),
                n <= MAX_CARS,
                i <= n,
                self.wf(),
                self.participants == p.numActiveCars,
                self.ob == old(self).ob,
                self.positions == old(self).positions,
                self.playerCarIndex == old(self).playerCarIndex,
                self.session == old(self).session,
                self.lap == old(self).lap,
                forall|j: int|
                    0 <= j < POSITION_SLOTS ==> {
                        let row = #[trigger] self.car@[j];
                        let prev = old(self).car@[j];
                        if j < i {
                            let q = p.participants@[j];
                            &&& row.driver.id == q.driverId
                            &&& row.driver.idNetwork == q.networkId
                            &&& row.driver.number == q.raceNumber
                            &&& row.driver.nationality == q.nationality
                            &&& row.driver.isAI == (q.aiControlled == 1)
                            &&& row.driver.isTelemetryEnabled == (q.yourTelemetry == 1)
                            &&& row.driver.name@ == name_text(q.name@)
                            &&& row.team.id == q.teamId
                            &&& row.team.isCustom == (q.myTeam == 1)
                            &&& row == (CarRow { driver: row.driver, team: row.team, ..prev })
                            &&& row.driver.underFlag == prev.driver.underFlag
                        } else {
                            row == prev
                        }
                    },
            decreases n - i,
        {
            let mut row = self.car.remove(i);
            row.take_participant(&p.participants[i]);
            self.car.insert(i, row);
            i += 1;
        }
    }

    /// Folds a telemetry packet into the rows of the slots in use.
    pub fn apply_telemetry(&mut self, t: &PacketCarTelemetry)
        requires
            old(self).wf(),
        ensures
            final(self).wf(),
            final(self).telemetry_folded(*old(self), *t),
    {
        let n = self.slot_count(t.carTelemetry.len());
        let mut i: usize = 0;
        while i < n
            invariant
                n == slots_in_use(old(self).playerCarIndex, t.carTelemetry@.len() as int),
                n <= t.carTelemetry@.len(),
                n <= MAX_CARS,
                i <= n,
                self.wf(),
                self.ob == old(self).ob,
                self.positions == old(self).positions,
                self.participants == old(self).participants,
                self.playerCarIndex == old(self).playerCarIndex,
                self.session == old(self).session,
                self.lap == old(self).lap,
                forall|j: int|
                    0 <= j < POSITION_SLOTS ==> {
                        let row = #[trigger] self.car@[j];
                        let prev = old(self).car@[j];
                        if j < i {
                            let c = t.carTelemetry@[j];
                            &&& row.Drs.isOpen == (c.drs == 1)
                            &&& row.telemetry.speed == c.speed
                            &&& row.telemetry.gear == c.gear
                            &&& row.telemetry.rpm == c.engineRPM
                            &&& row.telemetry.leds == c.revLightsBitValue
                            &&& row == (CarRow { Drs: row.Drs, telemetry: row.telemetry, ..prev })
                            &&& row.Drs.isAllowed == prev.Drs.isAllowed
                        } else {
                            row == prev
                        }
                    },
            decreases n - i,
        {
            let mut row = self.car.remove(i);
            row.take_telemetry(&t.carTelemetry[i]);
            self.car.insert(i, row);
            i += 1;
        }
    }

    /// Folds a status packet into the rows of the slots in use.
    pub fn apply_status(&mut self, s: &PacketCarStatus)
        requires
            old(self).wf(),
        ensures
            final(self).wf(),
            final(self).status_folded(*old(self), *s),
    {
        let n = self.slot_count(s.carStatus.len());
        let mut i: usize = 0;
        while i < n
            invariant
                n == slots_in_use(old(self).playerCarIndex, s.carStatus@.len() as int),
                n <= s.carStatus@.len(),
                n <= MAX_CARS,
                i <= n,
                self.wf(),
                self.ob == old(self).ob,
                self.positions == old(self).positions,
                self.participants == old(self).participants,
                self.playerCarIndex == old(self).playerCarIndex,
                self.session == old(self).session,
                self.lap == old(self).lap,
                forall|j: int|
                    0 <= j < POSITION_SLOTS ==> {
                        let row = #[trigger] self.car@[j];
                        let prev = old(self).car@[j];
                        if j < i {
                            let c = s.carStatus@[j];
                            &&& row.Drs.isAllowed == (c.drsAllowed == 1)
                            &&& row.assist.TC == c.tractionControl
                            &&& row.assist.ABS == c.antiLockBrakes
                            &&& row.tyres.actual == c.actualTyre
                            &&& row.tyres.visual == c.visualTyre
                            &&& row.tyres.age == c.tyresAgeLaps
                            &&& row.driver.underFlag == c.vehicleFiaFlags
                            &&& row == (CarRow { Drs: row.Drs, assist: row.assist, tyres: row.tyres, driver: row.driver, ..prev })
                            &&& row.Drs.isOpen == prev.Drs.isOpen
                            &&& row.driver == (Driver { underFlag: c.vehicleFiaFlags, ..prev.driver })
                        } else {
                            row == prev
                        }
                    },
            decreases n - i,
        {
            let mut row = self.car.remove(i);
            row.take_status(&s.carStatus[i]);
            self.car.insert(i, row);
            i += 1;
        }
    }

    /// Folds one decoded packet into the session and says whether the
    /// leaderboard is to be drawn again. A "session started" event starts a
    /// fresh session; packets that are not folded change nothing.
    pub fn apply(&mut self, packet: &Packet) -> (redraw: bool)
        requires
            old(self).wf(),
        ensures
            final(self).wf(),
            redraw == (packet is Event || packet is Session || packet is Participants
                || packet is CarTelemetry || packet is CarStatus || packet is Lap),
            packet matches Packet::Event(e) && e.eventType == EventType::SessionStarted
                ==> final(self).is_fresh(),
            !(packet matches Packet::Event(e) && e.eventType == EventType::SessionStarted) ==> {
                &&& final(self).ob.no_worse_than(old(self).ob)
                &&& final(self).personal_no_worse_than(*old(self))
            },
            !redraw ==> *final(self) == *old(self),
            packet matches Packet::Session(s) ==> final(self).session_folded(*old(self), *s),
            packet matches Packet::Participants(p) ==> final(self).participants_folded(
                *old(self),
                *p,
            ),
            packet matches Packet::CarTelemetry(t) ==> final(self).telemetry_folded(*old(self), *t),
            packet matches Packet::CarStatus(s) ==> final(self).status_folded(*old(self), *s),
            packet matches Packet::Lap(l) ==> final(self).lap_folded(*old(self), l.cars@),
            packet matches Packet::Event(e) && e.eventType != EventType::SessionStarted
                ==> *final(self) == *old(self),
    {
        match packet {
            Packet::Event(e) => {
                if e.eventType == EventType::SessionStarted {
                    *self = Page::new();
                }
                true
            },
            Packet::Session(s) => {
                self.apply_session(s);
                assert(self.personal_no_worse_than(*old(self)));
                true
            },
            Packet::Participants(p) => {
                self.apply_participants(p);
                true
            },
            Packet::CarTelemetry(t) => {
                self.apply_telemetry(t);
                true
            },
            Packet::CarStatus(s) => {
                self.apply_status(s);
                true
            },
            Packet::Lap(l) => {
                self.apply_lap(l);
                true
            },
            _ => false,
        }
    }
}

} // verus!
