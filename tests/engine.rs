use f1_timing::bests::{Best, Period, Time};
use f1_timing::codes::{CarState, PitStatus, ResultStatus};
use f1_timing::dispatch::Packet;
use f1_timing::event::{EventDetails, EventType, PacketEvent, SessionStarted};
use f1_timing::header::Header;
use f1_timing::codes::PacketId;
use f1_timing::packet::{Car, EventTag, PacketLap};
use f1_timing::page::Page;
use f1_timing::session::{behind_start_line, sector3_split, split_to_ms, CarRow};

fn lap_record(pos: u8, sector: u8, last: u32, current: u32, lap: u8) -> Car {
    Car {
        lastLapTimeInMS: last,
        currentLapTimeInMS: current,
        sector1TimeMSPart: 0,
        sector1TimeMinutesPart: 0,
        sector2TimeMSPart: 0,
        sector2TimeMinutesPart: 0,
        deltaToCarInFrontMSPart: 0,
        deltaToCarInFrontMinutesPart: 0,
        deltaToRaceLeaderMSPart: 0,
        deltaToRaceLeaderMinutesPart: 0,
        lapDistance: 100.0f32.to_bits(),
        totalDistance: 0,
        safetyCarDelta: 0,
        racePosition: pos,
        currentLapNum: lap,
        pitStatus: PitStatus::NotInPits,
        numPitStops: 0,
        sector,
        currentLapInvalid: 0,
        penalties: 0,
        totalWarnings: 0,
        cornerCuttingWarnings: 0,
        numUnservedDriveThroughPens: 0,
        numUnservedStopGoPens: 0,
        gridPosition: pos,
        driverStatus: CarState::OnFlyingLap,
        resultStatus: ResultStatus::Active,
        pitLaneTimerActive: 0,
        pitLaneTimeInLaneInMS: 0,
        pitStopTimerInMS: 0,
        pitStopShouldServePen: 0,
        speedTrapFastestSpeed: 0,
        speedTrapFastestLap: 255,
    }
}

fn header(id: PacketId) -> Header {
    Header {
        packetFormat: 2025,
        gameYear: 25,
        gameMajorVersion: 1,
        gameMinorVersion: 2,
        packetVersion: 1,
        packetId: id,
        sessionUID: 7,
        sessionTime: 0,
        frameIdentifier: 1,
        overallFrameIdentifier: 1,
        playerCarIndex: 0,
        secondaryPlayerCarIndex: 255,
    }
}

fn lap_packet(cars: Vec<Car>) -> PacketLap {
    let mut all = cars;
    while all.len() < 22 {
        all.push(lap_record(0, 0, 0, 0, 0));
    }
    PacketLap { header: header(PacketId::Lap), cars: all, timeTrialPBCarIdx: 255, timeTrialRivalCarIdx: 255 }
}

#[test]
fn sector3_is_derived_on_a_new_lap() {
    let mut row = CarRow::new();
    let mut ob = Best::new();
    row.sector = 2;
    row.lapNum = 4;
    row.time.sector1.inMS = 28_400;
    row.time.sector2.inMS = 41_200;
    row.fold_timing(&mut ob, 0, &lap_record(1, 0, 90_500, 300, 4));
    assert_eq!(row.time.sector3.inMS, 20_900);
    assert_eq!(ob.sector3.inMS, 20_900);
    assert!(ob.sector3.isSet);
    assert_eq!(ob.lapTime.inMS, 90_500);
    assert_eq!(row.time.lastLap.inMS, 90_500);
    assert!(row.time.sector3.isOB && row.time.sector3.isPB);
    assert_eq!(row.time.sector1.inMS, 300);
    assert_eq!(row.sector, 0);
}

#[test]
fn overall_best_goes_to_the_faster_driver() {
    let mut ob = Best::new();
    let mut row0 = CarRow::new();
    let mut row1 = CarRow::new();
    assert!(ob.isBest(Period::Sector1, 28_400, 0, 2));
    assert!(row0.time.isBest(Period::Sector1, 28_400, 0, 2));
    assert!(ob.isBest(Period::Sector1, 28_250, 1, 3));
    assert!(row1.time.isBest(Period::Sector1, 28_250, 1, 3));
    assert_eq!(ob.sector1.inMS, 28_250);
    assert_eq!(ob.sector1.byId, 1);
    assert_eq!(ob.sector1.onLap, 3);
    assert_eq!(row0.time.personal.sector1.inMS, 28_400);
    assert_eq!(row1.time.personal.sector1.inMS, 28_250);
}

#[test]
fn sector_one_split_is_classified_through_the_fold() {
    let mut ob = Best::new();
    let mut row0 = CarRow::new();
    let mut row1 = CarRow::new();
    row0.lapNum = 2;
    row1.lapNum = 3;
    let mut c0 = lap_record(1, 1, 0, 28_500, 2);
    c0.sector1TimeMSPart = 28_400;
    let mut c1 = lap_record(2, 1, 0, 28_300, 3);
    c1.sector1TimeMSPart = 28_250;
    row0.fold_timing(&mut ob, 0, &c0);
    row1.fold_timing(&mut ob, 1, &c1);
    assert_eq!(ob.sector1.inMS, 28_250);
    assert_eq!(ob.sector1.byId, 1);
    assert_eq!(ob.sector1.onLap, 3);
    assert!(row1.time.sector1.isPB && row1.time.sector1.isOB);
    assert!(row0.time.sector1.isPB);
    assert_eq!(row0.time.sector2.inMS, 100);
}

#[test]
fn theoretical_best_is_the_sum_of_sector_bests() {
    let mut ob = Best::new();
    ob.isBest(Period::Sector1, 28_250, 1, 3);
    ob.isBest(Period::Sector2, 40_900, 2, 3);
    assert_eq!(ob.possible, 0);
    ob.isBest(Period::Sector3, 20_800, 3, 3);
    assert_eq!(ob.possible, 89_950);
    assert!(ob.isBest(Period::LapTime, 89_900, 4, 5));
    assert_eq!(ob.lapTime.inMS, 89_900);
    assert_eq!(ob.possible, 89_950);
    ob.isBest(Period::Sector2, 40_800, 2, 6);
    assert_eq!(ob.possible, 89_850);
}

#[test]
fn formation_lap_latches_nothing() {
    let mut page = Page::new();
    let mut c = lap_record(1, 0, 0, 0, 1);
    c.lapDistance = (-50.0f32).to_bits();
    page.apply_lap(&lap_packet(vec![c]));
    assert_eq!(page.positions[1], Some(0));
    assert_eq!(page.car[0].time.sector3.inMS, 0);
    assert!(!page.ob.sector3.isSet && !page.ob.lapTime.isSet);
    assert_eq!(page.car[0].spotRace, 1);
    assert_eq!(page.lap.leader, 0);
}

#[test]
fn session_start_clears_everything() {
    let mut page = Page::new();
    let mut c = lap_record(1, 1, 0, 30_000, 2);
    c.sector1TimeMSPart = 29_000;
    page.apply_lap(&lap_packet(vec![c]));
    assert!(page.ob.sector1.isSet);
    let ev = PacketEvent {
        header: header(PacketId::Event),
        eventStringCode: EventTag { tag: b"SSTA".to_vec() },
        eventType: EventType::SessionStarted,
        eventDetails: EventDetails::SessionStarted(SessionStarted::unpack()),
    };
    assert!(page.apply(&Packet::Event(ev)));
    assert!(!page.ob.sector1.isSet && !page.ob.sector2.isSet && !page.ob.sector3.isSet);
    assert!(!page.ob.lapTime.isSet);
    assert_eq!(page.ob.possible, 0);
    assert!(page.positions.iter().all(|p| p.is_none()));
    assert!(page.car.iter().all(|r| !r.time.sector1.isSet && !r.time.personal.sector1.isSet));
    assert_eq!(page.car[0].spotRace, 0);
}

#[test]
fn unknown_packet_changes_nothing() {
    let mut page = Page::new();
    page.apply_lap(&lap_packet(vec![lap_record(1, 1, 0, 5_000, 1)]));
    let before = format!("{:?}", page);
    assert!(!page.apply(&Packet::Unknown));
    assert_eq!(format!("{:?}", page), before);
}

#[test]
fn zero_time_is_never_latched() {
    let mut ob = Best::new();
    assert!(!ob.isBest(Period::Sector1, 0, 0, 1));
    assert!(!ob.isBest(Period::LapTime, 0, 0, 1));
    assert!(!ob.sector1.isSet && ob.sector1.inMS == 0);
    assert!(!ob.lapTime.isSet);
}

#[test]
fn equal_time_keeps_the_first_owner() {
    let mut ob = Best::new();
    assert!(ob.isBest(Period::Sector2, 40_000, 3, 1));
    assert!(!ob.isBest(Period::Sector2, 40_000, 5, 2));
    assert_eq!(ob.sector2.byId, 3);
    assert!(!ob.isBest(Period::Sector2, 40_001, 5, 2));
}

#[test]
fn overall_sector_best_never_grows() {
    let mut ob = Best::new();
    let mut seen = Vec::new();
    for (i, t) in [31_000u32, 30_500, 32_000, 0, 30_400, 30_400, 35_000].iter().enumerate() {
        ob.isBest(Period::Sector3, *t, i, 1);
        seen.push(ob.sector3.inMS);
    }
    assert!(seen.windows(2).all(|w| w[1] <= w[0] || w[0] == 0));
    assert_eq!(ob.sector3.inMS, 30_400);
}

#[test]
fn personal_best_is_below_earlier_times() {
    let mut row = CarRow::new();
    let times = [29_000u32, 28_700, 28_900, 28_600];
    let mut earlier: Vec<u32> = Vec::new();
    for t in times.iter() {
        let pb = row.time.isBest(Period::Sector1, *t, 0, 1);
        if pb {
            assert!(earlier.iter().all(|e| *e > *t));
        }
        earlier.push(*t);
    }
    assert_eq!(row.time.personal.sector1.inMS, 28_600);
}

#[test]
fn complete_lap_keeps_theoretical_within_lap() {
    let mut ob = Best::new();
    for (s1, s2, s3) in [(28_000u32, 41_000u32, 21_000u32), (28_500, 40_000, 21_500)].iter() {
        ob.isBest(Period::Sector1, *s1, 0, 1);
        ob.isBest(Period::Sector2, *s2, 0, 1);
        ob.isBest(Period::Sector3, *s3, 0, 1);
        ob.isBest(Period::LapTime, s1 + s2 + s3, 0, 1);
        assert!(ob.possible > 0 && ob.possible <= ob.lapTime.inMS as u64);
    }
    assert_eq!(ob.possible, 89_000);
    assert_eq!(ob.lapTime.inMS, 90_000);
}

#[test]
fn update_possible_only_improves() {
    let mut ob = Best::new();
    assert!(!ob.update_possible());
    ob.isBest(Period::Sector1, 1_000, 0, 1);
    ob.isBest(Period::Sector2, 2_000, 0, 1);
    ob.isBest(Period::Sector3, 3_000, 0, 1);
    assert_eq!(ob.possible, 6_000);
    assert!(!ob.update_possible());
    ob.possible = 7_000;
    assert!(ob.update_possible());
    assert_eq!(ob.possible, 6_000);
}

#[test]
fn splits_and_sector3_arithmetic() {
    assert_eq!(split_to_ms(1, 2_345), 62_345);
    assert_eq!(split_to_ms(255, 65_535), 15_365_535);
    assert_eq!(sector3_split(90_500, 28_400, 41_200), 20_900);
    assert_eq!(sector3_split(50_000, 28_400, 41_200), 0);
    assert_eq!(sector3_split(u32::MAX, u32::MAX, u32::MAX), 0);
}

#[test]
fn negative_lap_distance_is_behind_the_line() {
    let mut c = lap_record(1, 0, 0, 0, 1);
    for (v, neg) in [(-50.0f32, true), (10.0, false), (-0.0, false), (0.0, false), (f32::NEG_INFINITY, true)] {
        c.lapDistance = v.to_bits();
        assert_eq!(behind_start_line(&c), neg, "{}", v);
    }
    c.lapDistance = f32::NAN.to_bits() | 0x8000_0000;
    assert!(!behind_start_line(&c));
}

#[test]
fn positions_table_follows_lap_packets() {
    let mut page = Page::new();
    page.apply_lap(&lap_packet(vec![lap_record(2, 0, 0, 10, 1), lap_record(1, 0, 0, 20, 1), lap_record(0, 0, 0, 0, 0)]));
    assert_eq!(page.positions[1], Some(1));
    assert_eq!(page.positions[2], Some(0));
    assert_eq!(page.positions[3], None);
    assert_eq!(page.lap.leader, 1);
    page.apply_lap(&lap_packet(vec![lap_record(40, 1, 0, 10, 3)]));
    assert_eq!(page.car[0].spotRace, 2);
    assert_eq!(page.lap.leader, 1);
}

#[test]
fn leader_lap_advances() {
    let mut page = Page::new();
    page.apply_lap(&lap_packet(vec![lap_record(1, 0, 0, 10, 3), lap_record(2, 0, 0, 10, 2)]));
    assert_eq!(page.lap.leader, 3);
}

#[test]
fn times_compare_by_milliseconds_only() {
    let mut a = Time::new();
    let mut b = Time::new();
    a.inMS = 28_250;
    a.byId = 1;
    a.isOB = true;
    b.inMS = 28_250;
    b.byId = 4;
    assert!(a == b);
    b.inMS = 28_400;
    assert!(a < b);
    assert!(b > a);
    assert!(a != b);
}
