use f1_timing::bests::Period;
use f1_timing::codes::{
    ActualCompound, CarState, Gear, MFDPanel, PacketId, ResultStatus, Session, VisualCompound,
    ZoneFlag, LEDs, Valid,
};
use f1_timing::dispatch::{decode, Packet};
use f1_timing::event::{EventDetails, EventType, PacketEvent};
use f1_timing::header::Header;
use f1_timing::packet::{Car, Participant, PacketLap, WeatherForecast, PACKET_LAP_SIZE};
use f1_timing::page::Page;
use f1_timing::text::padded_name;
use f1_timing::wire::{read_i16, read_i8, read_u16, read_u32, read_u64};

fn header_bytes(id: u8) -> Vec<u8> {
    let mut b = vec![0xE9, 0x07, 25, 1, 2, 1, id];
    b.extend_from_slice(&0x0102_0304_0506_0708u64.to_le_bytes());
    b.extend_from_slice(&12.5f32.to_le_bytes());
    b.extend_from_slice(&77u32.to_le_bytes());
    b.extend_from_slice(&99u32.to_le_bytes());
    b.push(3);
    b.push(255);
    b
}

#[test]
fn header_decodes_each_field() {
    let b = header_bytes(2);
    let h = Header::unpack(&b);
    assert_eq!(h.packetFormat, 2025);
    assert_eq!(h.gameYear, 25);
    assert_eq!(h.gameMajorVersion, 1);
    assert_eq!(h.gameMinorVersion, 2);
    assert_eq!(h.packetId, PacketId::Lap);
    assert_eq!(h.sessionUID, 0x0102_0304_0506_0708);
    assert_eq!(f32::from_bits(h.sessionTime), 12.5);
    assert_eq!(h.frameIdentifier, 77);
    assert_eq!(h.overallFrameIdentifier, 99);
    assert_eq!(h.playerCarIndex, 3);
    assert_eq!(h.secondaryPlayerCarIndex, 255);
}

#[test]
fn header_round_trips() {
    for id in 0u8..=15 {
        let b = header_bytes(id);
        assert_eq!(b.len(), 29);
        assert_eq!(Header::unpack(&b).pack(), b);
    }
}

#[test]
fn little_endian_reads() {
    let b = [0x34u8, 0x12, 0xFF, 0xFF, 0x80, 1, 2, 3, 4, 5, 6, 7, 8];
    assert_eq!(read_u16(&b, 0), 0x1234);
    assert_eq!(read_i16(&b, 2), -1);
    assert_eq!(read_i8(&b, 4), -128);
    assert_eq!(read_u32(&b, 5), 0x0403_0201);
    assert_eq!(read_u64(&b, 5), 0x0807_0605_0403_0201);
}

#[test]
fn enum_codes_and_poisoned_values() {
    assert_eq!(PacketId::from_u8(99), PacketId::Poisoned);
    assert_eq!(PacketId::from_u8(15), PacketId::LapPositions);
    assert_eq!(ZoneFlag::from_u8_to_i8(&255), ZoneFlag::Invalid);
    assert_eq!(ZoneFlag::from_u8_to_i8(&3), ZoneFlag::Yellow);
    assert_eq!(ZoneFlag::from_u8_to_i8(&9), ZoneFlag::Unknown);
    assert_eq!(Gear::from_u8_to_i8(&255), Gear::Reverse);
    assert_eq!(Gear::from_u8_to_i8(&8), Gear::Eighth);
    assert_eq!(Gear::from_u8_to_i8(&9), Gear::Poisoned);
    assert_eq!(Session::from_u8(&10), Session::Race);
    assert_eq!(Session::from_u8(&14), Session::Poisoned);
    assert_eq!(CarState::from_u8(1), CarState::OnFlyingLap);
    assert_eq!(ResultStatus::from_u8(9), ResultStatus::Poisoned);
    assert_ne!(ResultStatus::from_u8(9), ResultStatus::from_u8(0));
    assert_eq!(MFDPanel::from_u8(&255), MFDPanel::Closed);
    assert_eq!(MFDPanel::from_u8(&254), MFDPanel::Poisoned);
    assert_eq!(ActualCompound::from_u8(&22), ActualCompound::C6);
    assert_eq!(VisualCompound::from_u8(&0), VisualCompound::Poisoned);
    assert_eq!(VisualCompound::from_u8(&17), VisualCompound::Medium);
    assert_eq!(Valid::from_u8(&15), Valid::All);
    assert_eq!(Valid::from_u8(&3), Valid::Poisoned);
    assert_eq!(PacketId::Lap.to_u8(), 2);
    assert_eq!(LEDs::Fifthteen.mask(), 0x4000);
    assert_eq!(LEDs::One.mask(), 1);
}

#[test]
fn weather_sample_reads_signed_temperatures() {
    let w = WeatherForecast::unpack(&[10, 5, 3, 0xF6, 1, 22, 9, 40]);
    assert_eq!(w.sessionType, Session::Race);
    assert_eq!(w.trackTemperature, -10);
    assert_eq!(w.airTemperature, 22);
    assert_eq!(w.rainPercentage, 40);
}

fn lap_datagram() -> Vec<u8> {
    let mut b = header_bytes(2);
    b.resize(PACKET_LAP_SIZE, 0);
    let at = 29 + 57 * 3;
    b[at..at + 4].copy_from_slice(&90_500u32.to_le_bytes());
    b[at + 4..at + 8].copy_from_slice(&1_200u32.to_le_bytes());
    b[at + 8..at + 10].copy_from_slice(&28_400u16.to_le_bytes());
    b[at + 10] = 1;
    b[at + 20..at + 24].copy_from_slice(&(-50.0f32).to_le_bytes());
    b[at + 32] = 5;
    b[at + 33] = 4;
    b[at + 36] = 2;
    b[at + 44] = 3;
    b[1283] = 7;
    b[1284] = 8;
    b
}

#[test]
fn lap_packet_reads_every_slot() {
    let p = PacketLap::unpack(&lap_datagram());
    assert_eq!(p.cars.len(), 22);
    let c: &Car = &p.cars[3];
    assert_eq!(c.lastLapTimeInMS, 90_500);
    assert_eq!(c.currentLapTimeInMS, 1_200);
    assert_eq!(c.sector1TimeMSPart, 28_400);
    assert_eq!(c.sector1TimeMinutesPart, 1);
    assert_eq!(f32::from_bits(c.lapDistance), -50.0);
    assert_eq!(c.racePosition, 5);
    assert_eq!(c.currentLapNum, 4);
    assert_eq!(c.sector, 2);
    assert_eq!(c.driverStatus, CarState::OutLap);
    assert_eq!(p.timeTrialPBCarIdx, 7);
    assert_eq!(p.timeTrialRivalCarIdx, 8);
}

#[test]
fn unknown_packet_id_is_dispatched_as_unknown() {
    let mut b = header_bytes(99);
    b.resize(1500, 0);
    assert!(matches!(decode(&b), Packet::Unknown));
    let mut page = Page::new();
    assert!(!page.apply(&decode(&b)));
    match decode(&lap_datagram()) {
        Packet::Lap(l) => {
            page.apply(&Packet::Lap(l));
        }
        _ => panic!("lap packet expected"),
    }
    assert_eq!(page.positions[5], Some(3));
}

#[test]
fn truncated_packet_is_unknown() {
    let mut b = lap_datagram();
    b.truncate(PACKET_LAP_SIZE - 1);
    assert!(matches!(decode(&b), Packet::Unknown));
    assert!(matches!(decode(&b[..10]), Packet::Unknown));
    let mut t = header_bytes(12);
    t.resize(1500, 0);
    assert!(matches!(decode(&t), Packet::Unknown));
}

fn event_datagram(tag: &[u8; 4], body: &[u8]) -> Vec<u8> {
    let mut b = header_bytes(3);
    b.extend_from_slice(tag);
    b.extend_from_slice(body);
    b
}

#[test]
fn events_are_tagged() {
    let e = PacketEvent::unpack(&event_datagram(b"SSTA", &[]));
    assert_eq!(e.eventType, EventType::SessionStarted);
    assert_eq!(e.eventStringCode.tag, b"SSTA".to_vec());
    let f = PacketEvent::unpack(&event_datagram(b"FTLP", &[4, 0, 0, 0xB4, 0x42]));
    assert_eq!(f.eventType, EventType::FastestLap);
    match f.eventDetails {
        EventDetails::FastestLap(x) => {
            assert_eq!(x.vehicleIdx, 4);
            assert_eq!(f32::from_bits(x.lapTime), 90.0);
        }
        _ => panic!("fastest lap body expected"),
    }
    let p = PacketEvent::unpack(&event_datagram(b"PENA", &[1, 2, 3, 4, 5, 6, 7]));
    match p.eventDetails {
        EventDetails::Penalty(x) => assert_eq!((x.vehicleIdx, x.placesGained), (3, 7)),
        _ => panic!("penalty body expected"),
    }
    let u = PacketEvent::unpack(&event_datagram(b"ZZZZ", &[]));
    assert_eq!(u.eventType, EventType::Poisoned);
    match u.eventDetails {
        EventDetails::UnknownTag(t) => assert_eq!(t, b"ZZZZ".to_vec()),
        _ => panic!("unknown tag expected"),
    }
}

#[test]
fn session_start_event_through_dispatch_resets() {
    let mut page = Page::new();
    assert!(page.ob.isBest(Period::LapTime, 90_000, 0, 1));
    assert!(page.car[0].time.isBest(Period::Sector1, 28_000, 0, 1));
    let other = decode(&event_datagram(b"DRSE", &[]));
    assert!(page.apply(&other));
    assert!(page.ob.lapTime.isSet);
    let pkt = decode(&event_datagram(b"SSTA", &[]));
    assert!(matches!(pkt, Packet::Event(_)));
    assert!(page.apply(&pkt));
    assert!(!page.ob.lapTime.isSet);
    assert_eq!(page.ob.lapTime.inMS, 0);
    assert!(!page.car[0].time.personal.sector1.isSet);
}

#[test]
fn names_stop_at_the_first_null() {
    let mut raw = vec![0u8; 32];
    raw[..8].copy_from_slice(b"HAMILTON");
    assert_eq!(padded_name(&raw), "HAMILTON");
    raw[10] = b'X';
    assert_eq!(padded_name(&raw), "HAMILTON");
    assert_eq!(padded_name(&[0u8; 32]), "");
    let accent = "PÉREZ".as_bytes();
    let mut r2 = vec![0u8; 32];
    r2[..accent.len()].copy_from_slice(accent);
    assert_eq!(padded_name(&r2), "PÉREZ");
    let bad = [0xFFu8, 0xFE, b'A', 0];
    assert_eq!(padded_name(&bad), "");
}

#[test]
fn participant_name_is_decoded() {
    let mut b = vec![1u8, 44, 0, 3, 0, 44, 10];
    let mut name = vec![0u8; 32];
    name[..4].copy_from_slice(b"NORR");
    b.extend_from_slice(&name);
    b.extend_from_slice(&[1, 1, 0, 0, 1, 4]);
    b.extend_from_slice(&[1, 2, 3, 4, 5, 6, 7, 8, 9, 10, 11, 12]);
    assert_eq!(b.len(), 57);
    let p = Participant::unpack(&b);
    assert_eq!(p.name_to_string(), "NORR");
    assert_eq!(p.raceNumber, 44);
    assert_eq!(p.liveryColours.len(), 4);
    assert_eq!(p.liveryColours[3].b, 12);
}

#[test]
fn participants_fill_the_slots_in_use() {
    let mut b = header_bytes(4);
    b.push(2);
    for (i, name) in ["ALONSO", "STROLL", "OTHER"].iter().enumerate() {
        let mut rec = vec![1u8, 10 + i as u8, 0, 5, 0, 14 + i as u8, 7];
        let mut n = vec![0u8; 32];
        n[..name.len()].copy_from_slice(name.as_bytes());
        rec.extend_from_slice(&n);
        rec.extend_from_slice(&[1, 0, 0, 0, 0, 0]);
        rec.extend_from_slice(&[0u8; 12]);
        b.extend_from_slice(&rec);
    }
    b.resize(f1_timing::packet::PACKET_PARTICIPANTS_SIZE, 0);
    let mut page = Page::new();
    page.playerCarIndex = 1;
    match decode(&b) {
        Packet::Participants(p) => page.apply_participants(&p),
        _ => panic!("participants packet expected"),
    }
    assert_eq!(page.participants, 2);
    assert_eq!(page.car[0].driver.name, "ALONSO");
    assert_eq!(page.car[1].driver.name, "STROLL");
    assert_eq!(page.car[1].driver.number, 15);
    assert!(page.car[1].driver.isAI && page.car[1].driver.isTelemetryEnabled);
    assert_eq!(page.car[2].driver.name, "");
}

#[test]
fn short_events_decode_by_their_tag() {
    let ssta = event_datagram(b"SSTA", &[]);
    assert_eq!(ssta.len(), 33);
    let mut page = Page::new();
    assert!(page.ob.isBest(Period::Sector2, 40_000, 1, 2));
    match decode(&ssta) {
        Packet::Event(e) => assert_eq!(e.eventType, EventType::SessionStarted),
        _ => panic!("event expected"),
    }
    assert!(page.apply(&decode(&ssta)));
    assert!(!page.ob.sector2.isSet);
    let mut rtmt = event_datagram(b"RTMT", &[6]);
    rtmt.resize(40, 0);
    match decode(&rtmt) {
        Packet::Event(e) => match e.eventDetails {
            EventDetails::Retirement(r) => assert_eq!(r.vehicleIdx, 6),
            _ => panic!("retirement expected"),
        },
        _ => panic!("event expected"),
    }
    let u = decode(&event_datagram(b"QQQQ", &[1]));
    match u {
        Packet::Event(e) => {
            assert_eq!(e.eventType, EventType::Poisoned);
            assert_eq!(e.eventStringCode.tag, b"QQQQ".to_vec());
            assert_eq!(e.header.packetId, PacketId::Event);
        }
        _ => panic!("event expected"),
    }
    let cut = event_datagram(b"PENA", &[1, 2, 3]);
    assert!(matches!(decode(&cut), Packet::Unknown));
}

#[test]
fn short_header_is_poisoned() {
    let h = Header::unpack(&[1, 2, 3]);
    assert_eq!(h.packetId, PacketId::Poisoned);
    assert_eq!(h.packetFormat, 0);
}
