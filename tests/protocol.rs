use marv_emu::adjacent_bytes::AdjacentBytes;
use marv_emu::colour::{Colour, Colours};
use marv_emu::link::{packet_from_read, packet_waiting, Bound, ComPortError, ComPortReadErr};
use marv_emu::packet::{ControlByte, Packet};

#[test]
fn packet_bytes_round_trip() {
    for (tag, byte) in [
        (ControlByte::IdleButton, 16u8),
        (ControlByte::MazeNavInstructions, 147),
        (ControlByte::MazeEndOfMaze, 179),
        (ControlByte::SosSpeed, 228),
    ] {
        for (msb, lsb) in [(0u8, 0u8), (1, 255), (255, 1), (0x12, 0x34)] {
            let p = Packet::new(tag.to_byte(), msb, lsb, 3);
            assert_eq!(p.bytes(), [byte, msb, lsb, 3]);
            let q = Packet::from_bytes(p.bytes());
            assert_eq!(q.control_byte(), tag);
            assert_eq!(q, p);
        }
    }
}

#[test]
fn packet_accessors() {
    let p = Packet::new(164, 0x01, 0x02, 7);
    assert_eq!(p.control_byte(), ControlByte::MazeDistance);
    assert_eq!(p.dat1(), 1);
    assert_eq!(p.dat0(), 2);
    assert_eq!(p.dec(), 7);
}

#[test]
fn unknown_control_byte_is_undefined() {
    assert_eq!(ControlByte::from_byte(0), ControlByte::Undefined);
    assert_eq!(ControlByte::from_byte(17), ControlByte::Undefined);
    assert_eq!(ControlByte::from_byte(255), ControlByte::Undefined);
    assert_eq!(Packet::new(42, 1, 2, 3).bytes(), [42, 1, 2, 3]);
}

#[test]
fn control_byte_table() {
    let table = [
        (16u8, ControlByte::IdleButton),
        (80, ControlByte::CalibrateButton),
        (96, ControlByte::CalibrateOperationalVelocity),
        (97, ControlByte::CalibrateBatteryLevel),
        (112, ControlByte::Calibrated),
        (113, ControlByte::CalibrateColours),
        (145, ControlByte::MazeClapSnap),
        (146, ControlByte::MazeButton),
        (147, ControlByte::MazeNavInstructions),
        (161, ControlByte::MazeBatteryLevel),
        (162, ControlByte::MazeRotation),
        (163, ControlByte::MazeSpeeds),
        (164, ControlByte::MazeDistance),
        (177, ControlByte::MazeColours),
        (178, ControlByte::MazeIncidence),
        (179, ControlByte::MazeEndOfMaze),
        (208, ControlByte::SosClapSnap),
        (228, ControlByte::SosSpeed),
    ];
    for (byte, tag) in table {
        assert_eq!(ControlByte::from_byte(byte), tag);
        assert_eq!(tag.to_byte(), byte);
    }
    assert_eq!(ControlByte::Undefined.to_byte(), 255);
}

#[test]
fn adjacent_bytes_round_trip() {
    for w in [0u16, 1, 80, 255, 256, 0x1234, 0xabcd, u16::MAX] {
        let b = AdjacentBytes::from_word(w);
        assert_eq!(b.to_word(), w);
        assert_eq!(b.msb(), (w >> 8) as u8);
        assert_eq!(b.lsb(), (w & 0xff) as u8);
    }
    let b = AdjacentBytes::make(0x01, 0x02);
    assert_eq!(b.to_word(), 258);
}

#[test]
fn colour_word_round_trip() {
    for w in [0u16, 0b001_010_011_100_000, 0b100_100_100_100_100, 0b000_001_000_000_000, 0x7fff & 0b100_011_010_001_000] {
        assert_eq!(Colours::from_word(w).pack(), w);
    }
    let c = Colours::from_array([Colour::White, Colour::Red, Colour::White, Colour::White, Colour::White]);
    assert_eq!(c.pack(), 512);
    let d = Colours::from_word(c.pack());
    assert_eq!(d.to_vec(), c.to_vec());
}

#[test]
fn colour_word_decoding_order() {
    let c = Colours::from_word(0b001_010_011_100_000);
    assert_eq!(c.to_vec(), vec![Colour::Red, Colour::Green, Colour::Blue, Colour::Black, Colour::White]);
    assert_eq!(c.get(0), Colour::Red);
    assert_eq!(c.get(4), Colour::White);
}

#[test]
fn illegal_colour_words_are_refused() {
    assert!(Colours::try_from_word(0b101_000_000_000_000).is_none());
    assert!(Colours::try_from_word(0b000_000_000_000_111).is_none());
    assert!(Colours::try_from_word(0b100_000_000_000_001).is_some());
}

#[test]
fn colour_codes() {
    assert_eq!(Colour::from_code(0), Some(Colour::White));
    assert_eq!(Colour::from_code(4), Some(Colour::Black));
    assert_eq!(Colour::from_code(5), None);
    assert_eq!(Colour::from_code(7), None);
    assert_eq!(Colour::Blue.code(), 3);
    assert_eq!(Colour::from_letter('n'), Some(Colour::Black));
    assert_eq!(Colour::from_letter('x'), None);
    assert_eq!(Colour::Red.rgb(), (255, 0, 0));
    assert_eq!(Colour::Green.name(), "Green");
}

#[test]
fn all_white_polarity() {
    assert!(Colours::new().all_white());
    let c = Colours::from_array([Colour::White, Colour::White, Colour::White, Colour::White, Colour::Black]);
    assert!(!c.all_white());
    let d = Colours::from_array([Colour::Red, Colour::White, Colour::White, Colour::White, Colour::White]);
    assert!(!d.all_white());
}

#[test]
fn colours_iterate_all_five_sensors() {
    let c = Colours::from_array([Colour::Red, Colour::Green, Colour::Blue, Colour::Black, Colour::Red]);
    let v = c.to_vec();
    assert_eq!(v.len(), 5);
    assert_eq!(v[0], Colour::Red);
    assert_eq!(v[4], Colour::Red);
}

#[test]
fn serial_framing() {
    let p = packet_from_read([147, 1, 2, 3], 4).ok().unwrap();
    assert_eq!(p.bytes(), [147, 1, 2, 3]);
    assert_eq!(packet_from_read([147, 1, 2, 3], 3).err(), Some(ComPortError::ReadFail));
    assert_eq!(packet_waiting(3).err(), Some(ComPortReadErr::NoData));
    assert!(packet_waiting(4).is_ok());
}

#[test]
fn bounds() {
    assert!(Bound::Infinite.has_room(1_000_000));
    assert!(Bound::Finite(1).has_room(0));
    assert!(!Bound::Finite(1).has_room(1));
}

#[test]
fn conversions_round_trip() {
    for w in [0u16, 80, 0x1234, u16::MAX] {
        let b = AdjacentBytes::from(w);
        let back: u16 = b.into();
        assert_eq!(back, w);
    }
    let p = Packet::from([179u8, 0, 0, 0]);
    assert_eq!(p.control_byte(), ControlByte::MazeEndOfMaze);
    assert_eq!(p.bytes(), [179, 0, 0, 0]);
}
