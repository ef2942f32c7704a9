//! The four-byte packet that the subsystems exchange, and its typed control byte.

use vstd::prelude::*;

verus! {

/// The tag that the first byte of a packet carries.
#[derive(Clone, Copy, Debug, PartialEq, Eq, Structural)]
pub enum ControlByte {
    IdleButton,
    Calibrated,
    CalibrateOperationalVelocity,
    CalibrateBatteryLevel,
    CalibrateColours,
    CalibrateButton,
    MazeClapSnap,
    MazeButton,
    MazeNavInstructions,
    MazeBatteryLevel,
    MazeRotation,
    MazeSpeeds,
    MazeDistance,
    MazeEndOfMaze,
    MazeColours,
    MazeIncidence,
    SosSpeed,
    SosClapSnap,
    Undefined,
}

/// The tag that a byte decodes to; a byte outside the table decodes to `Undefined`.
pub open spec fn control_of(byte: u8) -> ControlByte {
    if byte == 16 {
        ControlByte::IdleButton
    } else if byte == 112 {
        ControlByte::Calibrated
    } else if byte == 96 {
        ControlByte::CalibrateOperationalVelocity
    } else if byte == 97 {
        ControlByte::CalibrateBatteryLevel
    } else if byte == 80 {
        ControlByte::CalibrateButton
    } else if byte == 113 {
        ControlByte::CalibrateColours
    } else if byte == 145 {
        ControlByte::MazeClapSnap
    } else if byte == 146 {
        ControlByte::MazeButton
    } else if byte == 147 {
        ControlByte::MazeNavInstructions
    } else if byte == 161 {
        ControlByte::MazeBatteryLevel
    } else if byte == 162 {
        ControlByte::MazeRotation
    } else if byte == 163 {
        ControlByte::MazeSpeeds
    } else if byte == 164 {
        ControlByte::MazeDistance
    } else if byte == 179 {
        ControlByte::MazeEndOfMaze
    } else if byte == 177 {
        ControlByte::MazeColours
    } else if byte == 178 {
        ControlByte::MazeIncidence
    } else if byte == 208 {
        ControlByte::SosClapSnap
    } else if byte == 228 {
        ControlByte::SosSpeed
    } else {
        ControlByte::Undefined
    }
}

/// The byte that encodes a tag.
pub open spec fn byte_of(tag: ControlByte) -> u8 {
    match tag {
        ControlByte::IdleButton => 16,
        ControlByte::Calibrated => 112,
        ControlByte::CalibrateOperationalVelocity => 96,
        ControlByte::CalibrateBatteryLevel => 97,
        ControlByte::CalibrateColours => 113,
        ControlByte::CalibrateButton => 80,
        ControlByte::MazeClapSnap => 145,
        ControlByte::MazeButton => 146,
        ControlByte::MazeNavInstructions => 147,
        ControlByte::MazeBatteryLevel => 161,
        ControlByte::MazeRotation => 162,
        ControlByte::MazeSpeeds => 163,
        ControlByte::MazeDistance => 164,
        ControlByte::MazeEndOfMaze => 179,
        ControlByte::MazeColours => 177,
        ControlByte::MazeIncidence => 178,
        ControlByte::SosClapSnap => 208,
        ControlByte::SosSpeed => 228,
        ControlByte::Undefined => 255,
    }
}

impl ControlByte {
    /// Decodes a tag byte; unknown bytes give `Undefined`.
    pub fn from_byte(byte: u8) -> (r: ControlByte)
        ensures
            r == control_of(byte),
    {
        match byte {
            16 => ControlByte::IdleButton,
            112 => ControlByte::Calibrated,
            96 => ControlByte::CalibrateOperationalVelocity,
            97 => ControlByte::CalibrateBatteryLevel,
            80 => ControlByte::CalibrateButton,
            113 => ControlByte::CalibrateColours,
            145 => ControlByte::MazeClapSnap,
            146 => ControlByte::MazeButton,
            147 => ControlByte::MazeNavInstructions,
            161 => ControlByte::MazeBatteryLevel,
            162 => ControlByte::MazeRotation,
            163 => ControlByte::MazeSpeeds,
            164 => ControlByte::MazeDistance,
            179 => ControlByte::MazeEndOfMaze,
            177 => ControlByte::MazeColours,
            178 => ControlByte::MazeIncidence,
            208 => ControlByte::SosClapSnap,
            228 => ControlByte::SosSpeed,
            _ => ControlByte::Undefined,
        }
    }

    /// The byte that encodes this tag.
    pub fn to_byte(&self) -> (r: u8)
        ensures
            r == byte_of(*self),
    {
        match self {
            ControlByte::IdleButton => 16,
            ControlByte::Calibrated => 112,
            ControlByte::CalibrateOperationalVelocity => 96,
            ControlByte::CalibrateBatteryLevel => 97,
            ControlByte::CalibrateColours => 113,
            ControlByte::CalibrateButton => 80,
            ControlByte::MazeClapSnap => 145,
            ControlByte::MazeButton => 146,
            ControlByte::MazeNavInstructions => 147,
            ControlByte::MazeBatteryLevel => 161,
            ControlByte::MazeRotation => 162,
            ControlByte::MazeSpeeds => 163,
            ControlByte::MazeDistance => 164,
            ControlByte::MazeEndOfMaze => 179,
            ControlByte::MazeColours => 177,
            ControlByte::MazeIncidence => 178,
            ControlByte::SosClapSnap => 208,
            ControlByte::SosSpeed => 228,
            ControlByte::Undefined => 255,
        }
    }
}

/// Every tag survives encoding and decoding, and every byte that decodes to a
/// known tag is that tag's byte.
pub proof fn lemma_control_byte_round_trip(tag: ControlByte, byte: u8)
    ensures
        control_of(byte_of(tag)) == tag,
        control_of(byte) != ControlByte::Undefined ==> byte_of(control_of(byte)) == byte,
{
}

/// The wire bytes of a sequence of packets.
pub open spec fn views(packets: Seq<Packet>) -> Seq<Seq<u8>> {
    packets.map_values(|p: Packet| p@)
}

/// A packet: `[control, dat1, dat0, dec]`. `dat1` and `dat0` make a big-endian
/// word where the payload needs one; `dec` is a small discriminator.
#[derive(Clone, Copy, Debug, PartialEq, Eq, Structural)]
pub struct Packet {
    control: u8,
    data1: u8,
    data0: u8,
    discriminator: u8,
}

impl View for Packet {
    type V = Seq<u8>;

    /// The four bytes of the packet, in wire order.
    closed spec fn view(&self) -> Seq<u8> {
        seq![self.control, self.data1, self.data0, self.discriminator]
    }
}

impl Packet {
    /// The packet `[control_byte, dat1, dat0, dec]`.
    pub closed spec fn spec_new(control_byte: u8, dat1: u8, dat0: u8, dec: u8) -> Self {
        Packet { control: control_byte, data1: dat1, data0: dat0, discriminator: dec }
    }

    /// Builds the packet `[control_byte, dat1, dat0, dec]`.
    pub fn new(control_byte: u8, dat1: u8, dat0: u8, dec: u8) -> (r: Self)
        ensures
            r == Self::spec_new(control_byte, dat1, dat0, dec),
            r@ == seq![control_byte, dat1, dat0, dec],
    {
        Packet { control: control_byte, data1: dat1, data0: dat0, discriminator: dec }
    }

    /// Builds a packet from its four bytes in wire order.
    pub fn from_bytes(bytes: [u8; 4]) -> (r: Self)
        ensures
            r@ == bytes@,
    {
        let r = Packet { control: bytes[0], data1: bytes[1], data0: bytes[2], discriminator: bytes[3] };
        assert(r@ =~= bytes@);
        r
    }

    /// The four bytes of the packet in wire order.
    pub fn bytes(&self) -> (r: [u8; 4])
        ensures
            r@ == self@,
    {
        let r = [self.control, self.data1, self.data0, self.discriminator];
        assert(r@ =~= self@);
        r
    }

    /// The tag that the first byte decodes to.
    pub fn control_byte(&self) -> (r: ControlByte)
        ensures
            r == control_of(self@[0]),
    {
        ControlByte::from_byte(self.control)
    }

    /// The second byte.
    pub fn dat1(&self) -> (r: u8)
        ensures
            r == self@[1],
    {
        self.data1
    }

    /// The third byte.
    pub fn dat0(&self) -> (r: u8)
        ensures
            r == self@[2],
    {
        self.data0
    }

    /// The fourth byte.
    pub fn dec(&self) -> (r: u8)
        ensures
            r == self@[3],
    {
        self.discriminator
    }
}

impl From<[u8; 4]> for Packet {
    /// The packet with these four bytes, in wire order.
    fn from(bytes: [u8; 4]) -> (r: Self) {
        Packet::from_bytes(bytes)
    }
}

impl vstd::std_specs::convert::FromSpecImpl<[u8; 4]> for Packet {
    open spec fn obeys_from_spec() -> bool {
        true
    }

    open spec fn from_spec(bytes: [u8; 4]) -> Packet {
        Packet::spec_new(bytes@[0], bytes@[1], bytes@[2], bytes@[3])
    }
}

/// A packet built from a tag's byte and three payload bytes serialises to exactly
/// those bytes, and its first byte decodes back to the tag it was built with.
pub proof fn lemma_packet_round_trip(tag: ControlByte, msb: u8, lsb: u8, dec: u8)
    ensures
        Packet::spec_new(byte_of(tag), msb, lsb, dec)@ == seq![byte_of(tag), msb, lsb, dec],
        control_of(Packet::spec_new(byte_of(tag), msb, lsb, dec)@[0]) == tag,
{
}

} // verus!
