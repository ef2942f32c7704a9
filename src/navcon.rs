//! NAVCON: the navigation decisions of the state and navigation controller.

use vstd::prelude::*;
use crate::adjacent_bytes::{word_of, AdjacentBytes};
use crate::colour::{decode_word, legal_word, Colour, Colours};
use crate::constants::B_ISD;
use crate::packet::{control_of, ControlByte, Packet};

verus! {

/// What the robot is doing.
#[derive(Clone, Copy, Debug, PartialEq, Eq, Structural)]
pub enum NavConState {
    Forward,
    Reverse,
    Stop,
    RotateLeft,
    RotateRight,
}

/// The side of the sensor bar on which an inner sensor met a line.
#[derive(Clone, Copy, Debug, PartialEq, Eq, Structural)]
pub enum Side {
    Left,
    Right,
}

/// The navigation controller's persistent state.
#[derive(Clone, Copy, Debug, PartialEq, Eq, Structural)]
pub struct NavCon {
    pub current_state: NavConState,
    pub previous_state: NavConState,
    pub next_state: NavConState,
    pub previously_encountered_colour: Colour,
    /// Degrees to turn by in the next rotation.
    pub output_rotation: u16,
    /// The odometer reading when an outer sensor last saw a line, in mm.
    pub reference_distance: u16,
}

/// A red or green line met at `incidence` degrees: nearly parallel lines (up to
/// 5 degrees) are ignored; otherwise stop, then turn towards the side that met it.
pub open spec fn green_spec(n: NavCon, incidence: u8, side: Side) -> NavCon {
    if incidence <= 5 {
        n
    } else {
        NavCon {
            output_rotation: if incidence <= 44 { incidence as u16 } else { 5 },
            previous_state: NavConState::Forward,
            current_state: NavConState::Stop,
            next_state: if side == Side::Left { NavConState::RotateLeft } else { NavConState::RotateRight },
            previously_encountered_colour: Colour::Green,
            ..n
        }
    }
}

/// The turn that a blue or black line met at `incidence` degrees asks for.
pub open spec fn blue_rotation(incidence: u8, side: Side) -> int {
    if side == Side::Left {
        if incidence <= 90 { 90 - incidence } else { 0 }
    } else {
        90 + incidence
    }
}

/// A blue or black line: stop, then turn right; the turn is a quarter turn more
/// when the previous line met was blue too.
pub open spec fn blue_spec(n: NavCon, incidence: u8, side: Side) -> NavCon {
    NavCon {
        previous_state: NavConState::Forward,
        current_state: NavConState::Stop,
        next_state: NavConState::RotateRight,
        output_rotation: (blue_rotation(incidence, side) + if n.previously_encountered_colour
            == Colour::Blue { 90int } else { 0int }) as u16,
        previously_encountered_colour: Colour::Blue,
        ..n
    }
}

/// An inner sensor met a line of `colour`. Past `B_ISD` mm from where an outer
/// sensor met a line, only a slight correction of 5 degrees is set.
pub open spec fn handle_line_spec(n: NavCon, incidence: u8, distance: u16, colour: Colour, side: Side) -> NavCon {
    if distance as int - n.reference_distance as int > B_ISD as int {
        NavCon { output_rotation: 5, ..n }
    } else if colour == Colour::Red || colour == Colour::Green {
        green_spec(n, incidence, side)
    } else if colour == Colour::Black || colour == Colour::Blue {
        blue_spec(n, incidence, side)
    } else {
        n
    }
}

/// Moving forward, sensor `index` sees `colour`.
pub open spec fn visit_spec(n: NavCon, index: int, colour: Colour, incidence: u8, distance: u16) -> NavCon {
    if colour == Colour::White {
        n
    } else if index == 0 || index == 4 {
        NavCon { reference_distance: distance, ..n }
    } else if index == 1 {
        handle_line_spec(n, incidence, distance, colour, Side::Left)
    } else if index == 3 {
        handle_line_spec(n, incidence, distance, colour, Side::Right)
    } else {
        n
    }
}

/// Sensors `0..k` visited in order.
pub open spec fn visits_spec(n: NavCon, colours: Seq<Colour>, incidence: u8, distance: u16, k: nat) -> NavCon
    decreases k,
{
    if k == 0 {
        n
    } else {
        visit_spec(visits_spec(n, colours, incidence, distance, (k - 1) as nat), k - 1, colours[k - 1], incidence, distance)
    }
}

/// One NAVCON decision on the latest colours, incidence (degrees) and distance (mm).
pub open spec fn step_spec(n: NavCon, colours: Seq<Colour>, incidence: u8, distance: u16) -> NavCon {
    match n.current_state {
        NavConState::Forward => visits_spec(n, colours, incidence, distance, 5),
        NavConState::Reverse => if distance < 30 {
            n
        } else {
            NavCon { previous_state: NavConState::Reverse, current_state: NavConState::Stop, ..n }
        },
        NavConState::Stop => NavCon {
            current_state: if n.previous_state == NavConState::Forward {
                NavConState::Reverse
            } else {
                n.next_state
            },
            ..n
        },
        NavConState::RotateLeft => NavCon { current_state: NavConState::Forward, ..n },
        NavConState::RotateRight => NavCon { current_state: NavConState::Forward, ..n },
    }
}

/// The telemetry that NAVCON reads: colours, incidence and distance.
pub struct Reading {
    pub colours: Seq<Colour>,
    pub incidence: u8,
    pub distance: u16,
}

/// The reading before any telemetry: all white, no incidence, no distance.
pub open spec fn blank_reading() -> Reading {
    Reading {
        colours: seq![Colour::White, Colour::White, Colour::White, Colour::White, Colour::White],
        incidence: 0,
        distance: 0,
    }
}

/// What one telemetry packet changes in a reading. A colour word with a field
/// above 4 is corrupt and ignored, as are packets of other tags.
pub open spec fn read_packet_spec(r: Reading, p: Seq<u8>) -> Reading {
    let tag = control_of(p[0]);
    if tag == ControlByte::MazeDistance {
        Reading { distance: word_of(p[1], p[2]) as u16, ..r }
    } else if tag == ControlByte::MazeColours && legal_word(word_of(p[1], p[2]) as u16) {
        Reading { colours: decode_word(word_of(p[1], p[2]) as u16), ..r }
    } else if tag == ControlByte::MazeIncidence {
        Reading { incidence: p[1], ..r }
    } else {
        r
    }
}

/// The reading after the first `k` packets, later packets overriding earlier ones.
pub open spec fn parse_spec(packets: Seq<Packet>, k: nat) -> Reading
    decreases k,
{
    if k == 0 {
        blank_reading()
    } else {
        read_packet_spec(parse_spec(packets, (k - 1) as nat), packets[k - 1]@)
    }
}

/// The instruction packet that a NAVCON state sends to the motor subsystem.
pub open spec fn instruction_spec(n: NavCon) -> Seq<u8> {
    match n.current_state {
        NavConState::Forward => seq![147u8, 30u8, 30u8, 0u8],
        NavConState::Reverse => seq![147u8, 30u8, 30u8, 1u8],
        NavConState::Stop => seq![147u8, 0u8, 0u8, 0u8],
        NavConState::RotateLeft => seq![147u8, (n.output_rotation / 256) as u8, (n.output_rotation % 256) as u8, 2u8],
        NavConState::RotateRight => seq![147u8, (n.output_rotation / 256) as u8, (n.output_rotation % 256) as u8, 3u8],
    }
}

impl NavCon {
    /// Moving forward, with nothing seen yet.
    pub open spec fn new_spec() -> NavCon {
        NavCon {
            current_state: NavConState::Forward,
            previous_state: NavConState::Forward,
            next_state: NavConState::Forward,
            previously_encountered_colour: Colour::White,
            output_rotation: 0,
            reference_distance: 0,
        }
    }

    /// Moving forward, with nothing seen yet.
    pub fn new() -> (r: Self)
        ensures
            r == Self::new_spec(),
    {
        NavCon {
            current_state: NavConState::Forward,
            previous_state: NavConState::Forward,
            next_state: NavConState::Forward,
            previously_encountered_colour: Colour::White,
            output_rotation: 0,
            reference_distance: 0,
        }
    }

    pub fn get_state(&self) -> (r: NavConState)
        ensures
            r == self.current_state,
    {
        self.current_state
    }

    /// Reads colours, incidence and distance out of five telemetry packets.
    pub fn parse_packets(packets: &[Packet; 5]) -> (r: (Colours, u8, u16))
        ensures
            r.0@ == parse_spec(packets@, 5).colours,
            r.1 == parse_spec(packets@, 5).incidence,
            r.2 == parse_spec(packets@, 5).distance,
    {
        let mut colours = Colours::new();
        let mut incidence: u8 = 0;
        let mut distance: u16 = 0;
        let mut i: usize = 0;
        while i < 5
            invariant
                i <= 5,
                colours@ == parse_spec(packets@, i as nat).colours,
                incidence == parse_spec(packets@, i as nat).incidence,
                distance == parse_spec(packets@, i as nat).distance,
            decreases 5 - i,
        {
            let packet = packets[i];
            let tag = packet.control_byte();
            let word = AdjacentBytes::make(packet.dat1(), packet.dat0()).to_word();
            match tag {
                ControlByte::MazeDistance => {
                    distance = word;
                },
                ControlByte::MazeColours => {
                    match Colours::try_from_word(word) {
                        Some(c) => {
                            colours = c;
                        },
                        None => {},
                    }
                },
                ControlByte::MazeIncidence => {
                    incidence = packet.dat1();
                },
                _ => {},
            }
            i = i + 1;
        }
        (colours, incidence, distance)
    }

    fn green_encounter(&mut self, incidence: u8, side: Side)
        ensures
            *final(self) == green_spec(*old(self), incidence, side),
    {
        if incidence <= 5 {
            return;
        }
        self.output_rotation = if incidence <= 44 { incidence as u16 } else { 5 };
        self.previous_state = NavConState::Forward;
        self.current_state = NavConState::Stop;
        self.next_state = match side {
            Side::Left => NavConState::RotateLeft,
            Side::Right => NavConState::RotateRight,
        };
        self.previously_encountered_colour = Colour::Green;
    }

    fn blue_encounter(&mut self, incidence: u8, side: Side)
        ensures
            *final(self) == blue_spec(*old(self), incidence, side),
    {
        self.previous_state = NavConState::Forward;
        self.current_state = NavConState::Stop;
        self.next_state = NavConState::RotateRight;
        let turn: u16 = match side {
            Side::Left => (90u16).saturating_sub(incidence as u16),
            Side::Right => 90 + incidence as u16,
        };
        self.output_rotation = if self.previously_encountered_colour == Colour::Blue {
            turn + 90
        } else {
            turn
        };
        self.previously_encountered_colour = Colour::Blue;
    }

    fn handle_incidence_with_line(&mut self, incidence: u8, distance: u16, colour: Colour, side: Side)
        ensures
            *final(self) == handle_line_spec(*old(self), incidence, distance, colour, side),
    {
        if distance as i32 - self.reference_distance as i32 > B_ISD as i32 {
            self.output_rotation = 5;
            return;
        }
        match colour {
            Colour::Red | Colour::Green => self.green_encounter(incidence, side),
            Colour::Black | Colour::Blue => self.blue_encounter(incidence, side),
            Colour::White => {},
        }
    }

    /// One decision on the latest colours, incidence (degrees) and distance (mm).
    /// Moving forward with every sensor on white, nothing changes.
    pub fn compute(&mut self, colours: &Colours, incidence: u8, distance: u16)
        ensures
            *final(self) == step_spec(*old(self), colours@, incidence, distance),
            old(self).current_state == NavConState::Forward && (forall|i: int|
                0 <= i < 5 ==> colours@[i] == Colour::White) ==> *final(self) == *old(self),
    {
        let ghost start = *self;
        match self.current_state {
            NavConState::Forward => {
                let mut i: usize = 0;
                while i < 5
                    invariant
                        i <= 5,
                        start.current_state == NavConState::Forward,
                        *self == visits_spec(start, colours@, incidence, distance, i as nat),
                        (forall|j: int| 0 <= j < 5 ==> colours@[j] == Colour::White) ==> *self == start,
                    decreases 5 - i,
                {
                    let colour = colours.get(i);
                    if colour != Colour::White {
                        if i == 0 || i == 4 {
                            self.reference_distance = distance;
                        } else if i == 1 {
                            self.handle_incidence_with_line(incidence, distance, colour, Side::Left);
                        } else if i == 3 {
                            self.handle_incidence_with_line(incidence, distance, colour, Side::Right);
                        }
                    }
                    i = i + 1;
                }
            },
            NavConState::Reverse => {
                if distance >= 30 {
                    self.previous_state = NavConState::Reverse;
                    self.current_state = NavConState::Stop;
                }
            },
            NavConState::Stop => {
                self.current_state = match self.previous_state {
                    NavConState::Forward => NavConState::Reverse,
                    _ => self.next_state,
                };
            },
            NavConState::RotateLeft => {
                self.current_state = NavConState::Forward;
            },
            NavConState::RotateRight => {
                self.current_state = NavConState::Forward;
            },
        }
    }

    /// One decision on five telemetry packets (rotation, speeds, distance,
    /// colours, incidence, in any order).
    pub fn compute_output(&mut self, packets: [Packet; 5])
        ensures
            *final(self) == step_spec(
                *old(self),
                parse_spec(packets@, 5).colours,
                parse_spec(packets@, 5).incidence,
                parse_spec(packets@, 5).distance,
            ),
    {
        let (colours, incidence, distance) = Self::parse_packets(&packets);
        self.compute(&colours, incidence, distance);
    }

    /// The navigation instruction for the current state: drive forward or back at
    /// 30 mm/s, stop, or turn left or right by `output_rotation` degrees (big-endian).
    pub fn instruction(&self) -> (r: Packet)
        ensures
            r@ == instruction_spec(*self),
    {
        match self.current_state {
            NavConState::Forward => Packet::new(147, 30, 30, 0),
            NavConState::Reverse => Packet::new(147, 30, 30, 1),
            NavConState::Stop => Packet::new(147, 0, 0, 0),
            NavConState::RotateLeft => {
                let b = AdjacentBytes::from_word(self.output_rotation);
                proof {
                    crate::adjacent_bytes::lemma_word_round_trip(self.output_rotation);
                }
                Packet::new(147, b.msb(), b.lsb(), 2)
            },
            NavConState::RotateRight => {
                let b = AdjacentBytes::from_word(self.output_rotation);
                proof {
                    crate::adjacent_bytes::lemma_word_round_trip(self.output_rotation);
                }
                Packet::new(147, b.msb(), b.lsb(), 3)
            },
        }
    }
}

} // verus!
