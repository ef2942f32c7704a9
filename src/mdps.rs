//! The motor-driver and power subsystem (MDPS) as an event-driven state machine.
//! It turns navigation instructions into wheel speeds, reports motion telemetry,
//! and hands wheel-speed samples to the pose computer.
//!
//! While it waits for a tag, packets of other tags are discarded. A rotation is
//! driven by clock ticks: while `rotating`, the caller calls `tick` instead of
//! handing over packets.

use vstd::prelude::*;
use crate::adjacent_bytes::{word_of, AdjacentBytes};
use crate::machine::SystemState;
use crate::packet::{control_of, views, ControlByte, Packet};
use crate::wheels::{abs, after_update, distance_mm, rotation_degrees, Wheels, WheelsView};

verus! {

/// Where the MDPS stands in its run.
#[derive(Clone, Copy, Debug, PartialEq, Eq, Structural)]
pub enum MdpsPhase {
    /// Waiting for a touch (16 with a first data byte of 1).
    AwaitIdleButton,
    /// Waiting for the sensor subsystem to report it is calibrated (112).
    AwaitCalibrated,
    /// Waiting for the colour calibration (113).
    AwaitCalibrateColours,
    /// Waiting for the calibration touch (80).
    AwaitCalibrateButton,
    /// Waiting for the next maze packet.
    Maze,
    /// Turning until the rotation reaches the given number of degrees.
    Rotating(u16),
    /// Stopped, waiting for a clap or snap (208 with a first data byte of 1).
    AwaitSosClapSnap,
    /// The end of the maze was reported; the run is over.
    Finished,
}

/// What an MDPS holds.
pub struct MdpsView {
    pub phase: MdpsPhase,
    pub wheels: WheelsView,
    /// The speed chosen at the touch that started the run, in mm/s.
    pub operational_velocity: u8,
}

/// What an MDPS sends in answer to one event: packets for the other subsystems,
/// and wheel-speed samples (left, right) for the pose computer.
pub struct MdpsOutput {
    pub packets: Vec<Packet>,
    pub speeds: Vec<(i16, i16)>,
}

/// The telemetry that closes a navigation instruction: battery level, rotation
/// (low byte first) with its direction, wheel speeds with their direction, and
/// distance (high byte first).
pub open spec fn report_spec(w: WheelsView) -> Seq<Seq<u8>> {
    let rot = rotation_degrees(w);
    let dist = distance_mm(w);
    seq![
        seq![161u8, 0u8, 0u8, 0u8],
        seq![162u8, (rot % 256) as u8, (rot / 256) as u8, if w.right_speed > 0 { 2u8 } else { 3u8 }],
        seq![
            163u8,
            (abs(w.left_speed as int) % 256) as u8,
            (abs(w.right_speed as int) % 256) as u8,
            if w.left_speed + w.right_speed >= 2 { 0u8 } else { 1u8 },
        ],
        seq![164u8, (dist / 256) as u8, (dist % 256) as u8, 0u8],
    ]
}

/// The wheel speeds that a navigation instruction sets: subcode 0 drives at
/// `(dat1, dat0)`, 1 backs at those speeds, 2 and 3 pivot left and right at the
/// operational velocity; other subcodes leave the speeds.
pub open spec fn instructed_speeds(w: WheelsView, p: Seq<u8>, v: u8) -> WheelsView {
    if p[3] == 0 {
        WheelsView { left_speed: p[1] as i16, right_speed: p[2] as i16, ..w }
    } else if p[3] == 1 {
        WheelsView { left_speed: -p[1] as i16, right_speed: -p[2] as i16, ..w }
    } else if p[3] == 2 {
        WheelsView { left_speed: v as i16, right_speed: -v as i16, ..w }
    } else if p[3] == 3 {
        WheelsView { left_speed: -v as i16, right_speed: v as i16, ..w }
    } else {
        w
    }
}

/// What a packet does, except a navigation instruction in the maze, which reads
/// the clock.
pub open spec fn mdps_receive(s: MdpsView, p: Seq<u8>) -> (MdpsView, Seq<Seq<u8>>) {
    let tag = control_of(p[0]);
    match s.phase {
        MdpsPhase::AwaitIdleButton => if tag == ControlByte::IdleButton && p[1] == 1 {
            (MdpsView { phase: MdpsPhase::AwaitCalibrated, operational_velocity: p[2], ..s }, Seq::empty())
        } else {
            (s, Seq::empty())
        },
        MdpsPhase::AwaitCalibrated => if tag == ControlByte::Calibrated {
            (
                MdpsView { phase: MdpsPhase::AwaitCalibrateColours, ..s },
                seq![
                    seq![96u8, s.operational_velocity, s.operational_velocity, 0u8],
                    seq![97u8, 0u8, 0u8, 0u8],
                ],
            )
        } else {
            (s, Seq::empty())
        },
        MdpsPhase::AwaitCalibrateColours => if tag == ControlByte::CalibrateColours {
            (MdpsView { phase: MdpsPhase::AwaitCalibrateButton, ..s }, Seq::empty())
        } else {
            (s, Seq::empty())
        },
        MdpsPhase::AwaitCalibrateButton => if tag == ControlByte::CalibrateButton {
            if p[1] == 1 {
                (MdpsView { phase: MdpsPhase::Maze, ..s }, Seq::empty())
            } else {
                (MdpsView { phase: MdpsPhase::AwaitCalibrateColours, ..s }, seq![seq![97u8, 0u8, 0u8, 0u8]])
            }
        } else {
            (s, Seq::empty())
        },
        MdpsPhase::Maze => if tag == ControlByte::MazeClapSnap && p[1] == 1 {
            (
                MdpsView {
                    phase: MdpsPhase::AwaitSosClapSnap,
                    wheels: WheelsView { left_speed: 0, right_speed: 0, ..s.wheels },
                    ..s
                },
                seq![seq![228u8, 0u8, 0u8, 0u8]],
            )
        } else if tag == ControlByte::MazeButton && p[1] == 1 {
            (MdpsView { phase: MdpsPhase::AwaitIdleButton, ..s }, Seq::empty())
        } else if tag == ControlByte::MazeEndOfMaze {
            (MdpsView { phase: MdpsPhase::Finished, ..s }, Seq::empty())
        } else {
            (s, Seq::empty())
        },
        MdpsPhase::AwaitSosClapSnap => if tag == ControlByte::SosClapSnap && p[1] == 1 {
            (MdpsView { phase: MdpsPhase::Maze, ..s }, Seq::empty())
        } else {
            (s, Seq::empty())
        },
        _ => (s, Seq::empty()),
    }
}

/// Whether a packet is a navigation instruction reaching an MDPS in the maze.
pub open spec fn is_instruction(s: MdpsView, p: Seq<u8>) -> bool {
    s.phase == MdpsPhase::Maze && control_of(p[0]) == ControlByte::MazeNavInstructions
}

/// The MDPS: its phase, its wheels and the operational velocity.
#[derive(Debug)]
pub struct Mdps {
    phase: MdpsPhase,
    wheels: Wheels,
    operational_velocity: u8,
}

impl View for Mdps {
    type V = MdpsView;

    closed spec fn view(&self) -> MdpsView {
        MdpsView { phase: self.phase, wheels: self.wheels@, operational_velocity: self.operational_velocity }
    }
}

impl Mdps {
    pub open spec fn wf(&self) -> bool {
        self@.wheels.axle > 0
    }

    /// An idle MDPS driving the given wheels.
    pub fn new(wheels: Wheels) -> (r: Self)
        requires
            wheels.wf(),
        ensures
            r.wf(),
            r@.phase == MdpsPhase::AwaitIdleButton,
            r@.wheels == wheels@,
            r@.operational_velocity == 0,
    {
        Mdps { phase: MdpsPhase::AwaitIdleButton, wheels, operational_velocity: 0 }
    }

    pub fn phase(&self) -> (r: MdpsPhase)
        ensures
            r == self@.phase,
    {
        self.phase
    }

    /// The subsystem state that the phase belongs to.
    pub fn get_state(&self) -> (r: SystemState)
        ensures
            r == mdps_state(self@.phase),
    {
        match self.phase {
            MdpsPhase::AwaitIdleButton => SystemState::Idle,
            MdpsPhase::AwaitCalibrated | MdpsPhase::AwaitCalibrateColours
            | MdpsPhase::AwaitCalibrateButton => SystemState::Calibrate,
            MdpsPhase::AwaitSosClapSnap => SystemState::Sos,
            _ => SystemState::Maze,
        }
    }

    pub fn wheels(&self) -> (r: &Wheels)
        ensures
            r@ == self@.wheels,
    {
        &self.wheels
    }

    /// Whether a rotation is in progress, to be driven by `tick`.
    pub fn rotating(&self) -> (r: bool)
        ensures
            r == (self@.phase is Rotating),
    {
        match self.phase {
            MdpsPhase::Rotating(_) => true,
            _ => false,
        }
    }

    pub fn finished(&self) -> (r: bool)
        ensures
            r == (self@.phase == MdpsPhase::Finished),
    {
        self.phase == MdpsPhase::Finished
    }

    fn report(&self, out: &mut MdpsOutput)
        requires
            self.wf(),
        ensures
            views(final(out).packets@) == views(old(out).packets@) + report_spec(self@.wheels),
            final(out).speeds@ == old(out).speeds@.push((self@.wheels.left_speed, self@.wheels.right_speed)),
    {
        out.speeds.push((self.wheels.get_left(), self.wheels.get_right()));
        let rot = AdjacentBytes::from_word(self.wheels.get_rotation());
        let dist = AdjacentBytes::from_word(self.wheels.get_distance());
        proof {
            crate::adjacent_bytes::lemma_word_round_trip(rotation_degrees(self@.wheels) as u16);
            crate::adjacent_bytes::lemma_word_round_trip(distance_mm(self@.wheels) as u16);
        }
        out.packets.push(Packet::new(161, 0, 0, 0));
        out.packets.push(Packet::new(162, rot.lsb(), rot.msb(), if self.wheels.left_rotation() { 2 } else { 3 }));
        out.packets.push(Packet::new(
            163,
            self.wheels.get_left_wheel_speed(),
            self.wheels.get_right_wheel_speed(),
            if self.wheels.going_forward() { 0 } else { 1 },
        ));
        out.packets.push(Packet::new(164, dist.msb(), dist.lsb(), 0));
        assert(views(out.packets@) =~= views(old(out).packets@) + report_spec(self@.wheels));
    }

    /// Hands one packet to the MDPS and returns what it sends in answer. A
    /// navigation instruction sets the wheel speeds and integrates them once over
    /// the time since the last update; a straight drive then reports at once, a
    /// pivot starts a rotation to the degrees in `(dat1, dat0)`.
    pub fn on_packet(&mut self, packet: Packet) -> (r: MdpsOutput)
        requires
            old(self).wf(),
            !(old(self)@.phase is Rotating),
        ensures
            final(self).wf(),
            !is_instruction(old(self)@, packet@) ==> r.speeds@.len() == 0 && (final(self)@, views(r.packets@))
                == mdps_receive(old(self)@, packet@),
            is_instruction(old(self)@, packet@) ==> {
                let set = instructed_speeds(old(self)@.wheels, packet@, old(self)@.operational_velocity);
                &&& final(self)@.operational_velocity == old(self)@.operational_velocity
                &&& after_update(set, final(self)@.wheels)
                &&& (packet@[3] == 2 || packet@[3] == 3) ==> final(self)@.phase == MdpsPhase::Rotating(
                    word_of(packet@[1], packet@[2]) as u16,
                ) && r.packets@.len() == 0 && r.speeds@.len() == 0
                &&& !(packet@[3] == 2 || packet@[3] == 3) ==> final(self)@.phase == MdpsPhase::Maze
                    && views(r.packets@) == report_spec(final(self)@.wheels)
                    && r.speeds@ == seq![(final(self)@.wheels.left_speed, final(self)@.wheels.right_speed)]
            },
    {
        let mut out = MdpsOutput { packets: Vec::new(), speeds: Vec::new() };
        let tag = packet.control_byte();
        let d1 = packet.dat1();
        match self.phase {
            MdpsPhase::AwaitIdleButton => {
                if tag == ControlByte::IdleButton && d1 == 1 {
                    self.operational_velocity = packet.dat0();
                    self.phase = MdpsPhase::AwaitCalibrated;
                }
            },
            MdpsPhase::AwaitCalibrated => {
                if tag == ControlByte::Calibrated {
                    let v = self.operational_velocity;
                    out.packets.push(Packet::new(96, v, v, 0));
                    out.packets.push(Packet::new(97, 0, 0, 0));
                    self.phase = MdpsPhase::AwaitCalibrateColours;
                }
            },
            MdpsPhase::AwaitCalibrateColours => {
                if tag == ControlByte::CalibrateColours {
                    self.phase = MdpsPhase::AwaitCalibrateButton;
                }
            },
            MdpsPhase::AwaitCalibrateButton => {
                if tag == ControlByte::CalibrateButton {
                    if d1 == 1 {
                        self.phase = MdpsPhase::Maze;
                    } else {
                        out.packets.push(Packet::new(97, 0, 0, 0));
                        self.phase = MdpsPhase::AwaitCalibrateColours;
                    }
                }
            },
            MdpsPhase::Maze => {
                if tag == ControlByte::MazeClapSnap && d1 == 1 {
                    self.wheels.set_left_wheel_speed(0);
                    self.wheels.set_right_wheel_speed(0);
                    out.packets.push(Packet::new(228, 0, 0, 0));
                    self.phase = MdpsPhase::AwaitSosClapSnap;
                } else if tag == ControlByte::MazeButton && d1 == 1 {
                    self.phase = MdpsPhase::AwaitIdleButton;
                } else if tag == ControlByte::MazeNavInstructions {
                    self.follow_instruction(packet, &mut out);
                } else if tag == ControlByte::MazeEndOfMaze {
                    self.phase = MdpsPhase::Finished;
                }
            },
            MdpsPhase::AwaitSosClapSnap => {
                if tag == ControlByte::SosClapSnap && d1 == 1 {
                    self.phase = MdpsPhase::Maze;
                }
            },
            _ => {},
        }
        proof {
            if !is_instruction(old(self)@, packet@) {
                assert(views(out.packets@) =~= mdps_receive(old(self)@, packet@).1);
            }
        }
        out
    }

    fn follow_instruction(&mut self, packet: Packet, out: &mut MdpsOutput)
        requires
            old(self).wf(),
            old(self)@.phase == MdpsPhase::Maze,
            old(out).packets@.len() == 0,
            old(out).speeds@.len() == 0,
        ensures
            final(self).wf(),
            ({
                let set = instructed_speeds(old(self)@.wheels, packet@, old(self)@.operational_velocity);
                &&& final(self)@.operational_velocity == old(self)@.operational_velocity
                &&& after_update(set, final(self)@.wheels)
                &&& (packet@[3] == 2 || packet@[3] == 3) ==> final(self)@.phase == MdpsPhase::Rotating(
                    word_of(packet@[1], packet@[2]) as u16,
                ) && final(out).packets@.len() == 0 && final(out).speeds@.len() == 0
                &&& !(packet@[3] == 2 || packet@[3] == 3) ==> final(self)@.phase == MdpsPhase::Maze
                    && views(final(out).packets@) == report_spec(final(self)@.wheels)
                    && final(out).speeds@ == seq![(final(self)@.wheels.left_speed, final(self)@.wheels.right_speed)]
            }),
    {
        let d1 = packet.dat1();
        let d0 = packet.dat0();
        let v = self.operational_velocity;
        let sub = packet.dec();
        if sub == 0 {
            self.wheels.set_left_wheel_speed(d1 as i16);
            self.wheels.set_right_wheel_speed(d0 as i16);
        } else if sub == 1 {
            self.wheels.set_left_wheel_speed(-(d1 as i16));
            self.wheels.set_right_wheel_speed(-(d0 as i16));
        } else if sub == 2 {
            self.wheels.set_left_wheel_speed(v as i16);
            self.wheels.set_right_wheel_speed(-(v as i16));
        } else if sub == 3 {
            self.wheels.set_left_wheel_speed(-(v as i16));
            self.wheels.set_right_wheel_speed(v as i16);
        }
        self.wheels.update_distance();
        if sub == 2 || sub == 3 {
            let target = AdjacentBytes::make(d1, d0).to_word();
            self.phase = MdpsPhase::Rotating(target);
        } else {
            self.report(out);
            assert(views(out.packets@) =~= report_spec(self@.wheels));
            assert(out.speeds@ =~= seq![(self@.wheels.left_speed, self@.wheels.right_speed)]);
        }
    }

    /// Drives a rotation on by one clock tick. Short of the target rotation, the
    /// wheels are integrated once more and a speed sample is sent; at the target,
    /// the instruction closes with a last speed sample and its telemetry.
    pub fn tick(&mut self) -> (r: MdpsOutput)
        requires
            old(self).wf(),
            old(self)@.phase is Rotating,
        ensures
            final(self).wf(),
            final(self)@.operational_velocity == old(self)@.operational_velocity,
            rotation_degrees(old(self)@.wheels) < old(self)@.phase->Rotating_0 ==> {
                &&& final(self)@.phase == old(self)@.phase
                &&& after_update(old(self)@.wheels, final(self)@.wheels)
                &&& r.packets@.len() == 0
                &&& r.speeds@ == seq![(final(self)@.wheels.left_speed, final(self)@.wheels.right_speed)]
            },
            rotation_degrees(old(self)@.wheels) >= old(self)@.phase->Rotating_0 ==> {
                &&& final(self)@.phase == MdpsPhase::Maze
                &&& final(self)@.wheels == old(self)@.wheels
                &&& views(r.packets@) == report_spec(old(self)@.wheels)
                &&& r.speeds@ == seq![(old(self)@.wheels.left_speed, old(self)@.wheels.right_speed)]
            },
    {
        let mut out = MdpsOutput { packets: Vec::new(), speeds: Vec::new() };
        let target = match self.phase {
            MdpsPhase::Rotating(t) => t,
            _ => 0,
        };
        if self.wheels.get_rotation() < target {
            self.wheels.update_distance();
            out.speeds.push((self.wheels.get_left(), self.wheels.get_right()));
            assert(out.speeds@ =~= seq![(self@.wheels.left_speed, self@.wheels.right_speed)]);
        } else {
            self.report(&mut out);
            self.phase = MdpsPhase::Maze;
            assert(views(out.packets@) =~= report_spec(old(self)@.wheels));
            assert(out.speeds@ =~= seq![(self@.wheels.left_speed, self@.wheels.right_speed)]);
        }
        out
    }
}

/// The subsystem state of an MDPS phase.
pub open spec fn mdps_state(phase: MdpsPhase) -> SystemState {
    match phase {
        MdpsPhase::AwaitIdleButton => SystemState::Idle,
        MdpsPhase::AwaitCalibrated | MdpsPhase::AwaitCalibrateColours
        | MdpsPhase::AwaitCalibrateButton => SystemState::Calibrate,
        MdpsPhase::AwaitSosClapSnap => SystemState::Sos,
        _ => SystemState::Maze,
    }
}

} // verus!
