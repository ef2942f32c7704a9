//! The state and navigation control subsystem (SNC) as an event-driven state
//! machine: it is handed each packet addressed to it and answers with the packets
//! it sends.
//!
//! Packets are synchronisation tokens: while it waits for a tag, packets of other
//! tags are discarded.

use vstd::prelude::*;
use crate::machine::SystemState;
use crate::navcon::{instruction_spec, parse_spec, step_spec, NavCon};
use crate::packet::{control_of, views, ControlByte, Packet};

verus! {

/// Where the SNC stands in its run.
#[derive(Clone, Copy, Debug, PartialEq, Eq, Structural)]
pub enum SncPhase {
    /// About to announce the touch that starts the run.
    Idle,
    /// Waiting for the sensor subsystem's colour calibration (113).
    AwaitColourCalibration,
    /// About to run one navigation tick.
    MazeTick,
    /// Waiting for the motor subsystem's battery level (161).
    AwaitBatteryLevel,
    /// Reading telemetry packet `n` (0 to 4) of the current batch.
    Telemetry(usize),
    /// Waiting for the motor subsystem's SOS speed report (228).
    Sos,
    /// The end of the maze was reported; the run is over.
    Finished,
}

/// What an SNC holds.
pub struct SncView {
    pub phase: SncPhase,
    pub navcon: NavCon,
    /// The latest telemetry batch: five packets.
    pub telemetry: Seq<Packet>,
}

/// The packets of one navigation tick: no clap or snap, no touch, then the
/// navigation instruction of NAVCON's new state.
pub open spec fn tick_out(n: NavCon) -> Seq<Seq<u8>> {
    seq![seq![145u8, 0u8, 0u8, 0u8], seq![146u8, 0u8, 0u8, 0u8], instruction_spec(n)]
}

/// The work that needs no packet: the start of a run announces a touch at
/// 100 mm/s, a navigation tick runs NAVCON on the latest telemetry.
pub open spec fn snc_settle(s: SncView) -> (SncView, Seq<Seq<u8>>) {
    match s.phase {
        SncPhase::Idle => (
            SncView { phase: SncPhase::AwaitColourCalibration, ..s },
            seq![seq![16u8, 1u8, 100u8, 0u8]],
        ),
        SncPhase::MazeTick => {
            let r = parse_spec(s.telemetry, 5);
            let n = step_spec(s.navcon, r.colours, r.incidence, r.distance);
            (SncView { phase: SncPhase::AwaitBatteryLevel, navcon: n, ..s }, tick_out(n))
        },
        _ => (s, Seq::empty()),
    }
}

/// What one packet does to an SNC before the work that follows needing no packet.
pub open spec fn snc_receive(s: SncView, p: Packet) -> (SncView, Seq<Seq<u8>>) {
    let tag = control_of(p@[0]);
    match s.phase {
        SncPhase::AwaitColourCalibration => if tag == ControlByte::CalibrateColours {
            (SncView { phase: SncPhase::MazeTick, ..s }, seq![seq![80u8, 1u8, 0u8, 0u8]])
        } else {
            (s, Seq::empty())
        },
        SncPhase::AwaitBatteryLevel => if tag == ControlByte::MazeBatteryLevel {
            (SncView { phase: SncPhase::Telemetry(0), ..s }, Seq::empty())
        } else {
            (s, Seq::empty())
        },
        SncPhase::Telemetry(k) => {
            let t = s.telemetry.update(k as int, p);
            if tag == ControlByte::MazeEndOfMaze {
                (SncView { phase: SncPhase::Finished, telemetry: t, ..s }, Seq::empty())
            } else if k >= 4 {
                (SncView { phase: SncPhase::MazeTick, telemetry: t, ..s }, Seq::empty())
            } else {
                (SncView { phase: SncPhase::Telemetry((k + 1) as usize), telemetry: t, ..s }, Seq::empty())
            }
        },
        SncPhase::Sos => if tag == ControlByte::SosSpeed {
            (SncView { phase: SncPhase::Idle, ..s }, seq![seq![208u8, 1u8, 0u8, 0u8]])
        } else {
            (s, Seq::empty())
        },
        _ => (s, Seq::empty()),
    }
}

/// A packet's full effect: its own, then the work that follows needing no packet.
pub open spec fn snc_step(s: SncView, p: Packet) -> (SncView, Seq<Seq<u8>>) {
    let (s1, out1) = snc_receive(s, p);
    let (s2, out2) = snc_settle(s1);
    (s2, out1 + out2)
}

/// The SNC: its phase, its NAVCON and the latest telemetry batch.
#[derive(Debug)]
pub struct Snc {
    phase: SncPhase,
    navcon: NavCon,
    telemetry: [Packet; 5],
}

impl View for Snc {
    type V = SncView;

    closed spec fn view(&self) -> SncView {
        SncView { phase: self.phase, navcon: self.navcon, telemetry: self.telemetry@ }
    }
}

impl Snc {
    /// Five telemetry packets, and a phase that reads within them.
    pub open spec fn wf(&self) -> bool {
        &&& self@.telemetry.len() == 5
        &&& (self@.phase matches SncPhase::Telemetry(k) ==> k < 5)
    }

    /// An SNC at the start of a run, with blank telemetry.
    pub fn new() -> (r: Self)
        ensures
            r.wf(),
            r@.phase == SncPhase::Idle,
            r@.navcon == NavCon::new_spec(),
            r@.telemetry == seq![
                Packet::spec_new(162, 0, 0, 0),
                Packet::spec_new(163, 0, 0, 0),
                Packet::spec_new(164, 0, 0, 0),
                Packet::spec_new(177, 0, 0, 0),
                Packet::spec_new(178, 0, 0, 0),
            ],
    {
        let telemetry = [
            Packet::new(162, 0, 0, 0),
            Packet::new(163, 0, 0, 0),
            Packet::new(164, 0, 0, 0),
            Packet::new(177, 0, 0, 0),
            Packet::new(178, 0, 0, 0),
        ];
        let r = Snc { phase: SncPhase::Idle, navcon: NavCon::new(), telemetry };
        assert(r@.telemetry =~= seq![
            Packet::spec_new(162, 0, 0, 0),
            Packet::spec_new(163, 0, 0, 0),
            Packet::spec_new(164, 0, 0, 0),
            Packet::spec_new(177, 0, 0, 0),
            Packet::spec_new(178, 0, 0, 0),
        ]);
        r
    }

    /// The subsystem state that the phase belongs to.
    pub fn get_state(&self) -> (r: SystemState)
        ensures
            r == snc_state(self@.phase),
    {
        match self.phase {
            SncPhase::Idle => SystemState::Idle,
            SncPhase::AwaitColourCalibration => SystemState::Calibrate,
            SncPhase::Sos => SystemState::Sos,
            _ => SystemState::Maze,
        }
    }

    pub fn phase(&self) -> (r: SncPhase)
        ensures
            r == self@.phase,
    {
        self.phase
    }

    pub fn navcon(&self) -> (r: NavCon)
        ensures
            r == self@.navcon,
    {
        self.navcon
    }

    /// Whether the end of the maze has been reported.
    pub fn finished(&self) -> (r: bool)
        ensures
            r == (self@.phase == SncPhase::Finished),
    {
        self.phase == SncPhase::Finished
    }

    /// Does the work that needs no packet (the opening touch, or a navigation
    /// tick) and returns the packets to send.
    pub fn start(&mut self) -> (r: Vec<Packet>)
        requires
            old(self).wf(),
        ensures
            final(self).wf(),
            (final(self)@, views(r@)) == snc_settle(old(self)@),
    {
        let mut out: Vec<Packet> = Vec::new();
        self.settle(&mut out);
        assert(views(out@) =~= snc_settle(old(self)@).1);
        out
    }

    fn settle(&mut self, out: &mut Vec<Packet>)
        requires
            old(self).wf(),
        ensures
            final(self).wf(),
            final(self)@ == snc_settle(old(self)@).0,
            views(final(out)@) == views(old(out)@) + snc_settle(old(self)@).1,
    {
        match self.phase {
            SncPhase::Idle => {
                out.push(Packet::new(16, 1, 100, 0));
                self.phase = SncPhase::AwaitColourCalibration;
                assert(views(out@) =~= views(old(out)@) + snc_settle(old(self)@).1);
            },
            SncPhase::MazeTick => {
                out.push(Packet::new(145, 0, 0, 0));
                out.push(Packet::new(146, 0, 0, 0));
                self.navcon.compute_output(self.telemetry);
                out.push(self.navcon.instruction());
                self.phase = SncPhase::AwaitBatteryLevel;
                assert(views(out@) =~= views(old(out)@) + snc_settle(old(self)@).1);
            },
            _ => {
                assert(views(out@) =~= views(old(out)@) + snc_settle(old(self)@).1);
            },
        }
    }

    /// Hands one packet to the SNC and returns the packets it sends in answer.
    pub fn on_packet(&mut self, packet: Packet) -> (r: Vec<Packet>)
        requires
            old(self).wf(),
        ensures
            final(self).wf(),
            (final(self)@, views(r@)) == snc_step(old(self)@, packet),
    {
        let mut out: Vec<Packet> = Vec::new();
        let tag = packet.control_byte();
        match self.phase {
            SncPhase::AwaitColourCalibration => {
                if tag == ControlByte::CalibrateColours {
                    out.push(Packet::new(80, 1, 0, 0));
                    self.phase = SncPhase::MazeTick;
                }
            },
            SncPhase::AwaitBatteryLevel => {
                if tag == ControlByte::MazeBatteryLevel {
                    self.phase = SncPhase::Telemetry(0);
                }
            },
            SncPhase::Telemetry(k) => {
                self.telemetry[k] = packet;
                if tag == ControlByte::MazeEndOfMaze {
                    self.phase = SncPhase::Finished;
                } else if k >= 4 {
                    self.phase = SncPhase::MazeTick;
                } else {
                    self.phase = SncPhase::Telemetry(k + 1);
                }
            },
            SncPhase::Sos => {
                if tag == ControlByte::SosSpeed {
                    out.push(Packet::new(208, 1, 0, 0));
                    self.phase = SncPhase::Idle;
                }
            },
            _ => {},
        }
        let ghost mid = self@;
        let ghost first = out@;
        assert((mid, views(first)) == snc_receive(old(self)@, packet)) by {
            assert(self@.telemetry =~= snc_receive(old(self)@, packet).0.telemetry);
            assert(views(first) =~= snc_receive(old(self)@, packet).1);
        }
        self.settle(&mut out);
        assert(views(out@) =~= views(first) + snc_settle(mid).1);
        out
    }
}

/// The subsystem state of an SNC phase.
pub open spec fn snc_state(phase: SncPhase) -> SystemState {
    match phase {
        SncPhase::Idle => SystemState::Idle,
        SncPhase::AwaitColourCalibration => SystemState::Calibrate,
        SncPhase::Sos => SystemState::Sos,
        _ => SystemState::Maze,
    }
}

} // verus!
