//! The sensor subsystem (SS) as an event-driven state machine. It samples the maze
//! under its five sensors and reports colours and the angle of incidence.
//!
//! While it waits for a tag, packets of other tags are discarded. Where an inner
//! sensor met a line, the angle of incidence is `atan(travelled / B_ISD)` in
//! degrees; the caller computes it from `pending_incidence` and hands it back
//! through `report_incidence`.

use vstd::prelude::*;
use crate::adjacent_bytes::{word_of, AdjacentBytes};
use crate::colour::{encode_colours, Colour, Colours};
use crate::machine::SystemState;
use crate::maze::{colour_at_spec, MazeLineMap, MazeView};
use crate::packet::{control_of, views, ControlByte, Packet};

verus! {

/// Where the SS stands in its run.
#[derive(Clone, Copy, Debug, PartialEq, Eq, Structural)]
pub enum SsPhase {
    /// Waiting for a touch (16 with a first data byte of 1).
    AwaitIdleButton,
    /// Waiting for the motor subsystem's battery level (97).
    AwaitBatteryLevel,
    /// Waiting for the calibration touch (80).
    AwaitCalibrateButton,
    /// Waiting for the clap or snap report (145).
    AwaitClapSnap,
    /// Waiting for the touch report (146).
    AwaitButton,
    /// Waiting for the distance travelled (164).
    AwaitDistance,
    /// Waiting for the angle of incidence of a line that an inner sensor met,
    /// after travelling the given mm since an outer sensor met one.
    AwaitIncidence(u16),
    /// Waiting for a clap or snap to leave SOS (208 with a first data byte of 1).
    AwaitSosClapSnap,
    /// The end of the maze was reported; the run is over.
    Finished,
}

/// What an SS holds.
pub struct SsView {
    pub phase: SsPhase,
    pub maze: MazeView,
    /// The five sensor positions in whole maze pixels, sensor 0 first.
    pub positions: Seq<(i64, i64)>,
    /// The colours sampled at the start of the current maze tick.
    pub colours: Seq<Colour>,
    /// Whether every sensor saw red at that sample.
    pub end_of_maze: bool,
    /// The distance reported when an outer sensor last met a line, in mm.
    pub reference_distance: u16,
}

/// The colours under the five sensors.
pub open spec fn sample_spec(maze: MazeView, positions: Seq<(i64, i64)>) -> Seq<Colour> {
    Seq::new(5, |i: int| colour_at_spec(maze, positions[i].0 as int, positions[i].1 as int))
}

/// Whether every one of five colours is red.
pub open spec fn all_red(colours: Seq<Colour>) -> bool {
    forall|i: int| 0 <= i < 5 ==> colours[i] == Colour::Red
}

/// The start of a maze tick: sample the maze, then wait for the clap or snap report.
pub open spec fn begin_tick(s: SsView) -> SsView {
    let c = sample_spec(s.maze, s.positions);
    SsView { phase: SsPhase::AwaitClapSnap, colours: c, end_of_maze: all_red(c), ..s }
}

/// The colour and incidence packets of a maze tick.
pub open spec fn colour_report(colours: Seq<Colour>, incidence: u8) -> Seq<Seq<u8>> {
    let w = encode_colours(colours);
    seq![seq![177u8, (w / 256) as u8, (w % 256) as u8, 0u8], seq![178u8, incidence, 0u8, 0u8]]
}

/// The distance report `d` of a maze tick. At the end of the maze, say so and
/// stop. Where an outer sensor sees a line, it becomes the reference and the
/// incidence is 0; where only an inner one does, the incidence is asked for from
/// the distance travelled since the reference; else the incidence is 0.
pub open spec fn distance_spec(s: SsView, d: u16) -> (SsView, Seq<Seq<u8>>) {
    let c = s.colours;
    if s.end_of_maze {
        (SsView { phase: SsPhase::Finished, ..s }, seq![seq![179u8, 0u8, 0u8, 0u8]])
    } else if c[0] != Colour::White || c[4] != Colour::White {
        (begin_tick(SsView { reference_distance: d, ..s }), colour_report(c, 0))
    } else if c[1] != Colour::White || c[3] != Colour::White {
        let travelled = if d >= s.reference_distance { d - s.reference_distance } else { 0 };
        (SsView { phase: SsPhase::AwaitIncidence(travelled as u16), ..s }, Seq::empty())
    } else {
        (begin_tick(s), colour_report(c, 0))
    }
}

/// What one packet does to an SS.
pub open spec fn ss_step(s: SsView, p: Seq<u8>) -> (SsView, Seq<Seq<u8>>) {
    let tag = control_of(p[0]);
    match s.phase {
        SsPhase::AwaitIdleButton => if tag == ControlByte::IdleButton && p[1] == 1 {
            (SsView { phase: SsPhase::AwaitBatteryLevel, ..s }, seq![seq![112u8, 0u8, 0u8, 0u8]])
        } else {
            (s, Seq::empty())
        },
        SsPhase::AwaitBatteryLevel => if tag == ControlByte::CalibrateBatteryLevel {
            (SsView { phase: SsPhase::AwaitCalibrateButton, ..s }, seq![seq![113u8, 0u8, 0u8, 0u8]])
        } else {
            (s, Seq::empty())
        },
        SsPhase::AwaitCalibrateButton => if tag == ControlByte::CalibrateButton {
            if p[1] == 1 {
                (begin_tick(s), Seq::empty())
            } else {
                (SsView { phase: SsPhase::AwaitBatteryLevel, ..s }, Seq::empty())
            }
        } else {
            (s, Seq::empty())
        },
        SsPhase::AwaitClapSnap => if tag == ControlByte::MazeClapSnap {
            if p[1] == 1 {
                (SsView { phase: SsPhase::AwaitSosClapSnap, ..s }, Seq::empty())
            } else {
                (SsView { phase: SsPhase::AwaitButton, ..s }, Seq::empty())
            }
        } else {
            (s, Seq::empty())
        },
        SsPhase::AwaitButton => if tag == ControlByte::MazeButton {
            if p[1] == 1 {
                (SsView { phase: SsPhase::AwaitIdleButton, ..s }, Seq::empty())
            } else {
                (SsView { phase: SsPhase::AwaitDistance, ..s }, Seq::empty())
            }
        } else {
            (s, Seq::empty())
        },
        SsPhase::AwaitDistance => if tag == ControlByte::MazeDistance {
            distance_spec(s, word_of(p[1], p[2]) as u16)
        } else {
            (s, Seq::empty())
        },
        SsPhase::AwaitSosClapSnap => if tag == ControlByte::SosClapSnap && p[1] == 1 {
            (begin_tick(s), Seq::empty())
        } else {
            (s, Seq::empty())
        },
        _ => (s, Seq::empty()),
    }
}

/// The SS: its phase, the maze it samples, and what it has seen.
pub struct Ss {
    phase: SsPhase,
    maze: MazeLineMap,
    positions: [(i64, i64); 5],
    colours: Colours,
    end_of_maze: bool,
    reference_distance: u16,
}

impl View for Ss {
    type V = SsView;

    closed spec fn view(&self) -> SsView {
        SsView {
            phase: self.phase,
            maze: self.maze@,
            positions: self.positions@,
            colours: self.colours@,
            end_of_maze: self.end_of_maze,
            reference_distance: self.reference_distance,
        }
    }
}

impl Ss {
    pub open spec fn wf(&self) -> bool {
        self@.positions.len() == 5 && self@.colours.len() == 5
    }

    /// An idle SS on `maze`, its sensors at `positions` (whole maze pixels).
    pub fn new(maze: MazeLineMap, positions: [(i64, i64); 5]) -> (r: Self)
        ensures
            r.wf(),
            r@.phase == SsPhase::AwaitIdleButton,
            r@.maze == maze@,
            r@.positions == positions@,
            r@.end_of_maze == false,
            r@.reference_distance == 0,
    {
        Ss {
            phase: SsPhase::AwaitIdleButton,
            maze,
            positions,
            colours: Colours::new(),
            end_of_maze: false,
            reference_distance: 0,
        }
    }

    pub fn phase(&self) -> (r: SsPhase)
        ensures
            r == self@.phase,
    {
        self.phase
    }

    /// The subsystem state that the phase belongs to.
    pub fn get_state(&self) -> (r: SystemState)
        ensures
            r == ss_state(self@.phase),
    {
        match self.phase {
            SsPhase::AwaitIdleButton => SystemState::Idle,
            SsPhase::AwaitBatteryLevel | SsPhase::AwaitCalibrateButton => SystemState::Calibrate,
            SsPhase::AwaitSosClapSnap => SystemState::Sos,
            _ => SystemState::Maze,
        }
    }

    pub fn finished(&self) -> (r: bool)
        ensures
            r == (self@.phase == SsPhase::Finished),
    {
        self.phase == SsPhase::Finished
    }

    /// The colours sampled at the start of the current maze tick.
    pub fn colours(&self) -> (r: Colours)
        ensures
            r@ == self@.colours,
    {
        self.colours
    }

    /// Moves the sensors to `positions` (whole maze pixels), for the next sample.
    pub fn set_positions(&mut self, positions: [(i64, i64); 5])
        requires
            old(self).wf(),
        ensures
            final(self).wf(),
            final(self)@ == (SsView { positions: positions@, ..old(self)@ }),
    {
        self.positions = positions;
    }

    /// The distance travelled (mm) whose angle of incidence is awaited, if any.
    pub fn pending_incidence(&self) -> (r: Option<u16>)
        ensures
            self@.phase is AwaitIncidence ==> r == Some(self@.phase->AwaitIncidence_0),
            !(self@.phase is AwaitIncidence) ==> r.is_none(),
    {
        match self.phase {
            SsPhase::AwaitIncidence(t) => Some(t),
            _ => None,
        }
    }

    fn begin_tick(&mut self)
        requires
            old(self).wf(),
        ensures
            final(self).wf(),
            final(self)@ == begin_tick(old(self)@),
    {
        let mut c: [Colour; 5] = [Colour::White; 5];
        let mut i: usize = 0;
        while i < 5
            invariant
                i <= 5,
                self.wf(),
                self@ == old(self)@,
                c@.len() == 5,
                forall|j: int| 0 <= j < i ==> c@[j] == sample_spec(self@.maze, self@.positions)[j],
            decreases 5 - i,
        {
            let (x, y) = self.positions[i];
            c[i] = self.maze.colour_at(x, y);
            i = i + 1;
        }
        let colours = Colours::from_array(c);
        let mut all_red = true;
        let mut k: usize = 0;
        while k < 5
            invariant
                k <= 5,
                colours@ == c@,
                all_red == (forall|j: int| 0 <= j < k ==> c@[j] == Colour::Red),
            decreases 5 - k,
        {
            if colours.get(k) != Colour::Red {
                all_red = false;
            }
            k = k + 1;
        }
        assert(c@ =~= sample_spec(self@.maze, self@.positions));
        self.colours = colours;
        self.end_of_maze = all_red;
        self.phase = SsPhase::AwaitClapSnap;
    }

    fn colour_report(&self, incidence: u8, out: &mut Vec<Packet>)
        requires
            self.wf(),
        ensures
            views(final(out)@) == views(old(out)@) + colour_report(self@.colours, incidence),
    {
        let word = AdjacentBytes::from_word(self.colours.pack());
        proof {
            crate::adjacent_bytes::lemma_word_round_trip(encode_colours(self@.colours));
        }
        out.push(Packet::new(177, word.msb(), word.lsb(), 0));
        out.push(Packet::new(178, incidence, 0, 0));
        assert(views(out@) =~= views(old(out)@) + colour_report(self@.colours, incidence));
    }

    /// Hands one packet to the SS and returns the packets it sends in answer.
    pub fn on_packet(&mut self, packet: Packet) -> (r: Vec<Packet>)
        requires
            old(self).wf(),
            !(old(self)@.phase is AwaitIncidence),
        ensures
            final(self).wf(),
            (final(self)@, views(r@)) == ss_step(old(self)@, packet@),
    {
        let mut out: Vec<Packet> = Vec::new();
        let tag = packet.control_byte();
        let d1 = packet.dat1();
        match self.phase {
            SsPhase::AwaitIdleButton => {
                if tag == ControlByte::IdleButton && d1 == 1 {
                    out.push(Packet::new(112, 0, 0, 0));
                    self.phase = SsPhase::AwaitBatteryLevel;
                }
            },
            SsPhase::AwaitBatteryLevel => {
                if tag == ControlByte::CalibrateBatteryLevel {
                    out.push(Packet::new(113, 0, 0, 0));
                    self.phase = SsPhase::AwaitCalibrateButton;
                }
            },
            SsPhase::AwaitCalibrateButton => {
                if tag == ControlByte::CalibrateButton {
                    if d1 == 1 {
                        self.begin_tick();
                    } else {
                        self.phase = SsPhase::AwaitBatteryLevel;
                    }
                }
            },
            SsPhase::AwaitClapSnap => {
                if tag == ControlByte::MazeClapSnap {
                    self.phase = if d1 == 1 { SsPhase::AwaitSosClapSnap } else { SsPhase::AwaitButton };
                }
            },
            SsPhase::AwaitButton => {
                if tag == ControlByte::MazeButton {
                    self.phase = if d1 == 1 { SsPhase::AwaitIdleButton } else { SsPhase::AwaitDistance };
                }
            },
            SsPhase::AwaitDistance => {
                if tag == ControlByte::MazeDistance {
                    let d = AdjacentBytes::make(d1, packet.dat0()).to_word();
                    self.on_distance(d, &mut out);
                }
            },
            SsPhase::AwaitSosClapSnap => {
                if tag == ControlByte::SosClapSnap && d1 == 1 {
                    self.begin_tick();
                }
            },
            _ => {},
        }
        assert(views(out@) =~= ss_step(old(self)@, packet@).1);
        out
    }

    fn on_distance(&mut self, d: u16, out: &mut Vec<Packet>)
        requires
            old(self).wf(),
            old(out)@.len() == 0,
        ensures
            final(self).wf(),
            (final(self)@, views(final(out)@)) == distance_spec(old(self)@, d),
    {
        let c0 = self.colours.get(0);
        let c1 = self.colours.get(1);
        let c3 = self.colours.get(3);
        let c4 = self.colours.get(4);
        if self.end_of_maze {
            out.push(Packet::new(179, 0, 0, 0));
            self.phase = SsPhase::Finished;
            assert(views(out@) =~= seq![seq![179u8, 0u8, 0u8, 0u8]]);
        } else if c0 != Colour::White || c4 != Colour::White {
            self.reference_distance = d;
            self.colour_report(0, out);
            self.begin_tick();
            assert(views(out@) =~= colour_report(old(self)@.colours, 0));
        } else if c1 != Colour::White || c3 != Colour::White {
            let travelled = if d >= self.reference_distance { d - self.reference_distance } else { 0 };
            self.phase = SsPhase::AwaitIncidence(travelled);
            assert(views(out@) =~= Seq::<Seq<u8>>::empty());
        } else {
            self.colour_report(0, out);
            self.begin_tick();
            assert(views(out@) =~= colour_report(old(self)@.colours, 0));
        }
    }

    /// Hands over the angle of incidence (degrees) that `pending_incidence` asked
    /// for; the colours and the incidence are reported and the next maze tick begins.
    pub fn report_incidence(&mut self, incidence: u8) -> (r: Vec<Packet>)
        requires
            old(self).wf(),
            old(self)@.phase is AwaitIncidence,
        ensures
            final(self).wf(),
            final(self)@ == begin_tick(old(self)@),
            views(r@) == colour_report(old(self)@.colours, incidence),
    {
        let mut out: Vec<Packet> = Vec::new();
        self.colour_report(incidence, &mut out);
        self.begin_tick();
        assert(views(out@) =~= colour_report(old(self)@.colours, incidence));
        out
    }
}

/// The subsystem state of an SS phase.
pub open spec fn ss_state(phase: SsPhase) -> SystemState {
    match phase {
        SsPhase::AwaitIdleButton => SystemState::Idle,
        SsPhase::AwaitBatteryLevel | SsPhase::AwaitCalibrateButton => SystemState::Calibrate,
        SsPhase::AwaitSosClapSnap => SystemState::Sos,
        _ => SystemState::Maze,
    }
}

} // verus!
