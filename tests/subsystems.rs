use std::collections::VecDeque;

use marv_emu::colour::Colour;
use marv_emu::machine::SystemState;
use marv_emu::maze::MazeLineMap;
use marv_emu::mdps::{Mdps, MdpsPhase};
use marv_emu::packet::Packet;
use marv_emu::snc::{Snc, SncPhase};
use marv_emu::ss::{Ss, SsPhase};
use marv_emu::wheels::Wheels;

/// The three emulators wired together on one thread: every packet one of them
/// sends is queued for the other two.
struct Bench {
    snc: Snc,
    ss: Ss,
    mdps: Mdps,
    to_snc: VecDeque<Packet>,
    to_ss: VecDeque<Packet>,
    to_mdps: VecDeque<Packet>,
    snc_sent: Vec<[u8; 4]>,
}

impl Bench {
    fn new(maze: MazeLineMap, positions: [(i64, i64); 5]) -> Bench {
        Bench {
            snc: Snc::new(),
            ss: Ss::new(maze, positions),
            mdps: Mdps::new(Wheels::new(100)),
            to_snc: VecDeque::new(),
            to_ss: VecDeque::new(),
            to_mdps: VecDeque::new(),
            snc_sent: Vec::new(),
        }
    }

    fn from_snc(&mut self, out: Vec<Packet>) {
        for p in out {
            self.snc_sent.push(p.bytes());
            self.to_ss.push_back(p);
            self.to_mdps.push_back(p);
        }
    }

    fn from_ss(&mut self, out: Vec<Packet>) {
        for p in out {
            self.to_snc.push_back(p);
            self.to_mdps.push_back(p);
        }
    }

    fn from_mdps(&mut self, out: Vec<Packet>) {
        for p in out {
            self.to_snc.push_back(p);
            self.to_ss.push_back(p);
        }
    }

    /// Delivers packets until every queue is empty or `limit` deliveries are made.
    fn run(&mut self, limit: usize) {
        let started = self.snc.start();
        self.from_snc(started);
        let mut n = 0;
        while n < limit {
            if self.mdps.rotating() {
                let out = self.mdps.tick();
                self.from_mdps(out.packets);
                continue;
            }
            if let Some(t) = self.ss.pending_incidence() {
                let angle = ((t as f32 / 65.0).atan().to_degrees()) as u8;
                let out = self.ss.report_incidence(angle);
                self.from_ss(out);
                continue;
            }
            if let Some(p) = self.to_snc.pop_front() {
                let out = self.snc.on_packet(p);
                self.from_snc(out);
            } else if let Some(p) = self.to_ss.pop_front() {
                let out = self.ss.on_packet(p);
                self.from_ss(out);
            } else if let Some(p) = self.to_mdps.pop_front() {
                let out = self.mdps.on_packet(p);
                self.from_mdps(out.packets);
            } else {
                break;
            }
            n += 1;
        }
    }
}

fn column_maze() -> MazeLineMap {
    let mut m = MazeLineMap::new(3, 1);
    m.add_column(vec![Colour::Black, Colour::Green, Colour::Red, Colour::Black]).unwrap();
    for _ in 0..3 {
        m.add_row(vec![Colour::Black, Colour::Black]).unwrap();
    }
    m
}

#[test]
fn happy_startup() {
    // the sensors of the pose (0.1 m, 0.05 m) heading along +y, in whole maze
    // pixels: all in the white interior of the first cell
    let positions = [(76, 63), (48, 63), (42, 63), (36, 63), (8, 63)];
    let mut bench = Bench::new(column_maze(), positions);
    bench.run(200);
    let sent = &bench.snc_sent;
    assert_eq!(sent[0], [16, 1, 100, 0]);
    assert_eq!(sent[1], [80, 1, 0, 0]);
    assert_eq!(sent[2], [145, 0, 0, 0]);
    assert_eq!(sent[3], [146, 0, 0, 0]);
    assert_eq!(sent[4][0], 147);
    assert_eq!(sent[4][3], 0);
    assert_eq!(sent[5], [145, 0, 0, 0]);
    assert_eq!(sent[6], [146, 0, 0, 0]);
    assert_eq!(sent[7][0], 147);
    assert_eq!(bench.snc.get_state(), SystemState::Maze);
    assert_eq!(bench.mdps.get_state(), SystemState::Maze);
    assert_eq!(bench.ss.get_state(), SystemState::Maze);
}

#[test]
fn end_of_maze() {
    // every sensor on the red horizontal line between the second and third rows
    let positions = [(20, 170 + 2), (30, 170 + 2), (40, 170 + 2), (50, 170 + 2), (60, 170 + 2)];
    let mut bench = Bench::new(column_maze(), positions);
    bench.run(1000);
    assert!(bench.ss.finished());
    assert!(bench.snc.finished());
    assert!(bench.mdps.finished());
    assert_eq!(bench.ss.phase(), SsPhase::Finished);
    assert_eq!(bench.snc.phase(), SncPhase::Finished);
    assert_eq!(bench.mdps.phase(), MdpsPhase::Finished);
}

#[test]
fn ss_reports_end_of_maze_on_distance() {
    let mut m = MazeLineMap::new(1, 1);
    m.add_column(vec![Colour::Red, Colour::Red]).unwrap();
    m.add_row(vec![Colour::Red, Colour::Red]).unwrap();
    let mut ss = Ss::new(m, [(10, 1), (20, 1), (30, 1), (40, 1), (50, 1)]);
    assert_eq!(ss.on_packet(Packet::new(16, 1, 100, 0))[0].bytes(), [112, 0, 0, 0]);
    assert_eq!(ss.on_packet(Packet::new(97, 0, 0, 0))[0].bytes(), [113, 0, 0, 0]);
    assert!(ss.on_packet(Packet::new(80, 1, 0, 0)).is_empty());
    assert!(ss.on_packet(Packet::new(145, 0, 0, 0)).is_empty());
    assert!(ss.on_packet(Packet::new(146, 0, 0, 0)).is_empty());
    let out = ss.on_packet(Packet::new(164, 0, 10, 0));
    assert_eq!(out.len(), 1);
    assert_eq!(out[0].bytes(), [179, 0, 0, 0]);
    assert!(ss.finished());
}

#[test]
fn ss_incidence_from_inner_sensor() {
    let mut m = MazeLineMap::new(1, 1);
    m.add_column(vec![Colour::Green, Colour::White]).unwrap();
    m.add_row(vec![Colour::White, Colour::White]).unwrap();
    // only sensor 1 on the green line
    let mut ss = Ss::new(m, [(10, 40), (20, 2), (30, 40), (40, 40), (50, 40)]);
    ss.on_packet(Packet::new(16, 1, 100, 0));
    ss.on_packet(Packet::new(97, 0, 0, 0));
    ss.on_packet(Packet::new(80, 1, 0, 0));
    ss.on_packet(Packet::new(145, 0, 0, 0));
    ss.on_packet(Packet::new(146, 0, 0, 0));
    assert!(ss.on_packet(Packet::new(164, 0, 65, 0)).is_empty());
    assert_eq!(ss.pending_incidence(), Some(65));
    let out = ss.report_incidence(45);
    assert_eq!(out[0].bytes(), [177, 0b0000_0100, 0, 0]);
    assert_eq!(out[1].bytes(), [178, 45, 0, 0]);
    assert_eq!(ss.phase(), SsPhase::AwaitClapSnap);
}

#[test]
fn ss_outer_sensor_sets_reference() {
    let mut m = MazeLineMap::new(1, 1);
    m.add_column(vec![Colour::Black, Colour::White]).unwrap();
    m.add_row(vec![Colour::White, Colour::White]).unwrap();
    let mut ss = Ss::new(m, [(10, 2), (20, 40), (30, 40), (40, 40), (50, 40)]);
    ss.on_packet(Packet::new(16, 1, 100, 0));
    ss.on_packet(Packet::new(97, 0, 0, 0));
    ss.on_packet(Packet::new(80, 1, 0, 0));
    ss.on_packet(Packet::new(145, 0, 0, 0));
    ss.on_packet(Packet::new(146, 0, 0, 0));
    let out = ss.on_packet(Packet::new(164, 0, 90, 0));
    assert_eq!(out[0].bytes(), [177, 0b0100_0000, 0, 0]);
    assert_eq!(out[1].bytes(), [178, 0, 0, 0]);
}

#[test]
fn ss_discards_other_tags_while_waiting() {
    let m = MazeLineMap::new(1, 1);
    let mut ss = Ss::new(m, [(0, 0); 5]);
    assert!(ss.on_packet(Packet::new(97, 0, 0, 0)).is_empty());
    assert!(ss.on_packet(Packet::new(16, 0, 0, 0)).is_empty());
    assert_eq!(ss.get_state(), SystemState::Idle);
    ss.on_packet(Packet::new(16, 1, 0, 0));
    assert_eq!(ss.get_state(), SystemState::Calibrate);
}

#[test]
fn mdps_calibration_and_drive() {
    let mut m = Mdps::new(Wheels::new(100));
    assert!(m.on_packet(Packet::new(16, 1, 80, 0)).packets.is_empty());
    let out = m.on_packet(Packet::new(112, 0, 0, 0));
    assert_eq!(out.packets[0].bytes(), [96, 80, 80, 0]);
    assert_eq!(out.packets[1].bytes(), [97, 0, 0, 0]);
    m.on_packet(Packet::new(113, 0, 0, 0));
    let out = m.on_packet(Packet::new(80, 0, 0, 0));
    assert_eq!(out.packets[0].bytes(), [97, 0, 0, 0]);
    m.on_packet(Packet::new(113, 0, 0, 0));
    m.on_packet(Packet::new(80, 1, 0, 0));
    assert_eq!(m.phase(), MdpsPhase::Maze);
    let out = m.on_packet(Packet::new(147, 30, 30, 0));
    assert_eq!(out.speeds, vec![(30, 30)]);
    assert_eq!(out.packets.len(), 4);
    assert_eq!(out.packets[0].bytes(), [161, 0, 0, 0]);
    assert_eq!(out.packets[1].bytes()[0], 162);
    assert_eq!(out.packets[1].bytes()[3], 2);
    assert_eq!(out.packets[2].bytes(), [163, 30, 30, 0]);
    assert_eq!(out.packets[3].bytes()[0], 164);
    let out = m.on_packet(Packet::new(147, 30, 30, 1));
    assert_eq!(out.packets[2].bytes(), [163, 30, 30, 1]);
    assert_eq!(out.speeds, vec![(-30, -30)]);
}

#[test]
fn mdps_rotation_reaches_target() {
    let mut m = Mdps::new(Wheels::new(100));
    m.on_packet(Packet::new(16, 1, 250, 0));
    m.on_packet(Packet::new(112, 0, 0, 0));
    m.on_packet(Packet::new(113, 0, 0, 0));
    m.on_packet(Packet::new(80, 1, 0, 0));
    let out = m.on_packet(Packet::new(147, 0, 1, 3));
    assert!(out.packets.is_empty());
    assert!(m.rotating());
    let mut last = Vec::new();
    let mut ticks = 0;
    while m.rotating() && ticks < 100_000_000 {
        last = m.tick().packets;
        ticks += 1;
    }
    assert!(!m.rotating());
    assert_eq!(last.len(), 4);
    assert_eq!(last[1].bytes()[0], 162);
    assert!(last[1].bytes()[1] >= 1);
    assert_eq!(last[1].bytes()[3], 2);
    assert_eq!(last[2].bytes(), [163, 250, 250, 1]);
}

#[test]
fn mdps_sos_and_back() {
    let mut m = Mdps::new(Wheels::new(100));
    m.on_packet(Packet::new(16, 1, 50, 0));
    m.on_packet(Packet::new(112, 0, 0, 0));
    m.on_packet(Packet::new(113, 0, 0, 0));
    m.on_packet(Packet::new(80, 1, 0, 0));
    let out = m.on_packet(Packet::new(145, 1, 0, 0));
    assert_eq!(out.packets[0].bytes(), [228, 0, 0, 0]);
    assert_eq!(m.get_state(), SystemState::Sos);
    assert_eq!(m.wheels().get_left(), 0);
    m.on_packet(Packet::new(208, 0, 0, 0));
    assert_eq!(m.get_state(), SystemState::Sos);
    m.on_packet(Packet::new(208, 1, 0, 0));
    assert_eq!(m.get_state(), SystemState::Maze);
    m.on_packet(Packet::new(146, 1, 0, 0));
    assert_eq!(m.get_state(), SystemState::Idle);
}

#[test]
fn snc_opening_sequence() {
    let mut s = Snc::new();
    assert_eq!(s.get_state(), SystemState::Idle);
    let out = s.start();
    assert_eq!(out[0].bytes(), [16, 1, 100, 0]);
    assert_eq!(s.get_state(), SystemState::Calibrate);
    assert!(s.on_packet(Packet::new(112, 0, 0, 0)).is_empty());
    let out = s.on_packet(Packet::new(113, 0, 0, 0));
    let bytes: Vec<[u8; 4]> = out.iter().map(|p| p.bytes()).collect();
    assert_eq!(bytes, vec![[80, 1, 0, 0], [145, 0, 0, 0], [146, 0, 0, 0], [147, 30, 30, 0]]);
    assert_eq!(s.phase(), SncPhase::AwaitBatteryLevel);
    s.on_packet(Packet::new(161, 0, 0, 0));
    s.on_packet(Packet::new(162, 0, 0, 2));
    s.on_packet(Packet::new(179, 0, 0, 0));
    assert!(s.finished());
}

#[test]
fn snc_navigates_on_telemetry() {
    let mut s = Snc::new();
    s.start();
    s.on_packet(Packet::new(113, 0, 0, 0));
    s.on_packet(Packet::new(161, 0, 0, 0));
    s.on_packet(Packet::new(162, 0, 0, 2));
    s.on_packet(Packet::new(163, 30, 30, 0));
    s.on_packet(Packet::new(164, 0, 10, 0));
    s.on_packet(Packet::new(177, 0, 0b00010000, 0));
    let out = s.on_packet(Packet::new(178, 20, 0, 0));
    assert_eq!(out[2].bytes(), [147, 0, 0, 0]);
    assert_eq!(s.navcon().output_rotation, 20);
}
