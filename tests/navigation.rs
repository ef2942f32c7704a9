use marv_emu::colour::{Colour, Colours};
use marv_emu::navcon::{NavCon, NavConState};
use marv_emu::packet::Packet;

fn colours(c: [Colour; 5]) -> Colours {
    Colours::from_array(c)
}

const W: Colour = Colour::White;

#[test]
fn forward_on_all_white_keeps_state() {
    let mut n = NavCon::new();
    n.output_rotation = 33;
    let before = n;
    n.compute(&colours([W; 5]), 17, 400);
    assert_eq!(n, before);
    assert_eq!(n.get_state(), NavConState::Forward);
    assert_eq!(n.output_rotation, 33);
}

#[test]
fn incidence_clamp() {
    let mut n = NavCon::new();
    n.compute(&colours([W, Colour::Red, W, W, W]), 3, 10);
    assert_eq!(n, NavCon::new());
    assert_eq!(n.output_rotation, 0);
}

#[test]
fn right_side_green() {
    let mut n = NavCon::new();
    n.compute(&colours([W, W, W, Colour::Green, W]), 20, 10);
    assert_eq!(n.current_state, NavConState::Stop);
    assert_eq!(n.previous_state, NavConState::Forward);
    assert_eq!(n.next_state, NavConState::RotateRight);
    assert_eq!(n.output_rotation, 20);
    assert_eq!(n.previously_encountered_colour, Colour::Green);
}

#[test]
fn left_side_red_steep() {
    let mut n = NavCon::new();
    n.compute(&colours([W, Colour::Red, W, W, W]), 60, 10);
    assert_eq!(n.current_state, NavConState::Stop);
    assert_eq!(n.next_state, NavConState::RotateLeft);
    assert_eq!(n.output_rotation, 5);
    assert_eq!(n.previously_encountered_colour, Colour::Green);
}

#[test]
fn blue_double() {
    let mut n = NavCon::new();
    n.previously_encountered_colour = Colour::Blue;
    n.compute(&colours([W, Colour::Blue, W, W, W]), 10, 10);
    assert_eq!(n.output_rotation, 170);
    assert_eq!(n.next_state, NavConState::RotateRight);
    assert_eq!(n.current_state, NavConState::Stop);
    assert_eq!(n.previously_encountered_colour, Colour::Blue);
}

#[test]
fn black_on_right() {
    let mut n = NavCon::new();
    n.compute(&colours([W, W, W, Colour::Black, W]), 10, 10);
    assert_eq!(n.output_rotation, 100);
    assert_eq!(n.next_state, NavConState::RotateRight);
}

#[test]
fn far_from_reference_only_corrects() {
    let mut n = NavCon::new();
    n.compute(&colours([W, Colour::Blue, W, W, W]), 10, 66);
    assert_eq!(n.output_rotation, 5);
    assert_eq!(n.current_state, NavConState::Forward);
}

#[test]
fn outer_sensor_sets_reference() {
    let mut n = NavCon::new();
    n.compute(&colours([Colour::Black, W, W, W, W]), 0, 500);
    assert_eq!(n.reference_distance, 500);
    assert_eq!(n.current_state, NavConState::Forward);
    n.compute(&colours([W, Colour::Green, W, W, W]), 30, 540);
    assert_eq!(n.current_state, NavConState::Stop);
    assert_eq!(n.output_rotation, 30);
}

#[test]
fn stop_reverse_rotate_cycle() {
    let mut n = NavCon::new();
    n.compute(&colours([W, W, W, Colour::Green, W]), 20, 10);
    assert_eq!(n.get_state(), NavConState::Stop);
    n.compute(&colours([W; 5]), 0, 0);
    assert_eq!(n.get_state(), NavConState::Reverse);
    n.compute(&colours([W; 5]), 0, 29);
    assert_eq!(n.get_state(), NavConState::Reverse);
    n.compute(&colours([W; 5]), 0, 30);
    assert_eq!(n.get_state(), NavConState::Stop);
    assert_eq!(n.previous_state, NavConState::Reverse);
    n.compute(&colours([W; 5]), 0, 0);
    assert_eq!(n.get_state(), NavConState::RotateRight);
    assert_eq!(n.instruction().bytes(), [147, 0, 20, 3]);
    n.compute(&colours([W; 5]), 0, 0);
    assert_eq!(n.get_state(), NavConState::Forward);
}

#[test]
fn instructions_per_state() {
    let mut n = NavCon::new();
    assert_eq!(n.instruction().bytes(), [147, 30, 30, 0]);
    n.current_state = NavConState::Reverse;
    assert_eq!(n.instruction().bytes(), [147, 30, 30, 1]);
    n.current_state = NavConState::Stop;
    assert_eq!(n.instruction().bytes(), [147, 0, 0, 0]);
    n.current_state = NavConState::RotateLeft;
    n.output_rotation = 300;
    assert_eq!(n.instruction().bytes(), [147, 1, 44, 2]);
}

#[test]
fn parse_telemetry_packets() {
    let packets = [
        Packet::new(162, 0, 0, 2),
        Packet::new(164, 0x01, 0x02, 0),
        Packet::new(163, 30, 30, 0),
        Packet::new(177, 0b00000010, 0b00000000, 0),
        Packet::new(178, 12, 0, 0),
    ];
    let (c, inc, dist) = NavCon::parse_packets(&packets);
    assert_eq!(c.to_vec(), vec![W, Colour::Red, W, W, W]);
    assert_eq!(inc, 12);
    assert_eq!(dist, 258);
}

#[test]
fn compute_output_from_packets() {
    let mut n = NavCon::new();
    let packets = [
        Packet::new(162, 0, 0, 2),
        Packet::new(163, 30, 30, 0),
        Packet::new(164, 0, 10, 0),
        Packet::new(177, 0, 0b00010000, 0),
        Packet::new(178, 20, 0, 0),
    ];
    n.compute_output(packets);
    assert_eq!(n.current_state, NavConState::Stop);
    assert_eq!(n.next_state, NavConState::RotateRight);
    assert_eq!(n.output_rotation, 20);
}
