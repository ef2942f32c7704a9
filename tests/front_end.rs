use marv_emu::graph::Graph;
use marv_emu::ui_state::{EntryWindow, LabelList, QtpNo, SubsystemMode, Window, WindowHistory};

#[test]
fn entry_window_toggles() {
    let mut e = EntryWindow::new();
    assert_eq!(e.snc_mode(), SubsystemMode::Auto);
    e.toggle_snc_mode();
    assert_eq!(e.snc_mode(), SubsystemMode::Manual);
    assert_eq!(e.ss_mode(), SubsystemMode::Auto);
    e.toggle_ss_mode();
    e.toggle_mdps_mode();
    e.toggle_mdps_mode();
    assert_eq!(e.ss_mode(), SubsystemMode::Manual);
    assert_eq!(e.mdps_mode(), SubsystemMode::Auto);
    assert_eq!(SubsystemMode::Manual.name(), "manual");
    assert_eq!(SubsystemMode::Auto.toggled(), SubsystemMode::Manual);
}

#[test]
fn window_history() {
    let mut h = WindowHistory::new();
    assert_eq!(h.curr_window(), None);
    h.push(Window::Main);
    h.push(Window::Navcon(QtpNo::Qtp3));
    assert_eq!(h.curr_window(), Some(Window::Navcon(QtpNo::Qtp3)));
    assert_eq!(h.pop(), Some(Window::Main));
    assert_eq!(h.pop(), None);
    assert_eq!(h.pop(), None);
}

#[test]
fn label_list_keeps_twenty_newest() {
    let mut l = LabelList::new();
    for i in 0..25 {
        l.push(&format!("packet {}", i));
    }
    let v = l.to_vec();
    assert_eq!(v.len(), 20);
    assert_eq!(v[0], "packet 24");
    assert_eq!(v[19], "packet 5");
}

#[test]
fn graph_nodes() {
    let mut g: Graph<u32> = Graph::new();
    assert_eq!(g.get_node(0), None);
    g.add_node(7);
    g.add_node(9);
    assert_eq!(g.size(), 2);
    assert_eq!(g.get_node(0), Some(&7));
    assert_eq!(g.get_node(1), Some(&9));
    assert_eq!(g.get_node(2), None);
}
