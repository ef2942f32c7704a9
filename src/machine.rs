//! What the three subsystem state machines share.

use vstd::prelude::*;

verus! {

/// The top-level state of a subsystem.
#[derive(Clone, Copy, Debug, PartialEq, Eq, Structural)]
pub enum SystemState {
    Idle,
    Calibrate,
    Maze,
    Sos,
}

} // verus!
