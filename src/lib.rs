//! Emulation core for a line-following maze robot: the packet protocol that binds
//! its three subsystems, the colour and maze models, wheel kinematics, the
//! navigation controller and the per-subsystem state machines.

pub mod adjacent_bytes;
pub mod buffer;
mod clock;
pub mod colour;
pub mod constants;
pub mod graph;
pub mod link;
pub mod machine;
pub mod maze;
pub mod mdps;
pub mod navcon;
pub mod packet;
pub mod qtp;
pub mod snc;
pub mod ss;
pub mod ui_state;
pub mod wheels;
