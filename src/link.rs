//! What the message fabric and the serial link decide, apart from their I/O:
//! how each subsystem is run, when a bounded endpoint has room, and how a serial
//! read becomes a packet.

use vstd::prelude::*;
use crate::packet::Packet;

verus! {

/// Whether a subsystem is emulated here or relayed to a real unit over serial.
#[derive(Clone, Copy, Debug, PartialEq, Eq, Structural)]
pub enum Mode {
    Emulate,
    Physical,
}

/// How many items an endpoint may hold before a sender must wait.
#[derive(Clone, Copy, Debug, PartialEq, Eq, Structural)]
pub enum Bound {
    Finite(usize),
    Infinite,
}

impl Bound {
    /// Whether an endpoint that holds `len` items takes one more: a finite bound
    /// of `n` refuses once `n` items are queued.
    pub fn has_room(&self, len: usize) -> (r: bool)
        ensures
            *self is Infinite ==> r,
            *self is Finite ==> r == (len < self->Finite_0),
    {
        match self {
            Bound::Finite(n) => len < *n,
            Bound::Infinite => true,
        }
    }
}

/// Why the serial port failed.
#[derive(Clone, Copy, Debug, PartialEq, Eq, Structural)]
pub enum ComPortError {
    ReadFail,
    WriteFail,
}

/// Why a non-blocking serial read gave nothing.
#[derive(Clone, Copy, Debug, PartialEq, Eq, Structural)]
pub enum ComPortReadErr {
    NoData,
}

/// The packet that a serial read of `count` bytes into `buffer` gives: a packet
/// needs all four bytes.
pub fn packet_from_read(buffer: [u8; 4], count: usize) -> (r: Result<Packet, ComPortError>)
    ensures
        count >= 4 ==> r is Ok && r->Ok_0@ == buffer@,
        count < 4 ==> r == Err::<Packet, ComPortError>(ComPortError::ReadFail),
{
    if count >= 4 {
        Ok(Packet::from_bytes(buffer))
    } else {
        Err(ComPortError::ReadFail)
    }
}

/// Whether a serial port with `available` bytes waiting holds a whole packet.
pub fn packet_waiting(available: u32) -> (r: Result<(), ComPortReadErr>)
    ensures
        available >= 4 ==> r is Ok,
        available < 4 ==> r == Err::<(), ComPortReadErr>(ComPortReadErr::NoData),
{
    if available >= 4 {
        Ok(())
    } else {
        Err(ComPortReadErr::NoData)
    }
}

} // verus!
