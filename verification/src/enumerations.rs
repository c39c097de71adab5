//! Value types for the protocol: the axis a command targets and the
//! integer-backed controller state codes. The state codes themselves are
//! device data; only the idle code matters to the client, as the rest state
//! that the polling routine waits for.
use vstd::prelude::*;

verus! {

/// The code the device designates as the idle (rest) state.
pub const AXIS_STATE_IDLE: u8 = 1;

/// One independently controlled motor channel, written on the wire as its
/// small-integer code.
#[derive(Clone, Copy, Debug, PartialEq, Eq, Structural)]
pub enum Axis {
    Zero,
    One,
}

impl Axis {
    /// The 8-bit value this axis has on the wire.
    pub open spec fn code(self) -> u8 {
        match self {
            Axis::Zero => 0u8,
            Axis::One => 1u8,
        }
    }

    pub fn to_code(self) -> (c: u8)
        ensures
            c == self.code(),
    {
        match self {
            Axis::Zero => 0,
            Axis::One => 1,
        }
    }
}

/// A controller operating state, carried as the opaque integer code the
/// device defines for it.
#[derive(Clone, Copy, Debug, PartialEq, Eq, Structural)]
pub struct AxisState {
    pub code: u8,
}

impl AxisState {
    pub fn new(code: u8) -> (s: AxisState)
        ensures
            s.code == code,
    {
        AxisState { code }
    }

    /// The rest state the polling routine waits for.
    pub fn idle() -> (s: AxisState)
        ensures
            s.code == AXIS_STATE_IDLE,
    {
        AxisState { code: AXIS_STATE_IDLE }
    }
}

} // verus!
