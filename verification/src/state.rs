//! The default render state.

use vstd::prelude::*;

verus! {

/// Enable writing the RGB channels.
pub const STATE_RGB_WRITE: u64 = 0x0000000000000001;

/// Enable writing the alpha channel.
pub const STATE_ALPHA_WRITE: u64 = 0x0000000000000002;

/// Enable writing the depth channel.
pub const STATE_DEPTH_WRITE: u64 = 0x0000000000000004;

/// Pass the depth test when the incoming depth is less.
pub const STATE_DEPTH_TEST_LESS: u64 = 0x0000000000000010;

/// Cull clockwise faces.
pub const STATE_CULL_CW: u64 = 0x0000001000000000;

/// Enable multisampling.
pub const STATE_MSAA: u64 = 0x0100000000000000;

/// The engine's default render state: write color, alpha and depth, depth
/// test less, cull clockwise, multisampling on.
pub const STATE_DEFAULT: u64 = STATE_RGB_WRITE | STATE_ALPHA_WRITE | STATE_DEPTH_WRITE
    | STATE_DEPTH_TEST_LESS | STATE_CULL_CW | STATE_MSAA;

/// A render state bit set, starting from the engine's default state.
#[derive(PartialEq, Eq, Structural, Debug, Copy, Clone)]
pub struct State(u64);

impl State {
    /// The raw state bits.
    pub closed spec fn bits(self) -> u64 {
        self.0
    }

    /// The default render state.
    pub fn new() -> (s: State)
        ensures
            s.bits() == STATE_DEFAULT,
    {
        State(STATE_DEFAULT)
    }

    /// The raw state bits.
    pub fn to_bits(&self) -> (b: u64)
        ensures
            b == self.bits(),
    {
        self.0
    }
}

} // verus!
