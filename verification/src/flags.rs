//! Flag sets mirrored from the engine's ABI.
//!
//! Each flag type is a thin typed wrapper around the raw bits the engine
//! takes; the named constants below are the documented bit values. Flag sets
//! are combined with [`ClearFlags::or`] and friends, or by or-ing the raw
//! constants before wrapping them.

use vstd::prelude::*;

verus! {

/// No reset option.
pub const RESET_NONE: u32 = 0x00000000;

/// Fullscreen mode.
pub const RESET_FULLSCREEN: u32 = 0x00000001;

/// 2x multisampling.
pub const RESET_MSAA_X2: u32 = 0x00000010;

/// 4x multisampling.
pub const RESET_MSAA_X4: u32 = 0x00000020;

/// 8x multisampling.
pub const RESET_MSAA_X8: u32 = 0x00000030;

/// 16x multisampling.
pub const RESET_MSAA_X16: u32 = 0x00000040;

/// Wait for vertical sync.
pub const RESET_VSYNC: u32 = 0x00000080;

/// Use the maximum anisotropy level.
pub const RESET_MAXANISOTROPY: u32 = 0x00000100;

/// Begin screen capture.
pub const RESET_CAPTURE: u32 = 0x00000200;

/// Flush rendering after submitting to the GPU.
pub const RESET_FLUSH_AFTER_RENDER: u32 = 0x00002000;

/// Flip the backbuffer after rendering instead of before.
pub const RESET_FLIP_AFTER_RENDER: u32 = 0x00004000;

/// Use an sRGB backbuffer.
pub const RESET_SRGB_BACKBUFFER: u32 = 0x00008000;

/// Use a HiDPI backbuffer.
pub const RESET_HIDPI: u32 = 0x00010000;

/// No debug feature.
pub const DEBUG_NONE: u32 = 0x00000000;

/// Wireframe rendering.
pub const DEBUG_WIREFRAME: u32 = 0x00000001;

/// Infinitely fast hardware: draws are processed but not submitted.
pub const DEBUG_IFH: u32 = 0x00000002;

/// Statistics display.
pub const DEBUG_STATS: u32 = 0x00000004;

/// Debug text overlay display.
pub const DEBUG_TEXT: u32 = 0x00000008;

/// Clear nothing.
pub const CLEAR_NONE: u16 = 0x0000;

/// Clear the color channel.
pub const CLEAR_COLOR: u16 = 0x0001;

/// Clear the depth channel.
pub const CLEAR_DEPTH: u16 = 0x0002;

/// Clear the stencil channel.
pub const CLEAR_STENCIL: u16 = 0x0004;

/// No buffer option.
pub const BUFFER_NONE: u16 = 0x0000;

/// Allow the buffer to resize.
pub const BUFFER_ALLOW_RESIZE: u16 = 0x0800;

/// The buffer holds 32-bit indices.
pub const BUFFER_INDEX32: u16 = 0x1000;

/// Flags accepted when resetting the backbuffer.
#[derive(PartialEq, Eq, Structural, Debug, Copy, Clone)]
pub struct ResetFlags(pub u32);

impl ResetFlags {
    /// Wraps raw reset bits.
    pub fn from_bits(bits: u32) -> (r: ResetFlags)
        ensures
            r.0 == bits,
    {
        ResetFlags(bits)
    }

    /// The raw bits.
    pub fn bits(&self) -> (r: u32)
        ensures
            r == self.0,
    {
        self.0
    }

    /// The union of two flag sets.
    pub fn or(self, other: ResetFlags) -> (r: ResetFlags)
        ensures
            r.0 == (self.0 | other.0),
    {
        ResetFlags(self.0 | other.0)
    }
}

/// Flags selecting debug features.
#[derive(PartialEq, Eq, Structural, Debug, Copy, Clone)]
pub struct DebugFlags(pub u32);

impl DebugFlags {
    /// Wraps raw debug bits.
    pub fn from_bits(bits: u32) -> (r: DebugFlags)
        ensures
            r.0 == bits,
    {
        DebugFlags(bits)
    }

    /// The raw bits.
    pub fn bits(&self) -> (r: u32)
        ensures
            r == self.0,
    {
        self.0
    }

    /// The union of two flag sets.
    pub fn or(self, other: DebugFlags) -> (r: DebugFlags)
        ensures
            r.0 == (self.0 | other.0),
    {
        DebugFlags(self.0 | other.0)
    }
}

/// Flags selecting which channels a view clear touches.
#[derive(PartialEq, Eq, Structural, Debug, Copy, Clone)]
pub struct ClearFlags(pub u16);

impl ClearFlags {
    /// Wraps raw clear bits.
    pub fn from_bits(bits: u16) -> (r: ClearFlags)
        ensures
            r.0 == bits,
    {
        ClearFlags(bits)
    }

    /// The raw bits.
    pub fn bits(&self) -> (r: u16)
        ensures
            r == self.0,
    {
        self.0
    }

    /// The union of two flag sets.
    pub fn or(self, other: ClearFlags) -> (r: ClearFlags)
        ensures
            r.0 == (self.0 | other.0),
    {
        ClearFlags(self.0 | other.0)
    }
}

/// Flags accepted at buffer creation.
#[derive(PartialEq, Eq, Structural, Debug, Copy, Clone)]
pub struct BufferFlags(pub u16);

impl BufferFlags {
    /// Wraps raw buffer bits.
    pub fn from_bits(bits: u16) -> (r: BufferFlags)
        ensures
            r.0 == bits,
    {
        BufferFlags(bits)
    }

    /// The raw bits.
    pub fn bits(&self) -> (r: u16)
        ensures
            r == self.0,
    {
        self.0
    }

    /// The union of two flag sets.
    pub fn or(self, other: BufferFlags) -> (r: BufferFlags)
        ensures
            r.0 == (self.0 | other.0),
    {
        BufferFlags(self.0 | other.0)
    }
}

/// Render state bits for draw submission.
#[derive(PartialEq, Eq, Structural, Debug, Copy, Clone)]
pub struct StateFlags(pub u64);

impl StateFlags {
    /// Wraps raw state bits.
    pub fn from_bits(bits: u64) -> (r: StateFlags)
        ensures
            r.0 == bits,
    {
        StateFlags(bits)
    }

    /// The raw bits.
    pub fn bits(&self) -> (r: u64)
        ensures
            r == self.0,
    {
        self.0
    }

    /// The union of two flag sets.
    pub fn or(self, other: StateFlags) -> (r: StateFlags)
        ensures
            r.0 == (self.0 | other.0),
    {
        StateFlags(self.0 | other.0)
    }
}

} // verus!
