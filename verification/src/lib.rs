//! A dual-context rendering session manager.
//!
//! The rendering engine underneath demands a strict two-sided protocol: all
//! initialization, resource management and draw submission happen on one
//! logical thread (the *main* side), while a second logical thread (the *pump*
//! side) repeatedly advances frame state. A handshake guarantees that the
//! first pump step happens before initialization, and that the pump keeps
//! responding until the main side has fully torn the session down.
//!
//! This crate owns that protocol. The engine itself is represented by
//! [`engine::Engine`], an instrumented model that records every outbound call
//! in order; every operation of the library carries a contract describing
//! exactly which calls it makes and how the session state changes. The
//! [`session::run`] coordinator drives a whole session and its contract pins
//! down the complete call trace, including the priming pump step, the
//! shutdown, and the final drain.
//!
//! Capability tokens keep the two sides apart: [`context::Bgfx`] proves the
//! caller is on the main side and is the only way to create or destroy
//! resources, while [`session::PumpContext`] offers nothing but the
//! frame-advance operation.

use vstd::prelude::*;

pub mod context;
pub mod engine;
pub mod flags;
pub mod platform;
pub mod resource;
pub mod session;
pub mod state;
pub mod vertex;

pub use context::Bgfx;
pub use context::init;
pub use engine::Engine;
pub use engine::EngineCall;
pub use engine::RenderFrame;
pub use engine::render_frame;
pub use flags::{BufferFlags, ClearFlags, DebugFlags, ResetFlags, StateFlags};
pub use platform::PlatformData;
pub use resource::{IndexBuffer, Memory, Program, Shader, VertexBuffer};
pub use session::{MainCmd, PumpContext, run};
pub use state::State;
pub use vertex::{Attrib, AttribType, VertexAttribEntry, VertexDecl, VertexDeclBuilder};

verus! {

/// Autoselect adapter.
pub const PCI_ID_NONE: u16 = 0;

/// Software rasterizer.
pub const PCI_ID_SOFTWARE_RASTERIZER: u16 = 0x0001;

/// AMD adapter.
pub const PCI_ID_AMD: u16 = 0x1002;

/// Intel adapter.
pub const PCI_ID_INTEL: u16 = 0x8086;

/// nVidia adapter.
pub const PCI_ID_NVIDIA: u16 = 0x10de;

/// Renderer backend type.
#[derive(PartialEq, Eq, Structural, Debug, Copy, Clone)]
pub enum RendererType {
    /// No rendering.
    Noop,
    /// Direct3D 9.0.
    Direct3D9,
    /// Direct3D 11.0.
    Direct3D11,
    /// Direct3D 12.0.
    Direct3D12,
    /// GNM.
    GNM,
    /// Metal.
    Metal,
    /// OpenGLES.
    OpenGLES,
    /// OpenGL.
    OpenGL,
    /// Vulkan.
    Vulkan,
    /// Use the most platform appropriate renderer. This is only a request
    /// value: the engine resolves it at initialization, and a live session
    /// always reports the actual backend chosen, never `Default`.
    Default,
}

/// Session lifecycle error.
#[derive(PartialEq, Eq, Structural, Debug, Copy, Clone)]
pub enum BgfxError {
    /// An invalid display was provided in the platform data.
    InvalidDisplay,
    /// An invalid window was provided in the platform data.
    InvalidWindow,
    /// Initialization failed.
    InitFailed,
    /// A session was started while another one is still live.
    SessionAlreadyActive,
}

} // verus!
