//! The main-side context.

use vstd::prelude::*;

use crate::engine::{resolved_renderer, Engine, EngineCall};
use crate::flags::{ClearFlags, DebugFlags, ResetFlags, StateFlags};
use crate::resource::{IndexBuffer, Program, VertexBuffer};
use crate::{BgfxError, RendererType, PCI_ID_NONE};

verus! {

/// Capability token for the main side of a session.
///
/// Holding a `Bgfx` value proves the caller is on the logical thread that
/// initialized the session: every session-mutating operation and every
/// resource constructor demands one. Exactly one instance exists per session;
/// it is minted by [`init`] and consumed by [`Bgfx::shutdown`]. It is not
/// `Clone`, so it cannot be shared with the pump side, and the pump-side
/// token offers no resource operations at all: using a resource from the
/// wrong side is a type error, not a runtime one.
pub struct Bgfx {
    session: u64,
}

impl Bgfx {
    /// The session this token belongs to.
    pub closed spec fn session_id(self) -> u64 {
        self.session
    }

    /// Clears the debug text overlay. `attr` defaults to 0 and `small` to
    /// false.
    pub fn dbg_text_clear(&self, engine: &mut Engine, attr: Option<u8>, small: Option<bool>)
        requires
            old(engine).is_initialized(),
            self.session_id() == old(engine).session_id(),
        ensures
            final(engine).calls() == old(engine).calls().push(
                EngineCall::DbgTextClear {
                    attr: (if attr is Some { attr->0 } else { 0 }),
                    small: (if small is Some { small->0 } else { false }),
                },
            ),
            final(engine).same_session_as(*old(engine)),
            final(engine).same_resources_as(*old(engine)),
            final(engine).same_frames_as(*old(engine)),
    {
        let attr: u8 = match attr {
            Some(a) => a,
            None => 0,
        };
        let small: bool = match small {
            Some(s) => s,
            None => false,
        };
        engine.record(EngineCall::DbgTextClear { attr, small });
    }

    /// Draws an image to the debug text overlay. The model records the
    /// geometry of the blit; the pixels themselves are not part of the
    /// protocol.
    pub fn dbg_text_image(
        &self,
        engine: &mut Engine,
        x: u16,
        y: u16,
        width: u16,
        height: u16,
        data: &[u8],
        pitch: u16,
    )
        requires
            old(engine).is_initialized(),
            self.session_id() == old(engine).session_id(),
        ensures
            final(engine).calls() == old(engine).calls().push(
                EngineCall::DbgTextImage { x, y, width, height, pitch },
            ),
            final(engine).same_session_as(*old(engine)),
            final(engine).same_resources_as(*old(engine)),
            final(engine).same_frames_as(*old(engine)),
    {
        let _ = data;
        engine.record(EngineCall::DbgTextImage { x, y, width, height, pitch });
    }

    /// Displays text in the debug text overlay. The model records the cell
    /// position and attribute; the text itself is not part of the protocol.
    pub fn dbg_text_print(&self, engine: &mut Engine, x: u16, y: u16, attr: u8, text: &str)
        requires
            old(engine).is_initialized(),
            self.session_id() == old(engine).session_id(),
        ensures
            final(engine).calls() == old(engine).calls().push(
                EngineCall::DbgTextPrint { x, y, attr },
            ),
            final(engine).same_session_as(*old(engine)),
            final(engine).same_resources_as(*old(engine)),
            final(engine).same_frames_as(*old(engine)),
    {
        let _ = text;
        engine.record(EngineCall::DbgTextPrint { x, y, attr });
    }

    /// Finishes the frame, handing the recorded work to the pump side.
    /// Returns an incrementing frame counter, starting at zero for the first
    /// frame of a session.
    pub fn frame(&self, engine: &mut Engine, capture: bool) -> (n: u32)
        requires
            old(engine).is_initialized(),
            self.session_id() == old(engine).session_id(),
            old(engine).frame_number() < u32::MAX,
            old(engine).frames_pending() < u64::MAX,
        ensures
            n == old(engine).frame_number(),
            final(engine).calls() == old(engine).calls().push(EngineCall::Frame),
            final(engine).same_session_as(*old(engine)),
            final(engine).same_resources_as(*old(engine)),
            final(engine).frame_number() == old(engine).frame_number() + 1,
            final(engine).frames_pending() == old(engine).frames_pending() + 1,
            final(engine).draw_count() == 0,
    {
        let _ = capture;
        let n: u32 = engine.note_frame();
        engine.record(EngineCall::Frame);
        n
    }

    /// The type of the renderer in use by the current session. The result is
    /// the backend actually running, so it is never the
    /// [`RendererType::Default`] request value, and it is stable for the
    /// whole session.
    pub fn get_renderer_type(&self, engine: &Engine) -> (r: RendererType)
        requires
            engine.is_initialized(),
            self.session_id() == engine.session_id(),
        ensures
            r == engine.renderer_in_use(),
            !(r is Default),
    {
        engine.renderer_now()
    }

    /// Resets the graphics device to the given size, with the given flags.
    pub fn reset(&self, engine: &mut Engine, width: u16, height: u16, reset: ResetFlags)
        requires
            old(engine).is_initialized(),
            self.session_id() == old(engine).session_id(),
        ensures
            final(engine).calls() == old(engine).calls().push(
                EngineCall::Reset { width, height, flags: reset.0 },
            ),
            final(engine).same_session_as(*old(engine)),
            final(engine).same_resources_as(*old(engine)),
            final(engine).same_frames_as(*old(engine)),
    {
        engine.record(EngineCall::Reset { width, height, flags: reset.bits() });
    }

    /// Sets the debug flags to use.
    pub fn set_debug(&self, engine: &mut Engine, debug: DebugFlags)
        requires
            old(engine).is_initialized(),
            self.session_id() == old(engine).session_id(),
        ensures
            final(engine).calls() == old(engine).calls().push(
                EngineCall::SetDebug { flags: debug.0 },
            ),
            final(engine).same_session_as(*old(engine)),
            final(engine).same_resources_as(*old(engine)),
            final(engine).same_frames_as(*old(engine)),
    {
        engine.record(EngineCall::SetDebug { flags: debug.bits() });
    }

    /// Sets the index buffer to use for the next draw.
    pub fn set_index_buffer(&self, engine: &mut Engine, ibh: &IndexBuffer)
        requires
            old(engine).is_initialized(),
            self.session_id() == old(engine).session_id(),
            ibh.session_id() == old(engine).session_id(),
        ensures
            final(engine).calls() == old(engine).calls().push(
                EngineCall::SetIndexBuffer { handle: ibh.handle_id() },
            ),
            final(engine).same_session_as(*old(engine)),
            final(engine).same_resources_as(*old(engine)),
            final(engine).same_frames_as(*old(engine)),
    {
        engine.record(EngineCall::SetIndexBuffer { handle: ibh.handle() });
    }

    /// Sets the render state for the next draw. `rgba` defaults to 0.
    pub fn set_state(&self, engine: &mut Engine, state: StateFlags, rgba: Option<u32>)
        requires
            old(engine).is_initialized(),
            self.session_id() == old(engine).session_id(),
        ensures
            final(engine).calls() == old(engine).calls().push(
                EngineCall::SetState {
                    flags: state.0,
                    rgba: (if rgba is Some { rgba->0 } else { 0 }),
                },
            ),
            final(engine).same_session_as(*old(engine)),
            final(engine).same_resources_as(*old(engine)),
            final(engine).same_frames_as(*old(engine)),
    {
        let rgba: u32 = match rgba {
            Some(c) => c,
            None => 0,
        };
        engine.record(EngineCall::SetState { flags: state.bits(), rgba });
    }

    /// Sets the model transform for the next draw. The matrix entries carry
    /// the raw bit patterns of the sixteen coefficients; the model records
    /// the submission, not the arithmetic.
    pub fn set_transform(&self, engine: &mut Engine, mtx: &[u32; 16])
        requires
            old(engine).is_initialized(),
            self.session_id() == old(engine).session_id(),
        ensures
            final(engine).calls() == old(engine).calls().push(EngineCall::SetTransform),
            final(engine).same_session_as(*old(engine)),
            final(engine).same_resources_as(*old(engine)),
            final(engine).same_frames_as(*old(engine)),
    {
        let _ = mtx;
        engine.record(EngineCall::SetTransform);
    }

    /// Sets the vertex buffer to use for the next draw.
    pub fn set_vertex_buffer(&self, engine: &mut Engine, stream: u8, vbh: &VertexBuffer)
        requires
            old(engine).is_initialized(),
            self.session_id() == old(engine).session_id(),
            vbh.session_id() == old(engine).session_id(),
        ensures
            final(engine).calls() == old(engine).calls().push(
                EngineCall::SetVertexBuffer { stream, handle: vbh.handle_id() },
            ),
            final(engine).same_session_as(*old(engine)),
            final(engine).same_resources_as(*old(engine)),
            final(engine).same_frames_as(*old(engine)),
    {
        engine.record(EngineCall::SetVertexBuffer { stream, handle: vbh.handle() });
    }

    /// Sets the options to use when clearing the given view. `depth_bits`
    /// carries the raw bit pattern of the depth clear value.
    pub fn set_view_clear(
        &self,
        engine: &mut Engine,
        id: u8,
        flags: ClearFlags,
        rgba: u32,
        depth_bits: u32,
        stencil: u8,
    )
        requires
            old(engine).is_initialized(),
            self.session_id() == old(engine).session_id(),
        ensures
            final(engine).calls() == old(engine).calls().push(
                EngineCall::SetViewClear { id, flags: flags.0, rgba, depth_bits, stencil },
            ),
            final(engine).same_session_as(*old(engine)),
            final(engine).same_resources_as(*old(engine)),
            final(engine).same_frames_as(*old(engine)),
    {
        engine.record(
            EngineCall::SetViewClear { id, flags: flags.bits(), rgba, depth_bits, stencil },
        );
    }

    /// Sets the rectangle to display the given view in.
    pub fn set_view_rect(&self, engine: &mut Engine, id: u8, x: u16, y: u16, width: u16, height: u16)
        requires
            old(engine).is_initialized(),
            self.session_id() == old(engine).session_id(),
        ensures
            final(engine).calls() == old(engine).calls().push(
                EngineCall::SetViewRect { id, x, y, width, height },
            ),
            final(engine).same_session_as(*old(engine)),
            final(engine).same_resources_as(*old(engine)),
            final(engine).same_frames_as(*old(engine)),
    {
        engine.record(EngineCall::SetViewRect { id, x, y, width, height });
    }

    /// Sets the view and projection matrices for the given view. The matrix
    /// entries carry the raw bit patterns of the coefficients; the model
    /// records the submission, not the arithmetic.
    pub fn set_view_transform(
        &self,
        engine: &mut Engine,
        id: u8,
        view: &[u32; 16],
        proj: &[u32; 16],
    )
        requires
            old(engine).is_initialized(),
            self.session_id() == old(engine).session_id(),
        ensures
            final(engine).calls() == old(engine).calls().push(EngineCall::SetViewTransform { id }),
            final(engine).same_session_as(*old(engine)),
            final(engine).same_resources_as(*old(engine)),
            final(engine).same_frames_as(*old(engine)),
    {
        let _ = view;
        let _ = proj;
        engine.record(EngineCall::SetViewTransform { id });
    }

    /// Submits a primitive for rendering on the given view. Returns the
    /// number of draw calls used since the last frame submission.
    pub fn submit(&self, engine: &mut Engine, view: u8, program: &Program, preserve_state: bool) -> (n:
        u32)
        requires
            old(engine).is_initialized(),
            self.session_id() == old(engine).session_id(),
            program.session_id() == old(engine).session_id(),
            old(engine).draw_count() < u32::MAX,
        ensures
            n == old(engine).draw_count() + 1,
            final(engine).calls() == old(engine).calls().push(
                EngineCall::Submit { view, program: program.handle_id() },
            ),
            final(engine).same_session_as(*old(engine)),
            final(engine).same_resources_as(*old(engine)),
            final(engine).frame_number() == old(engine).frame_number(),
            final(engine).frames_pending() == old(engine).frames_pending(),
            final(engine).draw_count() == old(engine).draw_count() + 1,
    {
        let _ = preserve_state;
        let n: u32 = engine.note_submit();
        engine.record(EngineCall::Submit { view, program: program.handle() });
        n
    }

    /// Touches a view: an empty submission that keeps the view alive.
    pub fn touch(&self, engine: &mut Engine, id: u8)
        requires
            old(engine).is_initialized(),
            self.session_id() == old(engine).session_id(),
        ensures
            final(engine).calls() == old(engine).calls().push(EngineCall::Touch { id }),
            final(engine).same_session_as(*old(engine)),
            final(engine).same_resources_as(*old(engine)),
            final(engine).same_frames_as(*old(engine)),
    {
        engine.record(EngineCall::Touch { id });
    }

    /// Ends the session, consuming the token.
    ///
    /// Every resource of the session must already have been destroyed: the
    /// resource-lifetime discipline demands that destruction happens before
    /// the session ends, never after.
    pub fn shutdown(self, engine: &mut Engine)
        requires
            old(engine).is_initialized(),
            self.session_id() == old(engine).session_id(),
            old(engine).live_resources() == 0,
        ensures
            final(engine).calls() == old(engine).calls().push(EngineCall::Shutdown),
            !final(engine).is_initialized(),
            final(engine).init_fails() == old(engine).init_fails(),
            final(engine).platform_is_set() == old(engine).platform_is_set(),
            final(engine).is_primed() == old(engine).is_primed(),
            final(engine).session_id() == old(engine).session_id(),
            final(engine).renderer_in_use() == old(engine).renderer_in_use(),
            final(engine).handles_used() == old(engine).handles_used(),
            final(engine).live_resources() == 0,
            final(engine).unconsumed_copies() == old(engine).unconsumed_copies(),
            final(engine).frame_number() == old(engine).frame_number(),
            final(engine).frames_pending() == 0,
            final(engine).draw_count() == old(engine).draw_count(),
    {
        engine.shutdown_engine();
    }
}

/// Initializes the engine, starting a session, and mints the main-side
/// context token.
///
/// This must be called on the logical thread that will own the session, after
/// the platform data has been applied and after a priming pump step has run
/// (the engine inspects the priming to decide which thread becomes its
/// internal render thread). A [`RendererType::Default`] request resolves to
/// the engine's own choice of actual backend, per
/// [`resolved_renderer`] — `Default` is only a request value and is never the
/// renderer in use. Fails with [`BgfxError::InitFailed`] exactly when
/// the engine is configured to report initialization failure; on failure no
/// session is live and no context is minted.
pub fn init(
    engine: &mut Engine,
    renderer: RendererType,
    vendor_id: Option<u16>,
    device_id: Option<u16>,
) -> (r: Result<Bgfx, BgfxError>)
    requires
        old(engine).is_primed(),
        !old(engine).is_initialized(),
        old(engine).platform_is_set(),
        old(engine).session_id() < u64::MAX,
    ensures
        final(engine).calls() == old(engine).calls().push(
            EngineCall::Init {
                vendor: (if vendor_id is Some { vendor_id->0 } else { PCI_ID_NONE }),
                device: (if device_id is Some { device_id->0 } else { 0 }),
            },
        ),
        final(engine).init_fails() == old(engine).init_fails(),
        final(engine).platform_is_set(),
        final(engine).is_primed(),
        final(engine).unconsumed_copies() == old(engine).unconsumed_copies(),
        !old(engine).init_fails() ==> {
            &&& r matches Ok(ctx) && ctx.session_id() == old(engine).session_id() + 1
            &&& final(engine).is_initialized()
            &&& final(engine).session_id() == old(engine).session_id() + 1
            &&& final(engine).renderer_in_use() == resolved_renderer(renderer)
            &&& final(engine).handles_used() == 0
            &&& final(engine).live_resources() == 0
            &&& final(engine).frame_number() == 0
            &&& final(engine).frames_pending() == 0
            &&& final(engine).draw_count() == 0
        },
        old(engine).init_fails() ==> {
            &&& r == Err::<Bgfx, BgfxError>(BgfxError::InitFailed)
            &&& !final(engine).is_initialized()
            &&& final(engine).session_id() == old(engine).session_id()
            &&& final(engine).renderer_in_use() == old(engine).renderer_in_use()
            &&& final(engine).handles_used() == old(engine).handles_used()
            &&& final(engine).live_resources() == old(engine).live_resources()
            &&& final(engine).same_frames_as(*old(engine))
        },
{
    let vendor: u16 = match vendor_id {
        Some(v) => v,
        None => PCI_ID_NONE,
    };
    let device: u16 = match device_id {
        Some(d) => d,
        None => 0,
    };
    let ok = engine.init_engine(renderer, vendor, device);
    if ok {
        Ok(Bgfx { session: engine.session() })
    } else {
        Err(BgfxError::InitFailed)
    }
}

} // verus!
