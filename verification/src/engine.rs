//! The instrumented engine model.
//!
//! The engine underneath the session manager is a black-box collaborator: the
//! library's only contract with it is call ordering and thread affinity. The
//! [`Engine`] type models it as an explicit value that records every outbound
//! call, oldest first, together with the little state the protocol depends on
//! (whether a pump step has run, whether a session is live, which resources
//! are still alive). Every operation of the library states in its contract
//! exactly which calls it appends to the log, so the ordering guarantees of
//! the protocol are facts about `Engine::calls()`.

use vstd::prelude::*;

use crate::RendererType;

verus! {

/// One outbound call into the engine, as recorded in the log.
#[derive(PartialEq, Eq, Structural, Debug, Copy, Clone)]
pub enum EngineCall {
    /// A per-frame advance on the pump side.
    RenderFrame,
    /// The initialization entry point, with the adapter selection handed down.
    Init { vendor: u16, device: u16 },
    /// Session teardown.
    Shutdown,
    /// Platform window/display handles, delivered before initialization.
    SetPlatformData { display: u64, window: u64, context: u64 },
    /// Backbuffer resize with reset flags.
    Reset { width: u16, height: u16, flags: u32 },
    /// Debug feature flags.
    SetDebug { flags: u32 },
    /// Clear parameters for one view slot. `depth_bits` carries the raw bit
    /// pattern of the depth clear value.
    SetViewClear { id: u8, flags: u16, rgba: u32, depth_bits: u32, stencil: u8 },
    /// Viewport rectangle for one view slot.
    SetViewRect { id: u8, x: u16, y: u16, width: u16, height: u16 },
    /// View and projection matrices for one view slot.
    SetViewTransform { id: u8 },
    /// Model transform for the next draw.
    SetTransform,
    /// Render state bits for the next draw.
    SetState { flags: u64, rgba: u32 },
    /// Vertex buffer binding for the next draw.
    SetVertexBuffer { stream: u8, handle: u16 },
    /// Index buffer binding for the next draw.
    SetIndexBuffer { handle: u16 },
    /// Draw submission for a (view, program) pair.
    Submit { view: u8, program: u16 },
    /// View touch (empty submission keeping the view alive).
    Touch { id: u8 },
    /// Frame submission, handing work to the pump side.
    Frame,
    /// Debug text overlay clear.
    DbgTextClear { attr: u8, small: bool },
    /// Debug text overlay print at a character cell.
    DbgTextPrint { x: u16, y: u16, attr: u8 },
    /// Debug text overlay image blit.
    DbgTextImage { x: u16, y: u16, width: u16, height: u16, pitch: u16 },
    /// Allocation of an engine-owned copy of caller bytes.
    CopyMem { bytes: u32 },
    /// Reference to caller-owned bytes without a copy.
    MakeRef { bytes: u32 },
    /// Shader creation, with the size of the consumed memory block.
    CreateShader { handle: u16, bytes: u32 },
    /// Shader destruction.
    DestroyShader { handle: u16 },
    /// Program creation from two shaders, whose handles are handed down.
    CreateProgram { handle: u16, vsh: u16, fsh: u16 },
    /// Program destruction.
    DestroyProgram { handle: u16 },
    /// Vertex buffer creation, with the size of the consumed memory block,
    /// the buffer flags, and the stride of the layout it was built with.
    CreateVertexBuffer { handle: u16, bytes: u32, flags: u16, stride: u16 },
    /// Vertex buffer destruction.
    DestroyVertexBuffer { handle: u16 },
    /// Index buffer creation, with the size of the consumed memory block and
    /// the buffer flags.
    CreateIndexBuffer { handle: u16, bytes: u32, flags: u16 },
    /// Index buffer destruction.
    DestroyIndexBuffer { handle: u16 },
}

/// What one pump step (`render_frame`) reports.
#[derive(PartialEq, Eq, Structural, Debug, Copy, Clone)]
pub enum RenderFrame {
    /// No session is live on this call path. This is the terminal signal the
    /// coordinator waits for during the shutdown drain.
    NoContext,
    /// A frame was processed.
    Render,
    /// No frame was ready within the polling interval; the caller should retry.
    Timeout,
    /// The session is tearing down. The model completes teardown
    /// synchronously, so this value is never produced by it; it is kept
    /// because pump callers must be prepared to observe it.
    Exiting,
}

/// The backend a renderer request resolves to. [`RendererType::Default`] is
/// only a request value, never an actual backend: a session started with it
/// runs on the engine's own choice of backend, which for this model — an
/// engine that performs no rendering — is [`RendererType::Noop`]. Every
/// other request is honored as it stands.
pub open spec fn resolved_renderer(renderer: RendererType) -> RendererType {
    if renderer is Default {
        RendererType::Noop
    } else {
        renderer
    }
}

/// The engine model.
///
/// All fields are private; the session manager is the only way to drive it.
/// The ghost fields count live resources and unconsumed memory copies, so the
/// resource-lifetime discipline can be stated and enforced in contracts
/// without any runtime bookkeeping.
pub struct Engine {
    log: Vec<EngineCall>,
    fail_init: bool,
    platform_set: bool,
    primed: bool,
    initialized: bool,
    session: u64,
    renderer: RendererType,
    next_handle: u16,
    frame_number: u32,
    frames_pending: u64,
    draws: u32,
    live: Ghost<int>,
    unconsumed: Ghost<int>,
}

impl Engine {
    /// Every call made into the engine so far, oldest first.
    pub closed spec fn calls(self) -> Seq<EngineCall> {
        self.log@
    }

    /// Whether this engine is configured to report failure from `Init`.
    pub closed spec fn init_fails(self) -> bool {
        self.fail_init
    }

    /// Whether platform handles have been delivered.
    pub closed spec fn platform_is_set(self) -> bool {
        self.platform_set
    }

    /// Whether a pump step has ever run. Initialization inspects this to
    /// decide which thread becomes the internal render thread, so it is a
    /// precondition of `init`.
    pub closed spec fn is_primed(self) -> bool {
        self.primed
    }

    /// Whether a session is currently live.
    pub closed spec fn is_initialized(self) -> bool {
        self.initialized
    }

    /// How many sessions have been started on this engine.
    pub closed spec fn session_id(self) -> u64 {
        self.session
    }

    /// The backend type of the current session. This is always an actual
    /// backend, never the [`RendererType::Default`] request value.
    pub closed spec fn renderer_in_use(self) -> RendererType {
        resolved_renderer(self.renderer)
    }

    /// How many resource handles the current session has allocated.
    pub closed spec fn handles_used(self) -> u16 {
        self.next_handle
    }

    /// Created-minus-destroyed resources of the current session. Teardown
    /// requires this to be zero: every handle must be destroyed before the
    /// session ends.
    pub closed spec fn live_resources(self) -> int {
        self.live@
    }

    /// Engine-owned memory copies not yet consumed by a creation call. Such
    /// copies are freed only on consumption, so whatever is left here when
    /// the engine goes away has leaked.
    pub closed spec fn unconsumed_copies(self) -> int {
        self.unconsumed@
    }

    /// How many frames the current session has submitted.
    pub closed spec fn frame_number(self) -> u32 {
        self.frame_number
    }

    /// Frames submitted by the main side and not yet processed by the pump.
    pub closed spec fn frames_pending(self) -> u64 {
        self.frames_pending
    }

    /// Draw submissions since the last frame submission.
    pub closed spec fn draw_count(self) -> u32 {
        self.draws
    }

    /// The session-lifecycle part of the state is unchanged.
    pub open spec fn same_session_as(self, other: Engine) -> bool {
        &&& self.init_fails() == other.init_fails()
        &&& self.platform_is_set() == other.platform_is_set()
        &&& self.is_primed() == other.is_primed()
        &&& self.is_initialized() == other.is_initialized()
        &&& self.session_id() == other.session_id()
        &&& self.renderer_in_use() == other.renderer_in_use()
    }

    /// The resource-accounting part of the state is unchanged.
    pub open spec fn same_resources_as(self, other: Engine) -> bool {
        &&& self.handles_used() == other.handles_used()
        &&& self.live_resources() == other.live_resources()
        &&& self.unconsumed_copies() == other.unconsumed_copies()
    }

    /// The frame-accounting part of the state is unchanged.
    pub open spec fn same_frames_as(self, other: Engine) -> bool {
        &&& self.frame_number() == other.frame_number()
        &&& self.frames_pending() == other.frames_pending()
        &&& self.draw_count() == other.draw_count()
    }

    /// What a pump step reports in this state.
    pub open spec fn pump_result(self) -> RenderFrame {
        if !self.is_initialized() {
            RenderFrame::NoContext
        } else if self.frames_pending() > 0 {
            RenderFrame::Render
        } else {
            RenderFrame::Timeout
        }
    }

    /// A fresh engine with an empty call log.
    pub fn new() -> (e: Engine)
        ensures
            e.calls() == Seq::<EngineCall>::empty(),
            !e.init_fails(),
            !e.platform_is_set(),
            !e.is_primed(),
            !e.is_initialized(),
            e.session_id() == 0,
            e.renderer_in_use() == RendererType::Noop,
            e.handles_used() == 0,
            e.live_resources() == 0,
            e.unconsumed_copies() == 0,
            e.frame_number() == 0,
            e.frames_pending() == 0,
            e.draw_count() == 0,
    {
        Engine {
            log: Vec::new(),
            fail_init: false,
            platform_set: false,
            primed: false,
            initialized: false,
            session: 0,
            renderer: RendererType::Noop,
            next_handle: 0,
            frame_number: 0,
            frames_pending: 0,
            draws: 0,
            live: Ghost(0),
            unconsumed: Ghost(0),
        }
    }

    /// A fresh engine configured so that initialization reports failure, for
    /// exercising the failure path of the session lifecycle.
    pub fn with_failing_init() -> (e: Engine)
        ensures
            e.calls() == Seq::<EngineCall>::empty(),
            e.init_fails(),
            !e.platform_is_set(),
            !e.is_primed(),
            !e.is_initialized(),
            e.session_id() == 0,
            e.renderer_in_use() == RendererType::Noop,
            e.handles_used() == 0,
            e.live_resources() == 0,
            e.unconsumed_copies() == 0,
            e.frame_number() == 0,
            e.frames_pending() == 0,
            e.draw_count() == 0,
    {
        Engine { fail_init: true, ..Engine::new() }
    }

    /// The call log, oldest first.
    pub fn log(&self) -> (r: &Vec<EngineCall>)
        ensures
            r@ == self.calls(),
    {
        &self.log
    }

    /// How many calls have been recorded.
    pub fn call_count(&self) -> (n: usize)
        ensures
            n == self.calls().len(),
    {
        self.log.len()
    }

    /// Whether a session is currently live.
    pub fn initialized(&self) -> (b: bool)
        ensures
            b == self.is_initialized(),
    {
        self.initialized
    }

    /// Whether a pump step has ever run.
    pub fn primed(&self) -> (b: bool)
        ensures
            b == self.is_primed(),
    {
        self.primed
    }

    /// Whether platform handles have been delivered.
    pub fn platform_ready(&self) -> (b: bool)
        ensures
            b == self.platform_is_set(),
    {
        self.platform_set
    }

    /// How many sessions have been started on this engine.
    pub fn session(&self) -> (s: u64)
        ensures
            s == self.session_id(),
    {
        self.session
    }

    /// The backend type of the current session: an actual backend, never
    /// the [`RendererType::Default`] request value.
    pub fn renderer_now(&self) -> (r: RendererType)
        ensures
            r == self.renderer_in_use(),
            !(r is Default),
    {
        match self.renderer {
            RendererType::Default => RendererType::Noop,
            other => other,
        }
    }

    /// How many frames the current session has submitted.
    pub fn frames(&self) -> (n: u32)
        ensures
            n == self.frame_number(),
    {
        self.frame_number
    }

    /// Frames submitted and not yet processed by the pump.
    pub fn pending(&self) -> (n: u64)
        ensures
            n == self.frames_pending(),
    {
        self.frames_pending
    }

    /// Records one outbound call, touching nothing else.
    pub(crate) fn record(&mut self, c: EngineCall)
        ensures
            final(self).calls() == old(self).calls().push(c),
            final(self).same_session_as(*old(self)),
            final(self).same_resources_as(*old(self)),
            final(self).same_frames_as(*old(self)),
    {
        self.log.push(c);
    }

    /// Delivers platform handles. Only legal before initialization.
    pub(crate) fn set_platform(&mut self, display: u64, window: u64, context: u64)
        requires
            !old(self).is_initialized(),
        ensures
            final(self).calls() == old(self).calls().push(
                EngineCall::SetPlatformData { display, window, context },
            ),
            final(self).platform_is_set(),
            final(self).init_fails() == old(self).init_fails(),
            final(self).is_primed() == old(self).is_primed(),
            !final(self).is_initialized(),
            final(self).session_id() == old(self).session_id(),
            final(self).renderer_in_use() == old(self).renderer_in_use(),
            final(self).same_resources_as(*old(self)),
            final(self).same_frames_as(*old(self)),
    {
        self.platform_set = true;
        self.log.push(EngineCall::SetPlatformData { display, window, context });
    }

    /// One pump step: records the advance call, reports the state of the
    /// session, and processes one pending frame if there is one. Callable in
    /// every state; the first call is what primes the engine for
    /// initialization.
    pub(crate) fn pump(&mut self) -> (r: RenderFrame)
        ensures
            r == old(self).pump_result(),
            final(self).calls() == old(self).calls().push(EngineCall::RenderFrame),
            final(self).is_primed(),
            final(self).init_fails() == old(self).init_fails(),
            final(self).platform_is_set() == old(self).platform_is_set(),
            final(self).is_initialized() == old(self).is_initialized(),
            final(self).session_id() == old(self).session_id(),
            final(self).renderer_in_use() == old(self).renderer_in_use(),
            final(self).same_resources_as(*old(self)),
            final(self).frame_number() == old(self).frame_number(),
            final(self).draw_count() == old(self).draw_count(),
            final(self).frames_pending() == (
                if old(self).is_initialized() && old(self).frames_pending() > 0 {
                    (old(self).frames_pending() - 1) as u64
                } else {
                    old(self).frames_pending()
                }
            ),
    {
        self.primed = true;
        self.log.push(EngineCall::RenderFrame);
        if !self.initialized {
            RenderFrame::NoContext
        } else if self.frames_pending > 0 {
            self.frames_pending = self.frames_pending - 1;
            RenderFrame::Render
        } else {
            RenderFrame::Timeout
        }
    }

    /// The initialization entry point. Requires the priming pump step to have
    /// run, and reports failure when so configured. A
    /// [`RendererType::Default`] request resolves to the engine's actual
    /// backend, per [`resolved_renderer`].
    pub(crate) fn init_engine(&mut self, renderer: RendererType, vendor: u16, device: u16) -> (ok:
        bool)
        requires
            old(self).is_primed(),
            !old(self).is_initialized(),
            old(self).session_id() < u64::MAX,
        ensures
            final(self).calls() == old(self).calls().push(EngineCall::Init { vendor, device }),
            ok == !old(self).init_fails(),
            final(self).init_fails() == old(self).init_fails(),
            final(self).platform_is_set() == old(self).platform_is_set(),
            final(self).is_primed(),
            final(self).unconsumed_copies() == old(self).unconsumed_copies(),
            ok ==> {
                &&& final(self).is_initialized()
                &&& final(self).session_id() == old(self).session_id() + 1
                &&& final(self).renderer_in_use() == resolved_renderer(renderer)
                &&& final(self).handles_used() == 0
                &&& final(self).live_resources() == 0
                &&& final(self).frame_number() == 0
                &&& final(self).frames_pending() == 0
                &&& final(self).draw_count() == 0
            },
            !ok ==> {
                &&& !final(self).is_initialized()
                &&& final(self).session_id() == old(self).session_id()
                &&& final(self).renderer_in_use() == old(self).renderer_in_use()
                &&& final(self).handles_used() == old(self).handles_used()
                &&& final(self).live_resources() == old(self).live_resources()
                &&& final(self).same_frames_as(*old(self))
            },
    {
        self.log.push(EngineCall::Init { vendor, device });
        if self.fail_init {
            false
        } else {
            self.initialized = true;
            self.session = self.session + 1;
            self.renderer = match renderer {
                RendererType::Default => RendererType::Noop,
                other => other,
            };
            self.next_handle = 0;
            self.frame_number = 0;
            self.frames_pending = 0;
            self.draws = 0;
            self.live = Ghost(0);
            true
        }
    }

    /// Session teardown. Every resource of the session must already have been
    /// destroyed.
    pub(crate) fn shutdown_engine(&mut self)
        requires
            old(self).is_initialized(),
            old(self).live_resources() == 0,
        ensures
            final(self).calls() == old(self).calls().push(EngineCall::Shutdown),
            !final(self).is_initialized(),
            final(self).init_fails() == old(self).init_fails(),
            final(self).platform_is_set() == old(self).platform_is_set(),
            final(self).is_primed() == old(self).is_primed(),
            final(self).session_id() == old(self).session_id(),
            final(self).renderer_in_use() == old(self).renderer_in_use(),
            final(self).handles_used() == old(self).handles_used(),
            final(self).live_resources() == 0,
            final(self).unconsumed_copies() == old(self).unconsumed_copies(),
            final(self).frame_number() == old(self).frame_number(),
            final(self).frames_pending() == 0,
            final(self).draw_count() == old(self).draw_count(),
    {
        self.log.push(EngineCall::Shutdown);
        self.initialized = false;
        self.frames_pending = 0;
    }

    /// Allocates the next resource handle of the current session. The caller
    /// records the matching creation call.
    pub(crate) fn alloc_resource(&mut self) -> (h: u16)
        requires
            old(self).is_initialized(),
            old(self).handles_used() < u16::MAX,
        ensures
            h == old(self).handles_used(),
            final(self).calls() == old(self).calls(),
            final(self).same_session_as(*old(self)),
            final(self).handles_used() == old(self).handles_used() + 1,
            final(self).live_resources() == old(self).live_resources() + 1,
            final(self).unconsumed_copies() == old(self).unconsumed_copies(),
            final(self).same_frames_as(*old(self)),
    {
        let h: u16 = self.next_handle;
        self.next_handle = self.next_handle + 1;
        proof {
            self.live@ = self.live@ + 1;
        }
        h
    }

    /// Accounts for one resource destruction. The caller records the matching
    /// destroy call.
    pub(crate) fn release_resource(&mut self)
        ensures
            final(self).calls() == old(self).calls(),
            final(self).same_session_as(*old(self)),
            final(self).handles_used() == old(self).handles_used(),
            final(self).live_resources() == old(self).live_resources() - 1,
            final(self).unconsumed_copies() == old(self).unconsumed_copies(),
            final(self).same_frames_as(*old(self)),
    {
        proof {
            self.live@ = self.live@ - 1;
        }
    }

    /// Accounts for a new engine-owned memory copy.
    pub(crate) fn note_copy(&mut self)
        ensures
            final(self).calls() == old(self).calls(),
            final(self).same_session_as(*old(self)),
            final(self).handles_used() == old(self).handles_used(),
            final(self).live_resources() == old(self).live_resources(),
            final(self).unconsumed_copies() == old(self).unconsumed_copies() + 1,
            final(self).same_frames_as(*old(self)),
    {
        proof {
            self.unconsumed@ = self.unconsumed@ + 1;
        }
    }

    /// Accounts for a memory copy consumed by a creation call.
    pub(crate) fn consume_copy(&mut self)
        ensures
            final(self).calls() == old(self).calls(),
            final(self).same_session_as(*old(self)),
            final(self).handles_used() == old(self).handles_used(),
            final(self).live_resources() == old(self).live_resources(),
            final(self).unconsumed_copies() == old(self).unconsumed_copies() - 1,
            final(self).same_frames_as(*old(self)),
    {
        proof {
            self.unconsumed@ = self.unconsumed@ - 1;
        }
    }

    /// Accounts for a frame submission: records nothing itself, but advances
    /// the frame counter, queues the frame for the pump, and resets the
    /// per-frame draw counter. Returns the number of the submitted frame.
    pub(crate) fn note_frame(&mut self) -> (n: u32)
        requires
            old(self).is_initialized(),
            old(self).frame_number() < u32::MAX,
            old(self).frames_pending() < u64::MAX,
        ensures
            n == old(self).frame_number(),
            final(self).calls() == old(self).calls(),
            final(self).same_session_as(*old(self)),
            final(self).same_resources_as(*old(self)),
            final(self).frame_number() == old(self).frame_number() + 1,
            final(self).frames_pending() == old(self).frames_pending() + 1,
            final(self).draw_count() == 0,
    {
        let n: u32 = self.frame_number;
        self.frame_number = self.frame_number + 1;
        self.frames_pending = self.frames_pending + 1;
        self.draws = 0;
        n
    }

    /// Accounts for one draw submission. Returns the number of draw calls
    /// used since the last frame submission.
    pub(crate) fn note_submit(&mut self) -> (n: u32)
        requires
            old(self).is_initialized(),
            old(self).draw_count() < u32::MAX,
        ensures
            n == old(self).draw_count() + 1,
            final(self).calls() == old(self).calls(),
            final(self).same_session_as(*old(self)),
            final(self).same_resources_as(*old(self)),
            final(self).frame_number() == old(self).frame_number(),
            final(self).frames_pending() == old(self).frames_pending(),
            final(self).draw_count() == old(self).draw_count() + 1,
    {
        self.draws = self.draws + 1;
        self.draws
    }
}

/// Pumps the render side: one frame-advance step.
///
/// This must be called once before a session is initialized (it is what makes
/// the calling side the render side), and must keep being called after the
/// main side starts tearing down, until it reports [`RenderFrame::NoContext`].
pub fn render_frame(engine: &mut Engine) -> (r: RenderFrame)
    ensures
        r == old(engine).pump_result(),
        final(engine).calls() == old(engine).calls().push(EngineCall::RenderFrame),
        final(engine).is_primed(),
        final(engine).init_fails() == old(engine).init_fails(),
        final(engine).platform_is_set() == old(engine).platform_is_set(),
        final(engine).is_initialized() == old(engine).is_initialized(),
        final(engine).session_id() == old(engine).session_id(),
        final(engine).renderer_in_use() == old(engine).renderer_in_use(),
        final(engine).same_resources_as(*old(engine)),
        final(engine).frame_number() == old(engine).frame_number(),
        final(engine).draw_count() == old(engine).draw_count(),
        final(engine).frames_pending() == (
            if old(engine).is_initialized() && old(engine).frames_pending() > 0 {
                (old(engine).frames_pending() - 1) as u64
            } else {
                old(engine).frames_pending()
            }
        ),
{
    engine.pump()
}

/// The renderer in use is always an actual backend: whatever state the
/// engine is in, [`Engine::renderer_in_use`] never yields the
/// [`RendererType::Default`] request value.
pub proof fn lemma_renderer_never_default(e: Engine)
    ensures
        !(e.renderer_in_use() is Default),
{
}

} // verus!
