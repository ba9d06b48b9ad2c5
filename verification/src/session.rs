//! The session coordinator.
//!
//! [`run`] owns one end-to-end session: it primes the pump before anything
//! else, initializes the engine, hands the main-side work to the context,
//! tears the session down, and drains the pump until it reports
//! [`RenderFrame::NoContext`]. Its contract pins down the complete call
//! trace the engine observes, for the success path and for the failure
//! paths alike; the proof functions at the end of the module state the
//! ordering laws of the protocol over those traces.

use vstd::prelude::*;

use crate::context::{init, Bgfx};
use crate::engine::{Engine, EngineCall, RenderFrame};
use crate::flags::{ClearFlags, DebugFlags, ResetFlags, StateFlags};
use crate::{BgfxError, RendererType, PCI_ID_NONE};

verus! {

/// Capability token for the pump side of a session.
///
/// It exposes exactly one operation: advance-and-report. In particular it
/// offers no way to create or destroy a resource — those demand the
/// main-side token, so using a resource from the pump side is a type error.
/// The coordinator mints the single instance of a session and keeps it on
/// the calling side.
pub struct PumpContext {
    _dummy: u32,
}

impl PumpContext {
    /// One pump step: advance frame state and report.
    pub fn advance(&self, engine: &mut Engine) -> (r: RenderFrame)
        ensures
            r == old(engine).pump_result(),
            final(engine).calls() == old(engine).calls().push(EngineCall::RenderFrame),
            final(engine).is_primed(),
            final(engine).init_fails() == old(engine).init_fails(),
            final(engine).platform_is_set() == old(engine).platform_is_set(),
            final(engine).is_initialized() == old(engine).is_initialized(),
            final(engine).session_id() == old(engine).session_id(),
            final(engine).renderer_in_use() == old(engine).renderer_in_use(),
            final(engine).same_resources_as(*old(engine)),
            final(engine).frame_number() == old(engine).frame_number(),
            final(engine).draw_count() == old(engine).draw_count(),
            final(engine).frames_pending() == (
                if old(engine).is_initialized() && old(engine).frames_pending() > 0 {
                    (old(engine).frames_pending() - 1) as u64
                } else {
                    old(engine).frames_pending()
                }
            ),
    {
        crate::engine::render_frame(engine)
    }
}

/// One main-side command of a session script: the work `run` performs
/// between initialization and teardown, as data.
#[derive(PartialEq, Eq, Debug, Copy, Clone)]
pub enum MainCmd {
    /// Reset the backbuffer to the given size, with the given flags.
    Reset { width: u16, height: u16, flags: ResetFlags },
    /// Set the debug flags to use.
    SetDebug { flags: DebugFlags },
    /// Set the clear options of one view slot. `depth_bits` carries the raw
    /// bit pattern of the depth clear value.
    SetViewClear { id: u8, flags: ClearFlags, rgba: u32, depth_bits: u32, stencil: u8 },
    /// Set the viewport rectangle of one view slot.
    SetViewRect { id: u8, x: u16, y: u16, width: u16, height: u16 },
    /// Set the render state for the next draw.
    SetState { flags: StateFlags, rgba: Option<u32> },
    /// Touch a view.
    Touch { id: u8 },
    /// Finish the frame, handing the recorded work to the pump side.
    Frame,
    /// Clear the debug text overlay.
    DbgTextClear { attr: Option<u8>, small: Option<bool> },
    /// Print into the debug text overlay.
    DbgTextPrint { x: u16, y: u16, attr: u8 },
}

/// The engine call one command issues.
pub open spec fn call_of(c: MainCmd) -> EngineCall {
    match c {
        MainCmd::Reset { width, height, flags } => EngineCall::Reset {
            width,
            height,
            flags: flags.0,
        },
        MainCmd::SetDebug { flags } => EngineCall::SetDebug { flags: flags.0 },
        MainCmd::SetViewClear { id, flags, rgba, depth_bits, stencil } => EngineCall::SetViewClear {
            id,
            flags: flags.0,
            rgba,
            depth_bits,
            stencil,
        },
        MainCmd::SetViewRect { id, x, y, width, height } => EngineCall::SetViewRect {
            id,
            x,
            y,
            width,
            height,
        },
        MainCmd::SetState { flags, rgba } => EngineCall::SetState {
            flags: flags.0,
            rgba: (if rgba is Some { rgba->0 } else { 0 }),
        },
        MainCmd::Touch { id } => EngineCall::Touch { id },
        MainCmd::Frame => EngineCall::Frame,
        MainCmd::DbgTextClear { attr, small } => EngineCall::DbgTextClear {
            attr: (if attr is Some { attr->0 } else { 0 }),
            small: (if small is Some { small->0 } else { false }),
        },
        MainCmd::DbgTextPrint { x, y, attr } => EngineCall::DbgTextPrint { x, y, attr },
    }
}

/// The initialization call `run` issues: default adapter selection.
pub open spec fn run_init_call() -> EngineCall {
    EngineCall::Init { vendor: PCI_ID_NONE, device: 0 }
}

/// The complete trace of a successful `run`: the priming pump step, the
/// initialization, the script's own calls in order, the teardown, and the
/// draining pump step that observes the end of the session.
pub open spec fn run_calls(cmds: Seq<MainCmd>) -> Seq<EngineCall> {
    seq![EngineCall::RenderFrame, run_init_call()] + cmds.map_values(|c: MainCmd| call_of(c))
        + seq![EngineCall::Shutdown, EngineCall::RenderFrame]
}

/// The complete trace of a `run` whose initialization failed: the priming
/// pump step, the failed initialization, and the draining pump step. No
/// script command runs and no resource is ever created.
pub open spec fn run_calls_init_failed() -> Seq<EngineCall> {
    seq![EngineCall::RenderFrame, run_init_call(), EngineCall::RenderFrame]
}

/// Executes one script command through the main-side context.
fn exec_cmd(ctx: &Bgfx, engine: &mut Engine, c: MainCmd)
    requires
        old(engine).is_initialized(),
        ctx.session_id() == old(engine).session_id(),
        c is Frame ==> old(engine).frame_number() < u32::MAX && old(engine).frames_pending()
            < u64::MAX,
    ensures
        final(engine).calls() == old(engine).calls().push(call_of(c)),
        final(engine).same_session_as(*old(engine)),
        final(engine).same_resources_as(*old(engine)),
        c is Frame ==> final(engine).frame_number() == old(engine).frame_number() + 1
            && final(engine).frames_pending() == old(engine).frames_pending() + 1,
        !(c is Frame) ==> final(engine).same_frames_as(*old(engine)),
{
    match c {
        MainCmd::Reset { width, height, flags } => ctx.reset(engine, width, height, flags),
        MainCmd::SetDebug { flags } => ctx.set_debug(engine, flags),
        MainCmd::SetViewClear { id, flags, rgba, depth_bits, stencil } => ctx.set_view_clear(
            engine,
            id,
            flags,
            rgba,
            depth_bits,
            stencil,
        ),
        MainCmd::SetViewRect { id, x, y, width, height } => ctx.set_view_rect(
            engine,
            id,
            x,
            y,
            width,
            height,
        ),
        MainCmd::SetState { flags, rgba } => ctx.set_state(engine, flags, rgba),
        MainCmd::Touch { id } => ctx.touch(engine, id),
        MainCmd::Frame => {
            let _ = ctx.frame(engine, false);
        },
        MainCmd::DbgTextClear { attr, small } => ctx.dbg_text_clear(engine, attr, small),
        MainCmd::DbgTextPrint { x, y, attr } => ctx.dbg_text_print(engine, x, y, attr, ""),
    }
}

/// Runs one complete session: primes the pump on the calling side, starts a
/// session, performs the script on the main side, tears the session down,
/// and drains the pump until it observes the end of the session.
///
/// When a session is already live the call fails with
/// [`BgfxError::SessionAlreadyActive`] and performs no engine call at all.
/// When the platform data was never applied the call fails with
/// [`BgfxError::InvalidWindow`] — the window handle the engine demands on
/// every platform is missing — again without any engine call. When the
/// engine reports initialization failure the call fails with
/// [`BgfxError::InitFailed`], no script command runs, and the drain still
/// completes — the trace is exactly [`run_calls_init_failed`]. Otherwise the
/// trace is exactly [`run_calls`] of the script and no session is left live.
pub fn run(engine: &mut Engine, cmds: &Vec<MainCmd>) -> (r: Result<(), BgfxError>)
    requires
        old(engine).session_id() < u64::MAX,
        cmds@.len() < u32::MAX,
    ensures
        old(engine).is_initialized() ==> (r == Err::<(), BgfxError>(BgfxError::SessionAlreadyActive)
            && *final(engine) == *old(engine)),
        !old(engine).is_initialized() && !old(engine).platform_is_set() ==> (r == Err::<(),
        BgfxError>(BgfxError::InvalidWindow) && *final(engine) == *old(engine)),
        !old(engine).is_initialized() && old(engine).platform_is_set() && old(engine).init_fails()
            ==> {
            &&& r == Err::<(), BgfxError>(BgfxError::InitFailed)
            &&& final(engine).calls() == old(engine).calls() + run_calls_init_failed()
            &&& !final(engine).is_initialized()
            &&& final(engine).session_id() == old(engine).session_id()
            &&& final(engine).live_resources() == old(engine).live_resources()
            &&& final(engine).unconsumed_copies() == old(engine).unconsumed_copies()
        },
        !old(engine).is_initialized() && old(engine).platform_is_set() && !old(engine).init_fails()
            ==> {
            &&& r == Ok::<(), BgfxError>(())
            &&& final(engine).calls() == old(engine).calls() + run_calls(cmds@)
            &&& !final(engine).is_initialized()
            &&& final(engine).session_id() == old(engine).session_id() + 1
            &&& final(engine).live_resources() == 0
            &&& final(engine).unconsumed_copies() == old(engine).unconsumed_copies()
        },
        final(engine).init_fails() == old(engine).init_fails(),
        final(engine).platform_is_set() == old(engine).platform_is_set(),
{
    if engine.initialized() {
        return Err(BgfxError::SessionAlreadyActive);
    }
    if !engine.platform_ready() {
        // The engine demands a window handle on every platform; none was
        // ever delivered, so fail before any engine call is made.
        return Err(BgfxError::InvalidWindow);
    }
    let pump = PumpContext { _dummy: 0 };
    // Prime the pump before initialization: the engine decides from this
    // which thread becomes its internal render thread.
    let _ = pump.advance(engine);
    match init(engine, RendererType::Default, None, None) {
        Err(_) => {
            // The session never came up, so there is no main-side work; the
            // pump observes the absence of a session on the first drain step.
            let drained = pump.advance(engine);
            assert(drained is NoContext);
            assert(engine.calls() =~= old(engine).calls() + run_calls_init_failed());
            Err(BgfxError::InitFailed)
        },
        Ok(ctx) => {
            let ghost prefix = old(engine).calls() + seq![EngineCall::RenderFrame, run_init_call()];
            assert(engine.calls() =~= prefix);
            let mut i: usize = 0;
            while i < cmds.len()
                invariant
                    i <= cmds@.len(),
                    cmds@.len() < u32::MAX,
                    engine.is_initialized(),
                    ctx.session_id() == engine.session_id(),
                    engine.calls() == prefix + cmds@.take(i as int).map_values(
                        |c: MainCmd| call_of(c),
                    ),
                    engine.init_fails() == old(engine).init_fails(),
                    engine.platform_is_set(),
                    engine.session_id() == old(engine).session_id() + 1,
                    engine.live_resources() == 0,
                    engine.unconsumed_copies() == old(engine).unconsumed_copies(),
                    engine.frame_number() <= i,
                    engine.frames_pending() <= i,
                decreases cmds@.len() - i,
            {
                exec_cmd(&ctx, engine, cmds[i]);
                proof {
                    assert(cmds@.take(i + 1) =~= cmds@.take(i as int).push(cmds@[i as int]));
                    assert(cmds@.take(i + 1).map_values(|c: MainCmd| call_of(c)) =~= cmds@.take(
                        i as int,
                    ).map_values(|c: MainCmd| call_of(c)).push(call_of(cmds@[i as int])));
                }
                i = i + 1;
            }
            proof {
                assert(cmds@.take(cmds@.len() as int) =~= cmds@);
            }
            ctx.shutdown(engine);
            // The teardown is complete, so the pump observes the end of the
            // session on the first drain step.
            let drained = pump.advance(engine);
            assert(drained is NoContext);
            assert(engine.calls() =~= old(engine).calls() + run_calls(cmds@));
            Ok(())
        },
    }
}

/// Priming order: in every trace `run` produces — successful or not — the
/// very first engine call is a pump step, and every initialization call
/// comes strictly after it.
pub proof fn lemma_priming_order(cmds: Seq<MainCmd>)
    ensures
        run_calls(cmds)[0] == EngineCall::RenderFrame,
        forall|i: int|
            0 <= i < run_calls(cmds).len() && run_calls(cmds)[i] is Init ==> i > 0,
        run_calls_init_failed()[0] == EngineCall::RenderFrame,
        forall|i: int|
            0 <= i < run_calls_init_failed().len() && run_calls_init_failed()[i] is Init ==> i > 0,
{
    assert forall|i: int|
        0 <= i < run_calls(cmds).len() && run_calls(cmds)[i] is Init implies i > 0 by {
        if i == 0 {
            assert(run_calls(cmds)[0] == EngineCall::RenderFrame);
        }
    }
    assert forall|i: int|
        0 <= i < run_calls_init_failed().len() && run_calls_init_failed()[i] is Init implies i
        > 0 by {
        if i == 0 {
            assert(run_calls_init_failed()[0] == EngineCall::RenderFrame);
        }
    }
}

/// Shutdown drain: once no session is live — in particular right after the
/// teardown call — a single pump step already reports
/// [`RenderFrame::NoContext`], so the coordinator's drain needs exactly one
/// retry. The trace of a successful `run` accordingly ends with the teardown
/// call followed by one final pump step.
pub proof fn lemma_shutdown_drain(e: Engine, cmds: Seq<MainCmd>)
    requires
        !e.is_initialized(),
    ensures
        e.pump_result() == RenderFrame::NoContext,
        run_calls(cmds)[run_calls(cmds).len() - 2] == EngineCall::Shutdown,
        run_calls(cmds)[run_calls(cmds).len() - 1] == EngineCall::RenderFrame,
{
}

/// Handle lifetime ordering: when a program is destroyed in a session whose
/// log later records the teardown call, the program's own destroy call and
/// the destroy calls of both constituent shaders all appear in the log, in
/// that order, strictly before the teardown call.
pub proof fn lemma_handle_lifetime(
    before: Seq<EngineCall>,
    between: Seq<EngineCall>,
    program: u16,
    vsh: u16,
    fsh: u16,
)
    ensures
        ({
            let log = before + crate::resource::program_destroy_calls(program, vsh, fsh) + between
                + seq![EngineCall::Shutdown];
            &&& log[before.len() as int] == EngineCall::DestroyProgram { handle: program }
            &&& log[before.len() as int + 1] == EngineCall::DestroyShader { handle: vsh }
            &&& log[before.len() as int + 2] == EngineCall::DestroyShader { handle: fsh }
            &&& log[log.len() as int - 1] == EngineCall::Shutdown
            &&& before.len() + 2 < log.len() - 1
        }),
{
}

/// Init-failure cleanliness: the trace of a `run` whose initialization
/// failed contains no resource-creation call and no memory allocation at
/// all.
pub proof fn lemma_init_failure_clean()
    ensures
        forall|i: int|
            0 <= i < run_calls_init_failed().len() ==> !is_resource_creation(
                run_calls_init_failed()[i],
            ),
{
    assert forall|i: int|
        0 <= i < run_calls_init_failed().len() implies !is_resource_creation(
        run_calls_init_failed()[i],
    ) by {
        if i == 0 || i == 2 {
            assert(run_calls_init_failed()[i] == EngineCall::RenderFrame);
        } else {
            assert(run_calls_init_failed()[i] == run_init_call());
        }
    }
}

/// Whether a call creates a resource or allocates memory for one.
pub open spec fn is_resource_creation(c: EngineCall) -> bool {
    ||| c is CreateShader
    ||| c is CreateProgram
    ||| c is CreateVertexBuffer
    ||| c is CreateIndexBuffer
    ||| c is CopyMem
    ||| c is MakeRef
}

} // verus!
