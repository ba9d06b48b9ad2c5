//! Session lifecycle tests against the instrumented engine.

use bgfx::engine::{Engine, EngineCall, RenderFrame};
use bgfx::flags::{ClearFlags, ResetFlags, CLEAR_COLOR, CLEAR_DEPTH, RESET_VSYNC};
use bgfx::platform::PlatformData;
use bgfx::session::{run, MainCmd};
use bgfx::{init, render_frame, BgfxError, RendererType};

fn engine_with_platform() -> Engine {
    let mut e = Engine::new();
    let applied = PlatformData::new().display(1).window(1).apply(&mut e);
    assert!(applied.is_ok());
    e
}

#[test]
fn example_scenario_trace() {
    let mut e = engine_with_platform();
    let cmds = vec![
        MainCmd::Reset { width: 1280, height: 720, flags: ResetFlags::from_bits(RESET_VSYNC) },
        MainCmd::SetViewClear {
            id: 0,
            flags: ClearFlags::from_bits(CLEAR_COLOR | CLEAR_DEPTH),
            rgba: 0x303030ff,
            depth_bits: 1.0f32.to_bits(),
            stencil: 0,
        },
        MainCmd::Touch { id: 0 },
        MainCmd::Frame,
    ];
    let r = run(&mut e, &cmds);
    assert!(r.is_ok());
    let expected = vec![
        EngineCall::SetPlatformData { display: 1, window: 1, context: 0 },
        EngineCall::RenderFrame,
        EngineCall::Init { vendor: 0, device: 0 },
        EngineCall::Reset { width: 1280, height: 720, flags: RESET_VSYNC },
        EngineCall::SetViewClear {
            id: 0,
            flags: CLEAR_COLOR | CLEAR_DEPTH,
            rgba: 0x303030ff,
            depth_bits: 0x3f800000,
            stencil: 0,
        },
        EngineCall::Touch { id: 0 },
        EngineCall::Frame,
        EngineCall::Shutdown,
        EngineCall::RenderFrame,
    ];
    assert_eq!(e.log(), &expected);
    assert!(!e.initialized());
}

#[test]
fn priming_pump_step_precedes_init() {
    let mut e = engine_with_platform();
    let r = run(&mut e, &vec![]);
    assert!(r.is_ok());
    let log = e.log();
    // the first engine call after the platform handshake is the pump step
    assert_eq!(log[1], EngineCall::RenderFrame);
    let init_pos = log
        .iter()
        .position(|c| matches!(c, EngineCall::Init { .. }))
        .expect("no init call in the trace");
    let pump_pos = log
        .iter()
        .position(|c| matches!(c, EngineCall::RenderFrame))
        .expect("no pump step in the trace");
    assert!(pump_pos < init_pos);
}

#[test]
fn empty_script_trace() {
    let mut e = engine_with_platform();
    let r = run(&mut e, &vec![]);
    assert!(r.is_ok());
    let expected = vec![
        EngineCall::SetPlatformData { display: 1, window: 1, context: 0 },
        EngineCall::RenderFrame,
        EngineCall::Init { vendor: 0, device: 0 },
        EngineCall::Shutdown,
        EngineCall::RenderFrame,
    ];
    assert_eq!(e.log(), &expected);
}

#[test]
fn init_failure_drains_cleanly() {
    let mut e = Engine::with_failing_init();
    let applied = PlatformData::new().display(1).window(1).apply(&mut e);
    assert!(applied.is_ok());
    let r = run(&mut e, &vec![MainCmd::Touch { id: 0 }]);
    assert_eq!(r, Err(BgfxError::InitFailed));
    let expected = vec![
        EngineCall::SetPlatformData { display: 1, window: 1, context: 0 },
        EngineCall::RenderFrame,
        EngineCall::Init { vendor: 0, device: 0 },
        EngineCall::RenderFrame,
    ];
    assert_eq!(e.log(), &expected);
    // no resource-creation call was made
    for c in e.log().iter() {
        assert!(!matches!(
            c,
            EngineCall::CreateShader { .. }
                | EngineCall::CreateProgram { .. }
                | EngineCall::CreateVertexBuffer { .. }
                | EngineCall::CreateIndexBuffer { .. }
                | EngineCall::CopyMem { .. }
                | EngineCall::MakeRef { .. }
        ));
    }
    assert!(!e.initialized());
}

#[test]
fn second_run_rejected_while_session_live() {
    let mut e = engine_with_platform();
    // bring a session up by hand, as the worker side of a first run would
    assert_eq!(render_frame(&mut e), RenderFrame::NoContext);
    let ctx = init(&mut e, RendererType::Default, None, None).expect("init failed");
    let before = e.call_count();
    let r = run(&mut e, &vec![MainCmd::Touch { id: 0 }]);
    assert_eq!(r, Err(BgfxError::SessionAlreadyActive));
    // no engine call was performed by the rejected run
    assert_eq!(e.call_count(), before);
    ctx.shutdown(&mut e);
    assert_eq!(render_frame(&mut e), RenderFrame::NoContext);
}

#[test]
fn shutdown_drain_first_retry_reports_no_context() {
    let mut e = engine_with_platform();
    assert_eq!(render_frame(&mut e), RenderFrame::NoContext);
    let ctx = init(&mut e, RendererType::Default, None, None).expect("init failed");
    // no frame pending: the pump times out and the caller retries
    assert_eq!(render_frame(&mut e), RenderFrame::Timeout);
    // a submitted frame is processed
    assert_eq!(ctx.frame(&mut e, false), 0);
    assert_eq!(render_frame(&mut e), RenderFrame::Render);
    assert_eq!(render_frame(&mut e), RenderFrame::Timeout);
    ctx.shutdown(&mut e);
    // the very first retry after teardown observes the end of the session
    assert_eq!(render_frame(&mut e), RenderFrame::NoContext);
}

#[test]
fn frame_counter_increments_per_session() {
    let mut e = engine_with_platform();
    assert_eq!(render_frame(&mut e), RenderFrame::NoContext);
    let ctx = init(&mut e, RendererType::Default, None, None).expect("init failed");
    assert_eq!(ctx.frame(&mut e, false), 0);
    assert_eq!(ctx.frame(&mut e, false), 1);
    assert_eq!(ctx.frame(&mut e, false), 2);
    assert_eq!(e.frames(), 3);
    assert_eq!(e.pending(), 3);
    assert_eq!(render_frame(&mut e), RenderFrame::Render);
    assert_eq!(e.pending(), 2);
    ctx.shutdown(&mut e);
    assert_eq!(e.pending(), 0);
}

#[test]
fn sessions_are_numbered() {
    let mut e = engine_with_platform();
    assert_eq!(e.session(), 0);
    assert!(run(&mut e, &vec![]).is_ok());
    assert_eq!(e.session(), 1);
    assert!(run(&mut e, &vec![]).is_ok());
    assert_eq!(e.session(), 2);
}

#[test]
fn renderer_type_is_reported() {
    let mut e = engine_with_platform();
    assert_eq!(render_frame(&mut e), RenderFrame::NoContext);
    let ctx = init(&mut e, RendererType::Vulkan, None, None).expect("init failed");
    assert_eq!(ctx.get_renderer_type(&e), RendererType::Vulkan);
    ctx.shutdown(&mut e);
}

#[test]
fn default_request_resolves_to_actual_backend() {
    let mut e = engine_with_platform();
    assert_eq!(render_frame(&mut e), RenderFrame::NoContext);
    let ctx = init(&mut e, RendererType::Default, None, None).expect("init failed");
    // Default is only a request value: the session reports the backend the
    // engine actually runs, which for the model is Noop.
    let in_use = ctx.get_renderer_type(&e);
    assert_ne!(in_use, RendererType::Default);
    assert_eq!(in_use, RendererType::Noop);
    ctx.shutdown(&mut e);
}

#[test]
fn run_without_platform_data_fails() {
    let mut e = Engine::new();
    let r = run(&mut e, &vec![MainCmd::Touch { id: 0 }]);
    assert_eq!(r, Err(BgfxError::InvalidWindow));
    // no engine call was performed
    assert_eq!(e.call_count(), 0);
    assert!(!e.initialized());
}

#[test]
fn draw_state_calls_are_recorded() {
    let mut e = engine_with_platform();
    assert_eq!(render_frame(&mut e), RenderFrame::NoContext);
    let ctx = init(&mut e, RendererType::Default, None, None).expect("init failed");
    let identity_bits: [u32; 16] = [
        0x3f800000, 0, 0, 0, 0, 0x3f800000, 0, 0, 0, 0, 0x3f800000, 0, 0, 0, 0, 0x3f800000,
    ];
    ctx.reset(&mut e, 800, 600, ResetFlags::from_bits(0));
    ctx.set_debug(&mut e, bgfx::DebugFlags::from_bits(bgfx::flags::DEBUG_TEXT));
    ctx.set_view_rect(&mut e, 0, 0, 0, 800, 600);
    ctx.set_view_transform(&mut e, 0, &identity_bits, &identity_bits);
    ctx.set_transform(&mut e, &identity_bits);
    ctx.set_state(&mut e, bgfx::StateFlags::from_bits(7), None);
    ctx.set_state(&mut e, bgfx::StateFlags::from_bits(7), Some(0xff00ff00));
    ctx.shutdown(&mut e);
    let expected_tail = vec![
        EngineCall::Reset { width: 800, height: 600, flags: 0 },
        EngineCall::SetDebug { flags: bgfx::flags::DEBUG_TEXT },
        EngineCall::SetViewRect { id: 0, x: 0, y: 0, width: 800, height: 600 },
        EngineCall::SetViewTransform { id: 0 },
        EngineCall::SetTransform,
        EngineCall::SetState { flags: 7, rgba: 0 },
        EngineCall::SetState { flags: 7, rgba: 0xff00ff00 },
        EngineCall::Shutdown,
    ];
    let log = e.log();
    assert_eq!(&log[log.len() - 8..], &expected_tail[..]);
}

#[test]
fn adapter_selection_is_handed_down() {
    let mut e = engine_with_platform();
    assert_eq!(render_frame(&mut e), RenderFrame::NoContext);
    let ctx = init(&mut e, RendererType::Default, Some(bgfx::PCI_ID_NVIDIA), Some(7))
        .expect("init failed");
    assert_eq!(
        e.log()[2],
        EngineCall::Init { vendor: bgfx::PCI_ID_NVIDIA, device: 7 }
    );
    ctx.shutdown(&mut e);
}
