//! Resource handle lifetime tests against the instrumented engine.

use bgfx::engine::{Engine, EngineCall, RenderFrame};
use bgfx::flags::{BufferFlags, BUFFER_NONE};
use bgfx::platform::PlatformData;
use bgfx::resource::{IndexBuffer, Memory, Program, Shader, VertexBuffer};
use bgfx::vertex::{Attrib, AttribType, VertexDecl};
use bgfx::{init, render_frame, Bgfx, RendererType};

fn live_session() -> (Engine, Bgfx) {
    let mut e = Engine::new();
    let applied = PlatformData::new().display(1).window(1).apply(&mut e);
    assert!(applied.is_ok());
    assert_eq!(render_frame(&mut e), RenderFrame::NoContext);
    let ctx = init(&mut e, RendererType::Default, None, None).expect("init failed");
    (e, ctx)
}

#[test]
fn program_destroy_releases_shaders_before_shutdown() {
    let (mut e, ctx) = live_session();
    let vmem = Memory::copy(&ctx, &mut e, &[1, 2, 3, 4]);
    let vsh = Shader::new(&ctx, &mut e, vmem);
    let fmem = Memory::copy(&ctx, &mut e, &[5, 6, 7, 8]);
    let fsh = Shader::new(&ctx, &mut e, fmem);
    let program = Program::new(&ctx, &mut e, vsh, fsh);
    program.destroy(&ctx, &mut e);
    ctx.shutdown(&mut e);
    assert_eq!(render_frame(&mut e), RenderFrame::NoContext);
    let expected = vec![
        EngineCall::SetPlatformData { display: 1, window: 1, context: 0 },
        EngineCall::RenderFrame,
        EngineCall::Init { vendor: 0, device: 0 },
        EngineCall::CopyMem { bytes: 4 },
        EngineCall::CreateShader { handle: 0, bytes: 4 },
        EngineCall::CopyMem { bytes: 4 },
        EngineCall::CreateShader { handle: 1, bytes: 4 },
        EngineCall::CreateProgram { handle: 2, vsh: 0, fsh: 1 },
        EngineCall::DestroyProgram { handle: 2 },
        EngineCall::DestroyShader { handle: 0 },
        EngineCall::DestroyShader { handle: 1 },
        EngineCall::Shutdown,
        EngineCall::RenderFrame,
    ];
    assert_eq!(e.log(), &expected);
    // both shader destroys happen, after the program's own destroy call and
    // strictly before the session-level shutdown
    let log = e.log();
    let destroy_program = log
        .iter()
        .position(|c| matches!(c, EngineCall::DestroyProgram { .. }))
        .unwrap();
    let shutdown = log
        .iter()
        .position(|c| matches!(c, EngineCall::Shutdown))
        .unwrap();
    let shader_destroys: Vec<usize> = log
        .iter()
        .enumerate()
        .filter(|(_, c)| matches!(c, EngineCall::DestroyShader { .. }))
        .map(|(i, _)| i)
        .collect();
    assert_eq!(shader_destroys.len(), 2);
    for i in shader_destroys {
        assert!(destroy_program < i);
        assert!(i < shutdown);
    }
}

#[test]
fn shader_destroy_is_issued_once() {
    let (mut e, ctx) = live_session();
    let mem = Memory::copy(&ctx, &mut e, &[0; 16]);
    let sh = Shader::new(&ctx, &mut e, mem);
    sh.destroy(&ctx, &mut e);
    ctx.shutdown(&mut e);
    let destroys = e
        .log()
        .iter()
        .filter(|c| matches!(c, EngineCall::DestroyShader { .. }))
        .count();
    assert_eq!(destroys, 1);
}

#[test]
fn buffers_are_created_bound_and_destroyed() {
    let (mut e, ctx) = live_session();
    let decl = VertexDecl::new(None)
        .add(Attrib::Position, 3, AttribType::Float)
        .add(Attrib::Color0, 4, AttribType::Uint8(true))
        .end();
    let verts = Memory::copy(&ctx, &mut e, &[0; 64]);
    let vbuf = VertexBuffer::new(&ctx, &mut e, verts, &decl, BufferFlags::from_bits(BUFFER_NONE));
    let indices = Memory::reference(&ctx, &mut e, &[0; 12]);
    let ibuf = IndexBuffer::new(&ctx, &mut e, indices, BufferFlags::from_bits(BUFFER_NONE));
    ctx.set_vertex_buffer(&mut e, 0, &vbuf);
    ctx.set_index_buffer(&mut e, &ibuf);
    vbuf.destroy(&ctx, &mut e);
    ibuf.destroy(&ctx, &mut e);
    ctx.shutdown(&mut e);
    let expected = vec![
        EngineCall::SetPlatformData { display: 1, window: 1, context: 0 },
        EngineCall::RenderFrame,
        EngineCall::Init { vendor: 0, device: 0 },
        EngineCall::CopyMem { bytes: 64 },
        EngineCall::CreateVertexBuffer { handle: 0, bytes: 64, flags: 0, stride: 16 },
        EngineCall::MakeRef { bytes: 12 },
        EngineCall::CreateIndexBuffer { handle: 1, bytes: 12, flags: 0 },
        EngineCall::SetVertexBuffer { stream: 0, handle: 0 },
        EngineCall::SetIndexBuffer { handle: 1 },
        EngineCall::DestroyVertexBuffer { handle: 0 },
        EngineCall::DestroyIndexBuffer { handle: 1 },
        EngineCall::Shutdown,
    ];
    assert_eq!(e.log(), &expected);
}

#[test]
fn submit_counts_draws_per_frame() {
    let (mut e, ctx) = live_session();
    let vmem = Memory::copy(&ctx, &mut e, &[1]);
    let vsh = Shader::new(&ctx, &mut e, vmem);
    let fmem = Memory::copy(&ctx, &mut e, &[2]);
    let fsh = Shader::new(&ctx, &mut e, fmem);
    let program = Program::new(&ctx, &mut e, vsh, fsh);
    assert_eq!(ctx.submit(&mut e, 0, &program, false), 1);
    assert_eq!(ctx.submit(&mut e, 0, &program, false), 2);
    assert_eq!(ctx.frame(&mut e, false), 0);
    // the per-frame draw counter starts over after a frame submission
    assert_eq!(ctx.submit(&mut e, 1, &program, true), 1);
    program.destroy(&ctx, &mut e);
    ctx.shutdown(&mut e);
    let submits: Vec<EngineCall> = e
        .log()
        .iter()
        .filter(|c| matches!(c, EngineCall::Submit { .. }))
        .cloned()
        .collect();
    assert_eq!(
        submits,
        vec![
            EngineCall::Submit { view: 0, program: 2 },
            EngineCall::Submit { view: 0, program: 2 },
            EngineCall::Submit { view: 1, program: 2 },
        ]
    );
}

#[test]
fn handles_are_numbered_per_session() {
    let (mut e, ctx) = live_session();
    let m1 = Memory::copy(&ctx, &mut e, &[1]);
    let s1 = Shader::new(&ctx, &mut e, m1);
    assert_eq!(s1.handle(), 0);
    let m2 = Memory::copy(&ctx, &mut e, &[2]);
    let s2 = Shader::new(&ctx, &mut e, m2);
    assert_eq!(s2.handle(), 1);
    s1.destroy(&ctx, &mut e);
    s2.destroy(&ctx, &mut e);
    ctx.shutdown(&mut e);

    // a new session numbers its handles from zero again
    assert_eq!(render_frame(&mut e), RenderFrame::NoContext);
    let ctx2 = init(&mut e, RendererType::Default, None, None).expect("init failed");
    let m3 = Memory::copy(&ctx2, &mut e, &[3]);
    let s3 = Shader::new(&ctx2, &mut e, m3);
    assert_eq!(s3.handle(), 0);
    s3.destroy(&ctx2, &mut e);
    ctx2.shutdown(&mut e);
}

#[test]
fn debug_overlay_calls_are_recorded() {
    let (mut e, ctx) = live_session();
    ctx.dbg_text_clear(&mut e, None, None);
    ctx.dbg_text_clear(&mut e, Some(3), Some(true));
    ctx.dbg_text_print(&mut e, 2, 5, 0x4f, "hello");
    ctx.dbg_text_image(&mut e, 1, 2, 8, 8, &[0; 128], 16);
    ctx.shutdown(&mut e);
    let expected_tail = vec![
        EngineCall::DbgTextClear { attr: 0, small: false },
        EngineCall::DbgTextClear { attr: 3, small: true },
        EngineCall::DbgTextPrint { x: 2, y: 5, attr: 0x4f },
        EngineCall::DbgTextImage { x: 1, y: 2, width: 8, height: 8, pitch: 16 },
        EngineCall::Shutdown,
    ];
    let log = e.log();
    assert_eq!(&log[log.len() - 5..], &expected_tail[..]);
}
