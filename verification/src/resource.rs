//! Resource handles and the memory they are built from.
//!
//! Every resource is created and destroyed through the main-side context
//! token, never through the pump side, and carries the id of the owning
//! session so it cannot be used after that session has ended. Destruction is
//! explicit and consumes the handle, so each native destroy call is issued
//! exactly once; the engine's live-resource accounting makes session
//! teardown demand that every handle has been destroyed first.

use vstd::prelude::*;

use crate::context::Bgfx;
use crate::engine::{Engine, EngineCall};
use crate::flags::BufferFlags;
use crate::vertex::VertexDecl;

verus! {

/// The destroy calls a program teardown issues: the program itself first,
/// then the two shaders it kept alive.
pub open spec fn program_destroy_calls(program: u16, vsh: u16, fsh: u16) -> Seq<EngineCall> {
    seq![
        EngineCall::DestroyProgram { handle: program },
        EngineCall::DestroyShader { handle: vsh },
        EngineCall::DestroyShader { handle: fsh },
    ]
}

/// An engine-managed buffer of memory.
///
/// It is created either by copying existing data through [`Memory::copy`],
/// or by referencing existing memory directly through [`Memory::reference`].
/// A memory value is consumed by exactly one resource-creation call, and
/// only within the session that created it.
pub struct Memory {
    session: u64,
    bytes: u32,
    copied: bool,
}

impl Memory {
    /// The session this memory belongs to.
    pub closed spec fn session_id(self) -> u64 {
        self.session
    }

    /// The size of the block in bytes.
    pub closed spec fn size(self) -> u32 {
        self.bytes
    }

    /// Whether this block is an engine-owned copy (as opposed to a reference
    /// to caller storage).
    pub closed spec fn is_copy(self) -> bool {
        self.copied
    }

    /// Copies the source data into a new engine-managed buffer.
    ///
    /// The copy is freed only when it is consumed by a resource-creation
    /// call: a copy that is never passed into one leaks, which is what
    /// [`Engine::unconsumed_copies`] counts.
    pub fn copy(_bgfx: &Bgfx, engine: &mut Engine, data: &[u8]) -> (m: Memory)
        requires
            old(engine).is_initialized(),
            _bgfx.session_id() == old(engine).session_id(),
            data@.len() <= u32::MAX,
        ensures
            m.session_id() == old(engine).session_id(),
            m.size() == data@.len(),
            m.is_copy(),
            final(engine).calls() == old(engine).calls().push(
                EngineCall::CopyMem { bytes: data@.len() as u32 },
            ),
            final(engine).same_session_as(*old(engine)),
            final(engine).handles_used() == old(engine).handles_used(),
            final(engine).live_resources() == old(engine).live_resources(),
            final(engine).unconsumed_copies() == old(engine).unconsumed_copies() + 1,
            final(engine).same_frames_as(*old(engine)),
    {
        let bytes: u32 = data.len() as u32;
        engine.note_copy();
        engine.record(EngineCall::CopyMem { bytes });
        Memory { session: engine.session(), bytes, copied: true }
    }

    /// Wraps the source data for passing into the engine without a copy.
    ///
    /// The engine reads the caller's storage directly, so that storage must
    /// stay live at least until the session has finished reading it. The
    /// model keeps only the size and the owning session of the block; like
    /// every memory value, the result can only be consumed within its own
    /// session, which bounds the window in which the engine may read it.
    pub fn reference(_bgfx: &Bgfx, engine: &mut Engine, data: &[u8]) -> (m: Memory)
        requires
            old(engine).is_initialized(),
            _bgfx.session_id() == old(engine).session_id(),
            data@.len() <= u32::MAX,
        ensures
            m.session_id() == old(engine).session_id(),
            m.size() == data@.len(),
            !m.is_copy(),
            final(engine).calls() == old(engine).calls().push(
                EngineCall::MakeRef { bytes: data@.len() as u32 },
            ),
            final(engine).same_session_as(*old(engine)),
            final(engine).same_resources_as(*old(engine)),
            final(engine).same_frames_as(*old(engine)),
    {
        let bytes: u32 = data.len() as u32;
        engine.record(EngineCall::MakeRef { bytes });
        Memory { session: engine.session(), bytes, copied: false }
    }
}

/// A shader.
pub struct Shader {
    handle: u16,
    session: u64,
}

impl Shader {
    /// The handle the engine knows this shader by.
    pub closed spec fn handle_id(self) -> u16 {
        self.handle
    }

    /// The session this shader belongs to.
    pub closed spec fn session_id(self) -> u64 {
        self.session
    }

    /// The handle the engine knows this shader by.
    pub fn handle(&self) -> (h: u16)
        ensures
            h == self.handle_id(),
    {
        self.handle
    }

    /// Creates a new shader from engine-managed memory, consuming it.
    pub fn new(_bgfx: &Bgfx, engine: &mut Engine, data: Memory) -> (s: Shader)
        requires
            old(engine).is_initialized(),
            _bgfx.session_id() == old(engine).session_id(),
            data.session_id() == old(engine).session_id(),
            old(engine).handles_used() < u16::MAX,
        ensures
            s.handle_id() == old(engine).handles_used(),
            s.session_id() == old(engine).session_id(),
            final(engine).calls() == old(engine).calls().push(
                EngineCall::CreateShader { handle: old(engine).handles_used(), bytes: data.size() },
            ),
            final(engine).same_session_as(*old(engine)),
            final(engine).handles_used() == old(engine).handles_used() + 1,
            final(engine).live_resources() == old(engine).live_resources() + 1,
            final(engine).unconsumed_copies() == old(engine).unconsumed_copies() - (
                if data.is_copy() {
                    1int
                } else {
                    0int
                }
            ),
            final(engine).same_frames_as(*old(engine)),
    {
        let h: u16 = engine.alloc_resource();
        if data.copied {
            engine.consume_copy();
        }
        engine.record(EngineCall::CreateShader { handle: h, bytes: data.bytes });
        Shader { handle: h, session: engine.session() }
    }

    /// Destroys the shader, issuing the matching engine destroy call exactly
    /// once.
    pub fn destroy(self, _bgfx: &Bgfx, engine: &mut Engine)
        requires
            old(engine).is_initialized(),
            _bgfx.session_id() == old(engine).session_id(),
            self.session_id() == old(engine).session_id(),
        ensures
            final(engine).calls() == old(engine).calls().push(
                EngineCall::DestroyShader { handle: self.handle_id() },
            ),
            final(engine).same_session_as(*old(engine)),
            final(engine).handles_used() == old(engine).handles_used(),
            final(engine).live_resources() == old(engine).live_resources() - 1,
            final(engine).unconsumed_copies() == old(engine).unconsumed_copies(),
            final(engine).same_frames_as(*old(engine)),
    {
        engine.release_resource();
        engine.record(EngineCall::DestroyShader { handle: self.handle });
    }
}

/// A shader program, holding a vertex shader and a fragment shader.
pub struct Program {
    handle: u16,
    session: u64,
    vsh: u16,
    fsh: u16,
}

impl Program {
    /// The handle the engine knows this program by.
    pub closed spec fn handle_id(self) -> u16 {
        self.handle
    }

    /// The session this program belongs to.
    pub closed spec fn session_id(self) -> u64 {
        self.session
    }

    /// The handle of the vertex shader this program keeps alive.
    pub closed spec fn vertex_shader_id(self) -> u16 {
        self.vsh
    }

    /// The handle of the fragment shader this program keeps alive.
    pub closed spec fn fragment_shader_id(self) -> u16 {
        self.fsh
    }

    /// The handle the engine knows this program by.
    pub fn handle(&self) -> (h: u16)
        ensures
            h == self.handle_id(),
    {
        self.handle
    }

    /// Creates a new program from a vertex shader and a fragment shader.
    /// Ownership of the shaders moves to the program, which keeps them alive
    /// exactly as long as it lives itself.
    pub fn new(_bgfx: &Bgfx, engine: &mut Engine, vsh: Shader, fsh: Shader) -> (p: Program)
        requires
            old(engine).is_initialized(),
            _bgfx.session_id() == old(engine).session_id(),
            vsh.session_id() == old(engine).session_id(),
            fsh.session_id() == old(engine).session_id(),
            old(engine).handles_used() < u16::MAX,
        ensures
            p.handle_id() == old(engine).handles_used(),
            p.session_id() == old(engine).session_id(),
            p.vertex_shader_id() == vsh.handle_id(),
            p.fragment_shader_id() == fsh.handle_id(),
            final(engine).calls() == old(engine).calls().push(
                EngineCall::CreateProgram {
                    handle: old(engine).handles_used(),
                    vsh: vsh.handle_id(),
                    fsh: fsh.handle_id(),
                },
            ),
            final(engine).same_session_as(*old(engine)),
            final(engine).handles_used() == old(engine).handles_used() + 1,
            final(engine).live_resources() == old(engine).live_resources() + 1,
            final(engine).unconsumed_copies() == old(engine).unconsumed_copies(),
            final(engine).same_frames_as(*old(engine)),
    {
        let h: u16 = engine.alloc_resource();
        engine.record(EngineCall::CreateProgram { handle: h, vsh: vsh.handle, fsh: fsh.handle });
        Program { handle: h, session: engine.session(), vsh: vsh.handle, fsh: fsh.handle }
    }

    /// Destroys the program and then both constituent shaders.
    ///
    /// The program's own destroy call is issued first; releasing the two
    /// shaders it kept alive follows. All three calls land in the log before
    /// anything the session does afterwards — in particular before the
    /// session's own `Shutdown`, which demands that no resource is left
    /// alive.
    pub fn destroy(self, _bgfx: &Bgfx, engine: &mut Engine)
        requires
            old(engine).is_initialized(),
            _bgfx.session_id() == old(engine).session_id(),
            self.session_id() == old(engine).session_id(),
        ensures
            final(engine).calls() == old(engine).calls() + program_destroy_calls(
                self.handle_id(),
                self.vertex_shader_id(),
                self.fragment_shader_id(),
            ),
            final(engine).same_session_as(*old(engine)),
            final(engine).handles_used() == old(engine).handles_used(),
            final(engine).live_resources() == old(engine).live_resources() - 3,
            final(engine).unconsumed_copies() == old(engine).unconsumed_copies(),
            final(engine).same_frames_as(*old(engine)),
    {
        engine.release_resource();
        engine.record(EngineCall::DestroyProgram { handle: self.handle });
        engine.release_resource();
        engine.record(EngineCall::DestroyShader { handle: self.vsh });
        engine.release_resource();
        engine.record(EngineCall::DestroyShader { handle: self.fsh });
        proof {
            assert(engine.calls() =~= old(engine).calls() + program_destroy_calls(
                self.handle_id(),
                self.vertex_shader_id(),
                self.fragment_shader_id(),
            ));
        }
    }
}

/// A vertex data buffer.
pub struct VertexBuffer {
    handle: u16,
    session: u64,
}

impl VertexBuffer {
    /// The handle the engine knows this buffer by.
    pub closed spec fn handle_id(self) -> u16 {
        self.handle
    }

    /// The session this buffer belongs to.
    pub closed spec fn session_id(self) -> u64 {
        self.session
    }

    /// The handle the engine knows this buffer by.
    pub fn handle(&self) -> (h: u16)
        ensures
            h == self.handle_id(),
    {
        self.handle
    }

    /// Creates a new vertex buffer from engine-managed memory, consuming it.
    /// The layout descriptor must already be finalized, which its type
    /// guarantees.
    pub fn new(
        _bgfx: &Bgfx,
        engine: &mut Engine,
        verts: Memory,
        decl: &VertexDecl,
        flags: BufferFlags,
    ) -> (b: VertexBuffer)
        requires
            old(engine).is_initialized(),
            _bgfx.session_id() == old(engine).session_id(),
            verts.session_id() == old(engine).session_id(),
            old(engine).handles_used() < u16::MAX,
        ensures
            b.handle_id() == old(engine).handles_used(),
            b.session_id() == old(engine).session_id(),
            final(engine).calls() == old(engine).calls().push(
                EngineCall::CreateVertexBuffer {
                    handle: old(engine).handles_used(),
                    bytes: verts.size(),
                    flags: flags.0,
                    stride: decl.stride(),
                },
            ),
            final(engine).same_session_as(*old(engine)),
            final(engine).handles_used() == old(engine).handles_used() + 1,
            final(engine).live_resources() == old(engine).live_resources() + 1,
            final(engine).unconsumed_copies() == old(engine).unconsumed_copies() - (
                if verts.is_copy() {
                    1int
                } else {
                    0int
                }
            ),
            final(engine).same_frames_as(*old(engine)),
    {
        let h: u16 = engine.alloc_resource();
        if verts.copied {
            engine.consume_copy();
        }
        engine.record(
            EngineCall::CreateVertexBuffer {
                handle: h,
                bytes: verts.bytes,
                flags: flags.bits(),
                stride: decl.stride_bytes(),
            },
        );
        VertexBuffer { handle: h, session: engine.session() }
    }

    /// Destroys the buffer, issuing the matching engine destroy call exactly
    /// once.
    pub fn destroy(self, _bgfx: &Bgfx, engine: &mut Engine)
        requires
            old(engine).is_initialized(),
            _bgfx.session_id() == old(engine).session_id(),
            self.session_id() == old(engine).session_id(),
        ensures
            final(engine).calls() == old(engine).calls().push(
                EngineCall::DestroyVertexBuffer { handle: self.handle_id() },
            ),
            final(engine).same_session_as(*old(engine)),
            final(engine).handles_used() == old(engine).handles_used(),
            final(engine).live_resources() == old(engine).live_resources() - 1,
            final(engine).unconsumed_copies() == old(engine).unconsumed_copies(),
            final(engine).same_frames_as(*old(engine)),
    {
        engine.release_resource();
        engine.record(EngineCall::DestroyVertexBuffer { handle: self.handle });
    }
}

/// A vertex index buffer.
pub struct IndexBuffer {
    handle: u16,
    session: u64,
}

impl IndexBuffer {
    /// The handle the engine knows this buffer by.
    pub closed spec fn handle_id(self) -> u16 {
        self.handle
    }

    /// The session this buffer belongs to.
    pub closed spec fn session_id(self) -> u64 {
        self.session
    }

    /// The handle the engine knows this buffer by.
    pub fn handle(&self) -> (h: u16)
        ensures
            h == self.handle_id(),
    {
        self.handle
    }

    /// Creates a new index buffer from engine-managed memory, consuming it.
    pub fn new(_bgfx: &Bgfx, engine: &mut Engine, indices: Memory, flags: BufferFlags) -> (b:
        IndexBuffer)
        requires
            old(engine).is_initialized(),
            _bgfx.session_id() == old(engine).session_id(),
            indices.session_id() == old(engine).session_id(),
            old(engine).handles_used() < u16::MAX,
        ensures
            b.handle_id() == old(engine).handles_used(),
            b.session_id() == old(engine).session_id(),
            final(engine).calls() == old(engine).calls().push(
                EngineCall::CreateIndexBuffer {
                    handle: old(engine).handles_used(),
                    bytes: indices.size(),
                    flags: flags.0,
                },
            ),
            final(engine).same_session_as(*old(engine)),
            final(engine).handles_used() == old(engine).handles_used() + 1,
            final(engine).live_resources() == old(engine).live_resources() + 1,
            final(engine).unconsumed_copies() == old(engine).unconsumed_copies() - (
                if indices.is_copy() {
                    1int
                } else {
                    0int
                }
            ),
            final(engine).same_frames_as(*old(engine)),
    {
        let h: u16 = engine.alloc_resource();
        if indices.copied {
            engine.consume_copy();
        }
        engine.record(
            EngineCall::CreateIndexBuffer { handle: h, bytes: indices.bytes, flags: flags.bits() },
        );
        IndexBuffer { handle: h, session: engine.session() }
    }

    /// Destroys the buffer, issuing the matching engine destroy call exactly
    /// once.
    pub fn destroy(self, _bgfx: &Bgfx, engine: &mut Engine)
        requires
            old(engine).is_initialized(),
            _bgfx.session_id() == old(engine).session_id(),
            self.session_id() == old(engine).session_id(),
        ensures
            final(engine).calls() == old(engine).calls().push(
                EngineCall::DestroyIndexBuffer { handle: self.handle_id() },
            ),
            final(engine).same_session_as(*old(engine)),
            final(engine).handles_used() == old(engine).handles_used(),
            final(engine).live_resources() == old(engine).live_resources() - 1,
            final(engine).unconsumed_copies() == old(engine).unconsumed_copies(),
            final(engine).same_frames_as(*old(engine)),
    {
        engine.release_resource();
        engine.record(EngineCall::DestroyIndexBuffer { handle: self.handle });
    }
}

} // verus!
