//! Platform data initializer.

use vstd::prelude::*;

use crate::engine::{Engine, EngineCall};
use crate::BgfxError;

verus! {

/// Platform data initializer.
///
/// Platform handles are carried as plain integer values (a window or display
/// handle as the platform hands it out; `0` means null). The handles must be
/// applied once, before a session is initialized.
#[derive(PartialEq, Eq, Structural, Debug, Copy, Clone)]
pub struct PlatformData {
    display: u64,
    window: u64,
    gl_context: u64,
}

impl PlatformData {
    /// The display handle.
    pub closed spec fn display_handle(self) -> u64 {
        self.display
    }

    /// The window handle.
    pub closed spec fn window_handle(self) -> u64 {
        self.window
    }

    /// The GL context handle.
    pub closed spec fn context_handle(self) -> u64 {
        self.gl_context
    }

    /// Creates an empty PlatformData instance: all handles null.
    pub fn new() -> (pd: PlatformData)
        ensures
            pd.display_handle() == 0,
            pd.window_handle() == 0,
            pd.context_handle() == 0,
    {
        PlatformData { display: 0, window: 0, gl_context: 0 }
    }

    /// Sets the GL context to use.
    pub fn context(self, context: u64) -> (r: PlatformData)
        ensures
            r.display_handle() == self.display_handle(),
            r.window_handle() == self.window_handle(),
            r.context_handle() == context,
    {
        PlatformData { gl_context: context, ..self }
    }

    /// Sets the display to use. Must be non-null.
    pub fn display(self, display: u64) -> (r: PlatformData)
        ensures
            r.display_handle() == display,
            r.window_handle() == self.window_handle(),
            r.context_handle() == self.context_handle(),
    {
        PlatformData { display, ..self }
    }

    /// Sets the handle of the window to use. Must be non-null.
    pub fn window(self, window: u64) -> (r: PlatformData)
        ensures
            r.display_handle() == self.display_handle(),
            r.window_handle() == window,
            r.context_handle() == self.context_handle(),
    {
        PlatformData { window, ..self }
    }

    /// Applies the platform configuration, handing the handles to the engine.
    ///
    /// Fails with [`BgfxError::InvalidDisplay`] when the display handle is
    /// null and with [`BgfxError::InvalidWindow`] when the window handle is
    /// null; on failure the engine is untouched. Platform handles are part of
    /// the pre-initialization protocol, so this is only legal before a
    /// session is live.
    pub fn apply(&self, engine: &mut Engine) -> (r: Result<(), BgfxError>)
        requires
            !old(engine).is_initialized(),
        ensures
            self.display_handle() == 0 ==> (r == Err::<(), BgfxError>(BgfxError::InvalidDisplay)
                && *final(engine) == *old(engine)),
            self.display_handle() != 0 && self.window_handle() == 0 ==> (r == Err::<(),
            BgfxError>(BgfxError::InvalidWindow) && *final(engine) == *old(engine)),
            self.display_handle() != 0 && self.window_handle() != 0 ==> {
                &&& r == Ok::<(), BgfxError>(())
                &&& final(engine).calls() == old(engine).calls().push(
                    EngineCall::SetPlatformData {
                        display: self.display_handle(),
                        window: self.window_handle(),
                        context: self.context_handle(),
                    },
                )
                &&& final(engine).platform_is_set()
                &&& final(engine).init_fails() == old(engine).init_fails()
                &&& final(engine).is_primed() == old(engine).is_primed()
                &&& !final(engine).is_initialized()
                &&& final(engine).session_id() == old(engine).session_id()
                &&& final(engine).renderer_in_use() == old(engine).renderer_in_use()
                &&& final(engine).same_resources_as(*old(engine))
                &&& final(engine).same_frames_as(*old(engine))
            },
    {
        if self.display == 0 {
            Err(BgfxError::InvalidDisplay)
        } else if self.window == 0 {
            Err(BgfxError::InvalidWindow)
        } else {
            engine.set_platform(self.display, self.window, self.gl_context);
            Ok(())
        }
    }
}

} // verus!
