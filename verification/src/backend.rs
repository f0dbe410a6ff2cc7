//! The context-provider operations, delegated to the drawing widget.
//!
//! The rendering library calls these five operations as if the backend owned
//! the OpenGL context. In truth the toolkit owns it: it makes the context
//! current before each render callback and swaps the buffers after the
//! callback returns. The contracts below say exactly which operations are
//! therefore no-ops and which really reach the widget.

use vstd::prelude::*;
use crate::loader::ProcAddressResolver;
use crate::loader::nul_free;
use crate::surface::GlSurface;

verus! {

/// Why a buffer swap could fail. The backend never produces either variant:
/// its swap is a no-op (see `GLAreaBackend::swap_buffers`). The variants
/// exist so that callers which must surface a swap failure have a total
/// vocabulary for one.
#[derive(PartialEq, Eq, Structural, Clone, Copy, Debug)]
pub enum SwapBuffersError {
    /// The OpenGL context was lost and would need to be recreated.
    ContextLost,
    /// The buffers were already swapped this frame.
    AlreadySwapped,
}

/// The backend the rendering library drives: a non-owning view of the
/// toolkit's drawing widget. It never schedules work of its own; every
/// operation below runs synchronously inside the toolkit's render callback.
pub struct GLAreaBackend {
    /// The drawing widget, as the adapter observes it.
    pub glarea: GlSurface,
}

impl GLAreaBackend {
    /// Wrap a widget. Nothing is checked here: the widget's geometry is read
    /// fresh at each dimension query, never at construction.
    pub fn new(glarea: GlSurface) -> (b: Self)
        ensures
            b.glarea == glarea,
    {
        GLAreaBackend { glarea }
    }

    /// A no-op that always succeeds. The toolkit swaps the buffers itself
    /// right after its render callback returns; swapping here as well would
    /// double-swap and tear. Taking `&self`, this cannot touch the widget,
    /// so no native swap is issued.
    pub fn swap_buffers(&self) -> (r: Result<(), SwapBuffersError>)
        ensures
            r is Ok,
    {
        Ok(())
    }

    /// Look up an OpenGL entry point for the rendering library: pure
    /// delegation to the process-wide resolver, which must be initialized by
    /// then. A zero address means the symbol is unknown; the rendering
    /// library treats that as "extension unavailable".
    pub fn get_proc_address(&self, resolver: &ProcAddressResolver, symbol: &str) -> (addr: usize)
        requires
            resolver.initialized,
            nul_free(symbol@),
    {
        resolver.resolve(symbol)
    }

    /// The size of the real framebuffer in physical pixels: the widget's
    /// logical size times its display scale factor, both read fresh on every
    /// call. Nothing is cached, because the widget may have been resized or
    /// moved to a display with another density since the last call.
    pub fn get_framebuffer_dimensions(&self) -> (dims: (u32, u32))
        requires
            self.glarea.wf(),
        ensures
            dims.0 == self.glarea.width * self.glarea.scale,
            dims.1 == self.glarea.height * self.glarea.scale,
    {
        let width = self.glarea.width;
        let height = self.glarea.height;

        // On high-density displays the framebuffer holds more pixels than
        // the logical allocation; the scale factor says how many more.
        let scale = self.glarea.scale;

        let w: u64 = (width as u64) * (scale as u64);
        let h: u64 = (height as u64) * (scale as u64);
        (w as u32, h as u32)
    }

    /// A no-op that discards the requested size: the toolkit resizes the
    /// widget's surface through its own layout system, so there is nothing
    /// for the backend to do. Taking `&self`, this cannot change the backend
    /// or the widget, and it returns without error for every size.
    pub fn resize(&self, _new_size: (u32, u32)) {
    }

    /// Always true. The toolkit guarantees the widget's context is current
    /// for the whole render callback, before any of these operations can
    /// run, so the backend does not track current-context state itself —
    /// this holds whatever `make_current` calls came before, including none.
    pub fn is_current(&self) -> (r: bool)
        ensures
            r == true,
    {
        true
    }

    /// Activate the widget's native OpenGL context. Idempotent in effect and
    /// safe to repeat, but never deduplicated: each call issues the native
    /// activation again, and nothing else about the widget changes.
    pub fn make_current(&mut self)
        requires
            old(self).glarea.activations < u64::MAX,
        ensures
            final(self).glarea == old(self).glarea.activated(),
    {
        self.glarea.make_current();
    }
}

/// Repeated activation is safe and is not deduplicated: two `make_current`
/// calls in a row issue the native activation exactly twice and leave the
/// widget's geometry as it was.
pub proof fn lemma_make_current_twice(s: GlSurface)
    requires
        s.activations + 2 <= u64::MAX,
    ensures
        s.activated().activated().activations == s.activations + 2,
        s.activated().activated().width == s.width,
        s.activated().activated().height == s.height,
        s.activated().activated().scale == s.scale,
{
}

} // verus!
