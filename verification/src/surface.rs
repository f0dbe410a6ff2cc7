//! Model of the toolkit's OpenGL drawing widget as the adapter observes it.

use vstd::prelude::*;

verus! {

/// What the adapter reads from (and issues to) the toolkit's drawing widget:
/// its logical size, its display scale factor, and a record of the native
/// "make this widget's context current" activations the adapter has issued.
///
/// The widget itself is owned by the toolkit; this value carries exactly the
/// observable state the context-provider contract depends on. Geometry is
/// mutated only by the toolkit's layout system (`set_size`, `set_scale`),
/// never by the adapter.
#[derive(Debug, PartialEq, Eq, Structural)]
pub struct GlSurface {
    /// Logical width in toolkit pixels, as the widget reports it.
    pub width: i32,
    /// Logical height in toolkit pixels, as the widget reports it.
    pub height: i32,
    /// Display density multiplier: physical framebuffer pixels per logical
    /// pixel along each axis.
    pub scale: i32,
    /// How many native context activations have been issued to this widget.
    pub activations: u64,
}

impl GlSurface {
    /// A widget reports a non-negative size and a positive scale factor, and
    /// its physical framebuffer dimensions fit an unsigned 32-bit integer.
    pub open spec fn wf(self) -> bool {
        &&& 0 <= self.width
        &&& 0 <= self.height
        &&& 1 <= self.scale
        &&& self.width * self.scale <= u32::MAX
        &&& self.height * self.scale <= u32::MAX
    }

    /// The widget after one more native context activation: the activation
    /// count grows by one and nothing else changes. Activations are recorded,
    /// never deduplicated.
    pub open spec fn activated(self) -> GlSurface {
        GlSurface { activations: (self.activations + 1) as u64, ..self }
    }

    /// A freshly observed widget: no activation has been issued yet.
    pub fn new(width: i32, height: i32, scale: i32) -> (s: Self)
        requires
            0 <= width,
            0 <= height,
            1 <= scale,
            width * scale <= u32::MAX,
            height * scale <= u32::MAX,
        ensures
            s.wf(),
            s.width == width,
            s.height == height,
            s.scale == scale,
            s.activations == 0,
    {
        GlSurface { width, height, scale, activations: 0 }
    }

    /// The toolkit's layout system gives the widget a new allocation. The
    /// adapter never calls this; it stands for a resize performed by the
    /// toolkit between two adapter calls.
    pub fn set_size(&mut self, width: i32, height: i32)
        requires
            old(self).wf(),
            0 <= width,
            0 <= height,
            width * old(self).scale <= u32::MAX,
            height * old(self).scale <= u32::MAX,
        ensures
            final(self).wf(),
            final(self).width == width,
            final(self).height == height,
            final(self).scale == old(self).scale,
            final(self).activations == old(self).activations,
    {
        self.width = width;
        self.height = height;
    }

    /// The widget moves to a display with a different density. Like
    /// `set_size`, this stands for a change driven by the toolkit.
    pub fn set_scale(&mut self, scale: i32)
        requires
            old(self).wf(),
            1 <= scale,
            old(self).width * scale <= u32::MAX,
            old(self).height * scale <= u32::MAX,
        ensures
            final(self).wf(),
            final(self).width == old(self).width,
            final(self).height == old(self).height,
            final(self).scale == scale,
            final(self).activations == old(self).activations,
    {
        self.scale = scale;
    }

    /// Activate this widget's native OpenGL context. Safe to call even when
    /// the context is already current: every call issues the native
    /// activation again and is recorded as such.
    pub fn make_current(&mut self)
        requires
            old(self).activations < u64::MAX,
        ensures
            *final(self) == old(self).activated(),
    {
        self.activations = self.activations + 1;
    }
}

} // verus!
