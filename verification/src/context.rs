//! The rendering library's shared context, as constructed by the adapter.

use vstd::prelude::*;
use crate::backend::GLAreaBackend;

verus! {

/// How the rendering library should report driver diagnostics. The adapter
/// always requests `DebugMessageOnError`: a message only when something went
/// wrong, not on every OpenGL call.
#[derive(PartialEq, Eq, Structural, Clone, Copy, Debug)]
pub enum DebugCallbackBehavior {
    /// Report nothing.
    Ignore,
    /// Report a diagnostic message only when an error occurs.
    DebugMessageOnError,
    /// Report every message the driver emits.
    PrintAll,
}

/// The rendering library rejected the context: the OpenGL version or profile
/// the widget's native context offers is not supported. Carries the
/// library's diagnostic for user display. Fatal at construction time; the
/// cause will not change on a retry with the same widget.
#[derive(Debug, PartialEq, Eq, Clone)]
pub struct IncompatibleOpenGl(pub String);

/// The rendering library's context object, built over the backend exactly
/// once per widget. Application code and the adapter share it for as long as
/// either might still issue draw calls through it; here it owns the backend
/// outright, so a second context over the same widget cannot be built while
/// this one exists.
pub struct RenderingContext {
    /// The backend every context-provider call is delegated to.
    pub backend: GLAreaBackend,
    /// True when the rendering library was told not to assume the context is
    /// current, forcing it to ask `make_current` instead of trusting a stale
    /// assumption.
    pub checks_current: bool,
    /// The diagnostic behavior the context was created with.
    pub debug: DebugCallbackBehavior,
}

impl RenderingContext {
    /// Record the outcome of the rendering library's native context
    /// construction over `backend`. `negotiation` is that outcome: `Ok` when
    /// the library accepted the widget's OpenGL version and profile, `Err`
    /// with its diagnostic when it rejected them. A rejection yields the
    /// error and no context; acceptance yields a context holding the backend
    /// and the requested construction parameters, exactly as asked for.
    pub fn new(
        backend: GLAreaBackend,
        checks_current: bool,
        debug: DebugCallbackBehavior,
        negotiation: Result<(), IncompatibleOpenGl>,
    ) -> (r: Result<RenderingContext, IncompatibleOpenGl>)
        ensures
            negotiation is Ok <==> r is Ok,
            r matches Ok(c) ==> {
                &&& c.backend == backend
                &&& c.checks_current == checks_current
                &&& c.debug == debug
            },
            negotiation matches Err(e) ==> r == Err::<RenderingContext, IncompatibleOpenGl>(e),
    {
        match negotiation {
            Ok(()) => Ok(RenderingContext { backend, checks_current, debug }),
            Err(e) => Err(e),
        }
    }
}

} // verus!
