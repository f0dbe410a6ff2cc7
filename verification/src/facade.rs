//! Constructing the adapter and handing out its shared context.

use vstd::prelude::*;
use crate::backend::GLAreaBackend;
use crate::context::DebugCallbackBehavior;
use crate::context::IncompatibleOpenGl;
use crate::context::RenderingContext;
use crate::loader::LoaderError;
use crate::loader::ProcAddressResolver;
use crate::surface::GlSurface;

verus! {

/// Why the adapter could not be built. Both causes are fatal for the widget
/// instance: neither a missing platform library nor an unsupported OpenGL
/// version will change on a retry with the same widget.
#[derive(Debug, PartialEq, Eq, Clone)]
pub enum ContextCreationError {
    /// The platform OpenGL client library could not be located, so no
    /// OpenGL call at all can proceed.
    LoaderUnavailable,
    /// The rendering library rejected the widget's OpenGL version or
    /// profile; the diagnostic it gave is carried for user display.
    IncompatibleOpenGl(String),
}

/// The adapter: owns the rendering library's shared context, built over the
/// widget, and is the application's handle for issuing draw calls. All
/// failures surface here, at construction; after that every
/// context-provider operation is defined not to fail.
pub struct GtkFacade {
    /// The shared rendering context built at construction.
    pub context: RenderingContext,
}

impl GtkFacade {
    /// The construction decision, taken from the two outcomes the platform
    /// can report: `loader` from loading the OpenGL client library, and
    /// `negotiation` from the rendering library's native context
    /// construction (which runs only once the loader is available). A
    /// loader failure yields `LoaderUnavailable` whatever `negotiation`
    /// says; a rejected context yields `IncompatibleOpenGl` with the
    /// diagnostic; otherwise the adapter is built over the widget with
    /// diagnostics requested only on error and the context told not to
    /// assume it is current.
    pub fn from_outcomes(
        loader: Result<(), LoaderError>,
        glarea: GlSurface,
        negotiation: Result<(), IncompatibleOpenGl>,
    ) -> (r: Result<GtkFacade, ContextCreationError>)
        ensures
            r is Ok <==> loader is Ok && negotiation is Ok,
            loader is Err ==> r == Err::<GtkFacade, ContextCreationError>(
                ContextCreationError::LoaderUnavailable,
            ),
            negotiation matches Err(e) ==> (loader is Ok ==> r == Err::<
                GtkFacade,
                ContextCreationError,
            >(ContextCreationError::IncompatibleOpenGl(e.0))),
            r matches Ok(f) ==> {
                &&& f.context.backend.glarea == glarea
                &&& f.context.checks_current
                &&& f.context.debug == DebugCallbackBehavior::DebugMessageOnError
            },
    {
        match loader {
            Err(_) => Err(ContextCreationError::LoaderUnavailable),
            Ok(()) => {
                let backend = GLAreaBackend::new(glarea);
                match RenderingContext::new(
                    backend,
                    true,
                    DebugCallbackBehavior::DebugMessageOnError,
                    negotiation,
                ) {
                    Ok(context) => Ok(GtkFacade { context }),
                    Err(e) => Err(ContextCreationError::IncompatibleOpenGl(e.0)),
                }
            },
        }
    }

    /// Build the adapter over a widget. First makes sure the process-wide
    /// loader is initialized, propagating its fatal error as
    /// `LoaderUnavailable`; then records the outcome of the rendering
    /// library's native context construction, handed in as `negotiation`.
    /// On success the adapter holds the widget and the newly built shared
    /// context, created with diagnostics requested only on error and told
    /// not to assume the context is current.
    pub fn from_glarea(
        resolver: &mut ProcAddressResolver,
        glarea: GlSurface,
        negotiation: Result<(), IncompatibleOpenGl>,
    ) -> (r: Result<GtkFacade, ContextCreationError>)
        ensures
            old(resolver).initialized ==> *final(resolver) == *old(resolver),
            final(resolver).initialized <==> !(r == Err::<GtkFacade, ContextCreationError>(
                ContextCreationError::LoaderUnavailable,
            )),
            !final(resolver).initialized ==> *final(resolver) == *old(resolver),
            negotiation matches Err(e) ==> (final(resolver).initialized ==> r == Err::<
                GtkFacade,
                ContextCreationError,
            >(ContextCreationError::IncompatibleOpenGl(e.0))),
            r is Ok <==> final(resolver).initialized && negotiation is Ok,
            r matches Ok(f) ==> {
                &&& f.context.backend.glarea == glarea
                &&& f.context.checks_current
                &&& f.context.debug == DebugCallbackBehavior::DebugMessageOnError
            },
    {
        let loader = resolver.initialize();
        GtkFacade::from_outcomes(loader, glarea, negotiation)
    }

    /// The shared rendering context: the handle application code uses for
    /// every draw call after construction.
    pub fn get_context(&self) -> (c: &RenderingContext)
        ensures
            c == &self.context,
    {
        &self.context
    }
}

} // verus!
