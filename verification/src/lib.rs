//! Adapter between a GUI toolkit's OpenGL drawing widget and a rendering
//! library that expects to own the OpenGL context it draws with.
//!
//! The widget owns the real OS-level context: the toolkit makes it current
//! before each render callback and swaps the buffers after the callback
//! returns. The adapter satisfies the rendering library's context-provider
//! contract (buffer swap, procedure lookup, framebuffer size, resize
//! notification, current-context handling) by delegating to the widget,
//! without ever taking over the render loop itself.

mod backend;
mod context;
mod facade;
mod loader;
mod surface;

pub use backend::GLAreaBackend;
pub use backend::SwapBuffersError;
pub use backend::lemma_make_current_twice;
pub use context::DebugCallbackBehavior;
pub use context::IncompatibleOpenGl;
pub use context::RenderingContext;
pub use facade::ContextCreationError;
pub use facade::GtkFacade;
pub use loader::LoaderError;
pub use loader::ProcAddressResolver;
pub use loader::nul_free;
pub use surface::GlSurface;
