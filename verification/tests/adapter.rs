use gtk_glium_adapter::ContextCreationError;
use gtk_glium_adapter::GLAreaBackend;
use gtk_glium_adapter::GlSurface;
use gtk_glium_adapter::GtkFacade;
use gtk_glium_adapter::IncompatibleOpenGl;
use gtk_glium_adapter::LoaderError;
use gtk_glium_adapter::ProcAddressResolver;

fn ready_resolver() -> ProcAddressResolver {
    let mut resolver = ProcAddressResolver::new();
    let outcome = resolver.apply_init(1);
    assert!(outcome.is_ok());
    resolver
}

#[test]
fn framebuffer_dimensions_scale_one() {
    let backend = GLAreaBackend::new(GlSurface::new(640, 480, 1));
    assert_eq!(backend.get_framebuffer_dimensions(), (640, 480));
}

#[test]
fn framebuffer_dimensions_scale_two_and_three() {
    let doubled = GLAreaBackend::new(GlSurface::new(800, 600, 2));
    assert_eq!(doubled.get_framebuffer_dimensions(), (1600, 1200));

    let tripled = GLAreaBackend::new(GlSurface::new(123, 77, 3));
    assert_eq!(tripled.get_framebuffer_dimensions(), (369, 231));
}

#[test]
fn framebuffer_dimensions_empty_widget() {
    let backend = GLAreaBackend::new(GlSurface::new(0, 0, 2));
    assert_eq!(backend.get_framebuffer_dimensions(), (0, 0));
}

#[test]
fn framebuffer_dimensions_at_the_unsigned_limit() {
    // 1431655765 * 3 is exactly the largest value a u32 can hold.
    let backend = GLAreaBackend::new(GlSurface::new(1431655765, 1, 3));
    assert_eq!(backend.get_framebuffer_dimensions(), (4294967295, 3));
}

#[test]
fn framebuffer_dimensions_are_recomputed_not_cached() {
    let mut backend = GLAreaBackend::new(GlSurface::new(200, 100, 1));
    assert_eq!(backend.get_framebuffer_dimensions(), (200, 100));

    backend.glarea.set_size(321, 654);
    assert_eq!(backend.get_framebuffer_dimensions(), (321, 654));

    backend.glarea.set_scale(2);
    assert_eq!(backend.get_framebuffer_dimensions(), (642, 1308));
}

#[test]
fn swap_buffers_succeeds_without_touching_the_widget() {
    let backend = GLAreaBackend::new(GlSurface::new(64, 64, 1));
    assert!(backend.swap_buffers().is_ok());
    assert!(backend.swap_buffers().is_ok());
    // No native activation (or any other widget change) was issued.
    assert_eq!(backend.glarea.activations, 0);
    assert_eq!(backend.get_framebuffer_dimensions(), (64, 64));
}

#[test]
fn resize_discards_the_request_and_changes_nothing() {
    let backend = GLAreaBackend::new(GlSurface::new(256, 128, 2));
    backend.resize((9999, 9999));
    backend.resize((0, 0));
    assert_eq!(backend.glarea.width, 256);
    assert_eq!(backend.glarea.height, 128);
    assert_eq!(backend.glarea.scale, 2);
    assert_eq!(backend.glarea.activations, 0);
    assert_eq!(backend.get_framebuffer_dimensions(), (512, 256));
}

#[test]
fn is_current_is_true_before_and_after_activation() {
    let mut backend = GLAreaBackend::new(GlSurface::new(32, 32, 1));
    assert!(backend.is_current());
    backend.make_current();
    assert!(backend.is_current());
    backend.make_current();
    backend.make_current();
    assert!(backend.is_current());
}

#[test]
fn make_current_twice_activates_exactly_twice() {
    let mut backend = GLAreaBackend::new(GlSurface::new(100, 50, 2));
    backend.make_current();
    backend.make_current();
    assert_eq!(backend.glarea.activations, 2);
    // Repetition is not deduplicated, and the geometry is untouched.
    assert_eq!(backend.glarea.width, 100);
    assert_eq!(backend.glarea.height, 50);
    assert_eq!(backend.glarea.scale, 2);
}

#[test]
fn loader_initialization_is_idempotent() {
    let mut resolver = ProcAddressResolver::new();
    assert!(!resolver.initialized);
    assert!(resolver.apply_init(1).is_ok());
    assert!(resolver.initialized);
    // A second load attempt changes nothing, whatever its status says.
    assert!(resolver.apply_init(0).is_ok());
    assert!(resolver.initialized);
}

#[test]
fn loader_failure_is_reported_and_leaves_the_resolver_unusable() {
    let mut resolver = ProcAddressResolver::new();
    let outcome = resolver.apply_init(0);
    assert_eq!(outcome, Err(LoaderError::Unavailable));
    assert!(!resolver.initialized);
    // A later successful load still initializes it.
    assert!(resolver.apply_init(7).is_ok());
    assert!(resolver.initialized);
}

#[test]
fn construction_succeeds_over_a_compatible_widget() {
    let mut resolver = ready_resolver();
    let facade = GtkFacade::from_glarea(&mut resolver, GlSurface::new(600, 400, 1), Ok(()))
        .expect("construction over a compatible widget must succeed");
    let context = facade.get_context();
    assert!(context.checks_current);
    assert_eq!(context.backend.glarea.width, 600);
    assert_eq!(context.backend.glarea.height, 400);
}

#[test]
fn construction_rejects_an_incompatible_context() {
    let mut resolver = ready_resolver();
    let diagnostic = String::from("unsupported OpenGL version 2.1");
    let made = GtkFacade::from_glarea(
        &mut resolver,
        GlSurface::new(600, 400, 1),
        Err(IncompatibleOpenGl(diagnostic.clone())),
    );
    match made {
        Ok(_) => panic!("an incompatible context must not produce an adapter"),
        Err(ContextCreationError::IncompatibleOpenGl(carried)) => {
            assert_eq!(carried, diagnostic);
        }
        Err(other) => panic!("wrong error: {:?}", other),
    }
}

#[test]
fn construction_reports_a_missing_loader_first() {
    let made = GtkFacade::from_outcomes(
        Err(LoaderError::Unavailable),
        GlSurface::new(600, 400, 1),
        Err(IncompatibleOpenGl(String::from("never negotiated"))),
    );
    assert_eq!(made.err(), Some(ContextCreationError::LoaderUnavailable));
}

#[test]
fn end_to_end_resize_flows_through_the_same_adapter() {
    let mut resolver = ready_resolver();
    let mut facade = GtkFacade::from_glarea(&mut resolver, GlSurface::new(600, 400, 1), Ok(()))
        .expect("construction over a compatible widget must succeed");
    assert_eq!(facade.context.backend.get_framebuffer_dimensions(), (600, 400));

    // The toolkit's layout system resizes the widget; the same adapter and
    // context observe the new size on the very next query.
    facade.context.backend.glarea.set_size(300, 200);
    assert_eq!(facade.context.backend.get_framebuffer_dimensions(), (300, 200));
}
