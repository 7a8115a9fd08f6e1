use vstd::prelude::*;
use std::sync::Arc;
use winit::Window as NativeWindow;
use vulkano::swapchain::Surface;

verus! {

#[verifier::external_type_specification]
#[verifier::external_body]
pub struct ExNativeWindow(NativeWindow);

#[verifier::external_type_specification]
#[verifier::external_body]
pub struct ExSurface(Surface);

/// A window of the windowing library, in a form that can be shared between
/// its owner and the surface that must keep it alive.
pub struct WinitWindow(NativeWindow);

impl WinitWindow {
    /// The wrapped window.
    pub closed spec fn native(&self) -> NativeWindow {
        self.0
    }

    /// Wraps a window that has just been created.
    pub fn new(window: NativeWindow) -> (r: WinitWindow)
        ensures
            r.native() == window,
    {
        WinitWindow(window)
    }
}

impl std::ops::Deref for WinitWindow {
    type Target = NativeWindow;

    fn deref(&self) -> (r: &NativeWindow)
        ensures
            *r == self.native(),
    {
        &self.0
    }
}

/// A window together with the surface bound to it. The surface holds a
/// second reference to the same window, so the window lives at least as
/// long as the surface.
pub struct Window {
    window: Arc<WinitWindow>,
    surface: Arc<Surface>,
}

impl Window {
    /// The shared window.
    pub closed spec fn shared_window(&self) -> Arc<WinitWindow> {
        self.window
    }

    /// The surface bound to the window.
    pub closed spec fn shared_surface(&self) -> Arc<Surface> {
        self.surface
    }

    /// Pairs a window with the surface that was created from it.
    pub fn new(window: Arc<WinitWindow>, surface: Arc<Surface>) -> (r: Window)
        ensures
            r.shared_window() == window,
            r.shared_surface() == surface,
    {
        Window { window, surface }
    }

    /// The underlying window of the windowing library.
    pub fn window(&self) -> (r: &NativeWindow)
        ensures
            *r == self.shared_window().native(),
    {
        &self.window.0
    }

    /// The surface bound to the window.
    pub fn surface(&self) -> (r: &Arc<Surface>)
        ensures
            *r == self.shared_surface(),
    {
        &self.surface
    }
}

} // verus!
