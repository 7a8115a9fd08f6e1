use vulkano::{Validated, VulkanError};
use vulkano_win::error::CreationError;

#[test]
fn descriptions_name_the_failing_step() {
    let s = CreationError::from(Validated::Error(VulkanError::OutOfHostMemory));
    assert_eq!(s.description(), "error while creating the surface");
    let w = CreationError::from(winit::CreationError::NotSupported);
    assert_eq!(w.description(), "error while creating the window");
}

#[test]
fn from_wraps_the_cause_in_its_variant() {
    let s = CreationError::from(Validated::Error(VulkanError::OutOfHostMemory));
    assert!(matches!(s, CreationError::SurfaceCreationError(Validated::Error(VulkanError::OutOfHostMemory))));
    let w = CreationError::from(winit::CreationError::OsError(String::from("x")));
    assert!(matches!(w, CreationError::WindowCreationError(winit::CreationError::OsError(_))));
}

#[test]
fn causes_expose_the_wrapped_error() {
    let s = CreationError::from(Validated::Error(VulkanError::OutOfHostMemory));
    assert!(matches!(s.surface_cause(), Some(Validated::Error(VulkanError::OutOfHostMemory))));
    assert!(s.window_cause().is_none());
    let w = CreationError::from(winit::CreationError::NotSupported);
    assert!(matches!(w.window_cause(), Some(winit::CreationError::NotSupported)));
    assert!(w.surface_cause().is_none());
}
