use vulkano::{Validated, VulkanError};
use vulkano_win::dispatch::{Platform, SurfacePath};
use vulkano_win::error::CreationError;
use vulkano_win::session::{BuildAction, BuildEvent, BuildPhase, SurfaceBuild};

fn surface_failure() -> Validated<VulkanError> {
    Validated::Error(VulkanError::OutOfHostMemory)
}

fn window_failure() -> winit::CreationError {
    winit::CreationError::OsError(String::from("synthetic"))
}

fn count_requests(actions: &[BuildAction]) -> usize {
    actions.iter().filter(|a| matches!(a, BuildAction::CreateSurface(_))).count()
}

#[test]
fn new_build_awaits_its_window() {
    let b = SurfaceBuild::new(Platform::Unix, true);
    assert_eq!(b.phase, BuildPhase::AwaitingWindow);
    assert_eq!(b.platform, Platform::Unix);
    assert!(b.xlib_enabled);
}

#[test]
fn wayland_build_asks_for_wayland_surface_once() {
    let mut b = SurfaceBuild::new(Platform::Unix, true);
    let mut actions = Vec::new();
    actions.push(b.step(BuildEvent::WindowBuilt { wayland_display: true, wayland_surface: true }));
    assert!(matches!(actions[0], BuildAction::CreateSurface(SurfacePath::Wayland)));
    assert_eq!(b.phase, BuildPhase::AwaitingSurface);
    actions.push(b.step(BuildEvent::SurfaceBuilt));
    assert!(matches!(actions[1], BuildAction::Succeed));
    assert_eq!(b.phase, BuildPhase::Finished);
    actions.push(b.step(BuildEvent::WindowBuilt { wayland_display: true, wayland_surface: true }));
    actions.push(b.step(BuildEvent::SurfaceBuilt));
    assert!(matches!(actions[2], BuildAction::Ignore));
    assert!(matches!(actions[3], BuildAction::Ignore));
    assert_eq!(count_requests(&actions), 1);
}

#[test]
fn x11_build_without_xlib_asks_for_xcb() {
    let mut b = SurfaceBuild::new(Platform::Unix, false);
    let a = b.step(BuildEvent::WindowBuilt { wayland_display: false, wayland_surface: false });
    assert!(matches!(a, BuildAction::CreateSurface(SurfacePath::Xcb)));
}

#[test]
fn window_failure_ends_build_without_surface() {
    let mut b = SurfaceBuild::new(Platform::Unix, true);
    let mut actions = Vec::new();
    actions.push(b.step(BuildEvent::WindowFailed(window_failure())));
    match &actions[0] {
        BuildAction::Fail(CreationError::WindowCreationError(winit::CreationError::OsError(m))) => {
            assert_eq!(m, "synthetic")
        }
        other => panic!("unexpected action {:?}", other),
    }
    assert_eq!(b.phase, BuildPhase::Finished);
    actions.push(b.step(BuildEvent::WindowBuilt { wayland_display: true, wayland_surface: true }));
    assert!(matches!(actions[1], BuildAction::Ignore));
    assert_eq!(count_requests(&actions), 0);
}

#[test]
fn surface_failure_ends_build_with_surface_error() {
    let mut b = SurfaceBuild::new(Platform::Windows, false);
    let mut actions = Vec::new();
    actions.push(b.step(BuildEvent::WindowBuilt { wayland_display: false, wayland_surface: false }));
    assert!(matches!(actions[0], BuildAction::CreateSurface(SurfacePath::Win32)));
    actions.push(b.step(BuildEvent::SurfaceFailed(surface_failure())));
    assert!(matches!(
        actions[1],
        BuildAction::Fail(CreationError::SurfaceCreationError(Validated::Error(VulkanError::OutOfHostMemory)))
    ));
    assert_eq!(b.phase, BuildPhase::Finished);
    actions.push(b.step(BuildEvent::SurfaceFailed(surface_failure())));
    assert!(matches!(actions[2], BuildAction::Ignore));
    assert_eq!(count_requests(&actions), 1);
}

#[test]
fn surface_events_before_window_are_ignored() {
    let mut b = SurfaceBuild::new(Platform::Android, false);
    assert!(matches!(b.step(BuildEvent::SurfaceBuilt), BuildAction::Ignore));
    assert!(matches!(b.step(BuildEvent::SurfaceFailed(surface_failure())), BuildAction::Ignore));
    assert_eq!(b.phase, BuildPhase::AwaitingWindow);
    let a = b.step(BuildEvent::WindowBuilt { wayland_display: true, wayland_surface: true });
    assert!(matches!(a, BuildAction::CreateSurface(SurfacePath::AndroidNativeWindow)));
}
