use vstd::prelude::*;

verus! {

/// The platform family the crate is built for. Exactly one is in effect
/// for a given build; the caller picks it from the build target.
#[derive(Clone, Copy, Debug, PartialEq, Eq, Structural)]
pub enum Platform {
    Android,
    /// Unix other than Android and macOS: Wayland or X11.
    Unix,
    Windows,
    MacOs,
}

/// The native-handle path that creates the surface.
#[derive(Clone, Copy, Debug, PartialEq, Eq, Structural)]
pub enum SurfacePath {
    /// From the Android native window.
    AndroidNativeWindow,
    /// From the Wayland display and surface.
    Wayland,
    /// From the Xlib display and window id.
    Xlib,
    /// From the XCB connection and window id.
    Xcb,
    /// From the Win32 window handle, with a null module handle.
    Win32,
    /// From the Cocoa view, after a Metal layer is attached to it.
    MacOsMetal,
}

/// The path for a platform. On Unix, Wayland wins when the window has both
/// a Wayland display and a Wayland surface; otherwise Xlib when the
/// instance enabled the Xlib surface extension, else XCB.
pub open spec fn path_for(
    platform: Platform,
    wayland_display: bool,
    wayland_surface: bool,
    xlib_enabled: bool,
) -> SurfacePath {
    match platform {
        Platform::Android => SurfacePath::AndroidNativeWindow,
        Platform::Unix => if wayland_display && wayland_surface {
            SurfacePath::Wayland
        } else if xlib_enabled {
            SurfacePath::Xlib
        } else {
            SurfacePath::Xcb
        },
        Platform::Windows => SurfacePath::Win32,
        Platform::MacOs => SurfacePath::MacOsMetal,
    }
}

/// Whether following the path reads the window's X11 handles.
pub open spec fn reads_x11_handles(path: SurfacePath) -> bool {
    path is Xlib || path is Xcb
}

/// Chooses the surface path from the platform, which Wayland handles the
/// window has, and whether the instance enabled the Xlib surface extension.
pub fn select_path(
    platform: Platform,
    wayland_display: bool,
    wayland_surface: bool,
    xlib_enabled: bool,
) -> (r: SurfacePath)
    ensures
        r == path_for(platform, wayland_display, wayland_surface, xlib_enabled),
{
    match platform {
        Platform::Android => SurfacePath::AndroidNativeWindow,
        Platform::Unix => {
            if wayland_display && wayland_surface {
                SurfacePath::Wayland
            } else if xlib_enabled {
                SurfacePath::Xlib
            } else {
                SurfacePath::Xcb
            }
        },
        Platform::Windows => SurfacePath::Win32,
        Platform::MacOs => SurfacePath::MacOsMetal,
    }
}

/// On Unix the order is fixed: Wayland when its handles are there (and
/// then no X11 handle is read), else Xlib when enabled, else XCB.
pub proof fn lemma_unix_order(wayland_display: bool, wayland_surface: bool, xlib_enabled: bool)
    ensures
        wayland_display && wayland_surface ==> path_for(
            Platform::Unix,
            wayland_display,
            wayland_surface,
            xlib_enabled,
        ) == SurfacePath::Wayland && !reads_x11_handles(
            path_for(Platform::Unix, wayland_display, wayland_surface, xlib_enabled),
        ),
        !(wayland_display && wayland_surface) && xlib_enabled ==> path_for(
            Platform::Unix,
            wayland_display,
            wayland_surface,
            xlib_enabled,
        ) == SurfacePath::Xlib,
        !(wayland_display && wayland_surface) && !xlib_enabled ==> path_for(
            Platform::Unix,
            wayland_display,
            wayland_surface,
            xlib_enabled,
        ) == SurfacePath::Xcb,
{
}

} // verus!
