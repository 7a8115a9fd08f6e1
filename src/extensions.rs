use vstd::prelude::*;

verus! {

/// The surface-related instance extensions, one flag each.
///
/// The Mir surface extension has left the Vulkan registry, so the runtime
/// can no longer report it and it has no flag here.
#[derive(Clone, Copy, Debug, PartialEq, Eq, Structural)]
pub struct SurfaceExtensions {
    pub khr_surface: bool,
    pub khr_xlib_surface: bool,
    pub khr_xcb_surface: bool,
    pub khr_wayland_surface: bool,
    pub khr_android_surface: bool,
    pub khr_win32_surface: bool,
    pub mvk_ios_surface: bool,
    pub mvk_macos_surface: bool,
}

impl SurfaceExtensions {
    /// Every flag equal to `b`.
    pub open spec fn all_spec(b: bool) -> SurfaceExtensions {
        SurfaceExtensions {
            khr_surface: b,
            khr_xlib_surface: b,
            khr_xcb_surface: b,
            khr_wayland_surface: b,
            khr_android_surface: b,
            khr_win32_surface: b,
            mvk_ios_surface: b,
            mvk_macos_surface: b,
        }
    }

    /// Flag-wise conjunction.
    pub open spec fn meet(self, o: SurfaceExtensions) -> SurfaceExtensions {
        SurfaceExtensions {
            khr_surface: self.khr_surface && o.khr_surface,
            khr_xlib_surface: self.khr_xlib_surface && o.khr_xlib_surface,
            khr_xcb_surface: self.khr_xcb_surface && o.khr_xcb_surface,
            khr_wayland_surface: self.khr_wayland_surface && o.khr_wayland_surface,
            khr_android_surface: self.khr_android_surface && o.khr_android_surface,
            khr_win32_surface: self.khr_win32_surface && o.khr_win32_surface,
            mvk_ios_surface: self.mvk_ios_surface && o.mvk_ios_surface,
            mvk_macos_surface: self.mvk_macos_surface && o.mvk_macos_surface,
        }
    }

    /// Every flag set in `self` is set in `o`.
    pub open spec fn within(self, o: SurfaceExtensions) -> bool {
        &&& self.khr_surface ==> o.khr_surface
        &&& self.khr_xlib_surface ==> o.khr_xlib_surface
        &&& self.khr_xcb_surface ==> o.khr_xcb_surface
        &&& self.khr_wayland_surface ==> o.khr_wayland_surface
        &&& self.khr_android_surface ==> o.khr_android_surface
        &&& self.khr_win32_surface ==> o.khr_win32_surface
        &&& self.mvk_ios_surface ==> o.mvk_ios_surface
        &&& self.mvk_macos_surface ==> o.mvk_macos_surface
    }

    /// The set with no flag.
    pub fn none() -> (r: SurfaceExtensions)
        ensures
            r == Self::all_spec(false),
    {
        SurfaceExtensions {
            khr_surface: false,
            khr_xlib_surface: false,
            khr_xcb_surface: false,
            khr_wayland_surface: false,
            khr_android_surface: false,
            khr_win32_surface: false,
            mvk_ios_surface: false,
            mvk_macos_surface: false,
        }
    }

    /// What a window surface could use on any platform: every flag.
    pub fn ideal() -> (r: SurfaceExtensions)
        ensures
            r == Self::all_spec(true),
    {
        SurfaceExtensions {
            khr_surface: true,
            khr_xlib_surface: true,
            khr_xcb_surface: true,
            khr_wayland_surface: true,
            khr_android_surface: true,
            khr_win32_surface: true,
            mvk_ios_surface: true,
            mvk_macos_surface: true,
        }
    }

    /// The flags set in both `self` and `other`.
    pub fn intersection(&self, other: &SurfaceExtensions) -> (r: SurfaceExtensions)
        ensures
            r == self.meet(*other),
    {
        SurfaceExtensions {
            khr_surface: self.khr_surface && other.khr_surface,
            khr_xlib_surface: self.khr_xlib_surface && other.khr_xlib_surface,
            khr_xcb_surface: self.khr_xcb_surface && other.khr_xcb_surface,
            khr_wayland_surface: self.khr_wayland_surface && other.khr_wayland_surface,
            khr_android_surface: self.khr_android_surface && other.khr_android_surface,
            khr_win32_surface: self.khr_win32_surface && other.khr_win32_surface,
            mvk_ios_surface: self.mvk_ios_surface && other.mvk_ios_surface,
            mvk_macos_surface: self.mvk_macos_surface && other.mvk_macos_surface,
        }
    }
}

/// The extensions to enable, given what the runtime reported (`None` when
/// the query failed): the ideal set cut down to the supported flags, or no
/// flag at all.
pub open spec fn negotiated(supported: Option<SurfaceExtensions>) -> SurfaceExtensions {
    match supported {
        Some(s) => s.meet(SurfaceExtensions::all_spec(true)),
        None => SurfaceExtensions::all_spec(false),
    }
}

/// Negotiates the surface extensions against what the runtime reported.
pub fn negotiate(supported: Option<SurfaceExtensions>) -> (r: SurfaceExtensions)
    ensures
        r == negotiated(supported),
{
    match supported {
        Some(s) => s.intersection(&SurfaceExtensions::ideal()),
        None => SurfaceExtensions::none(),
    }
}

/// The negotiated set lies within the ideal set and within the supported
/// set, and is empty when the runtime could not be queried.
pub proof fn lemma_negotiated_within_both(supported: Option<SurfaceExtensions>)
    ensures
        negotiated(supported).within(SurfaceExtensions::all_spec(true)),
        supported matches Some(s) ==> negotiated(supported).within(s),
        supported matches Some(s) ==> s.meet(SurfaceExtensions::all_spec(true)).within(
            negotiated(supported),
        ),
        supported is None ==> negotiated(supported) == SurfaceExtensions::all_spec(false),
{
}

#[verifier::external_type_specification]
#[verifier::external_body]
pub struct ExVulkanLibrary(vulkano::VulkanLibrary);

/// Relies on vulkano's `VulkanLibrary::new`: loads the system's Vulkan
/// loader, or fails when there is none. Whether it succeeds depends on the
/// machine, so nothing is promised of the result.
#[verifier::external_body]
fn load_library() -> (r: Option<std::sync::Arc<vulkano::VulkanLibrary>>) {
    vulkano::VulkanLibrary::new().ok()
}

/// Relies on vulkano's `VulkanLibrary::supported_extensions`: the instance
/// extensions the loaded runtime reports, of which the surface flags are
/// read. What a runtime reports depends on the machine.
#[verifier::external_body]
fn supported_surface_extensions(lib: &vulkano::VulkanLibrary) -> (r: SurfaceExtensions) {
    let e = lib.supported_extensions();
    SurfaceExtensions {
        khr_surface: e.khr_surface,
        khr_xlib_surface: e.khr_xlib_surface,
        khr_xcb_surface: e.khr_xcb_surface,
        khr_wayland_surface: e.khr_wayland_surface,
        khr_android_surface: e.khr_android_surface,
        khr_win32_surface: e.khr_win32_surface,
        mvk_ios_surface: e.mvk_ios_surface,
        mvk_macos_surface: e.mvk_macos_surface,
    }
}

/// The surface extensions an instance should enable: the ideal set
/// intersected with what the runtime supports, or the empty set when the
/// runtime cannot be loaded.
pub fn required_extensions() -> (r: SurfaceExtensions)
    ensures
        exists|s: Option<SurfaceExtensions>| r == negotiated(s),
{
    let supported = match load_library() {
        Some(lib) => Some(supported_surface_extensions(&lib)),
        None => None,
    };
    negotiate(supported)
}

} // verus!
