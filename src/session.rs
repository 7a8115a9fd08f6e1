use vstd::prelude::*;
use winit::CreationError as WindowCreationError;
use crate::dispatch::{Platform, SurfacePath, path_for, select_path};
use crate::error::CreationError;

verus! {

#[verifier::external_type_specification]
#[verifier::external_body]
pub struct ExInstance(vulkano::instance::Instance);

/// Relies on vulkano's `Instance::enabled_extensions`: whether the Xlib
/// surface extension is among the extensions the instance was created
/// with. The instance is opaque here, so nothing more is stated.
#[verifier::external_body]
fn instance_enables_xlib(instance: &vulkano::instance::Instance) -> (r: bool) {
    instance.enabled_extensions().khr_xlib_surface
}

/// Where a window-and-surface build stands.
#[derive(Clone, Copy, Debug, PartialEq, Eq, Structural)]
pub enum BuildPhase {
    /// The window is being created.
    AwaitingWindow,
    /// The window exists; its surface is being created.
    AwaitingSurface,
    /// The build has succeeded or failed; nothing more happens.
    Finished,
}

/// What the caller reports back after doing the requested work.
#[derive(Debug)]
pub enum BuildEvent {
    /// The window was created; which Wayland handles it offers.
    WindowBuilt { wayland_display: bool, wayland_surface: bool },
    /// The windowing library could not create the window.
    WindowFailed(WindowCreationError),
    /// The surface was created.
    SurfaceBuilt,
    /// The graphics API could not create the surface.
    SurfaceFailed(vulkano::Validated<vulkano::VulkanError>),
}

/// What the caller must do next.
#[derive(Debug)]
pub enum BuildAction {
    /// Create the surface, once, along the given path.
    CreateSurface(SurfacePath),
    /// Hand the window and its surface to the caller.
    Succeed,
    /// Drop whatever was created and return the error.
    Fail(CreationError),
    /// The event does not fit the phase; nothing to do.
    Ignore,
}

/// The decisions of building a window and binding a surface to it: the
/// window is created first; once it exists its surface is created exactly
/// once; any failure ends the build, wrapped in a [`CreationError`].
#[derive(Clone, Copy, Debug)]
pub struct SurfaceBuild {
    pub platform: Platform,
    /// Whether the instance enabled the Xlib surface extension.
    pub xlib_enabled: bool,
    pub phase: BuildPhase,
}

impl SurfaceBuild {
    /// The state and action that follow `event`.
    pub open spec fn next(self, event: BuildEvent) -> (SurfaceBuild, BuildAction) {
        let done = SurfaceBuild { phase: BuildPhase::Finished, ..self };
        match (self.phase, event) {
            (BuildPhase::AwaitingWindow, BuildEvent::WindowBuilt { wayland_display, wayland_surface }) => (
                SurfaceBuild { phase: BuildPhase::AwaitingSurface, ..self },
                BuildAction::CreateSurface(
                    path_for(self.platform, wayland_display, wayland_surface, self.xlib_enabled),
                ),
            ),
            (BuildPhase::AwaitingWindow, BuildEvent::WindowFailed(e)) => (
                done,
                BuildAction::Fail(CreationError::WindowCreationError(e)),
            ),
            (BuildPhase::AwaitingSurface, BuildEvent::SurfaceBuilt) => (done, BuildAction::Succeed),
            (BuildPhase::AwaitingSurface, BuildEvent::SurfaceFailed(e)) => (
                done,
                BuildAction::Fail(CreationError::SurfaceCreationError(e)),
            ),
            _ => (self, BuildAction::Ignore),
        }
    }

    /// How many surface creations a run of `events` asks for.
    pub open spec fn surface_requests(self, events: Seq<BuildEvent>) -> nat
        decreases events.len(),
    {
        if events.len() == 0 {
            0
        } else {
            let (s, a) = self.next(events[0]);
            (if a is CreateSurface { 1nat } else { 0nat }) + s.surface_requests(events.drop_first())
        }
    }

    /// A build that is about to create its window.
    pub fn new(platform: Platform, xlib_enabled: bool) -> (r: SurfaceBuild)
        ensures
            r == (SurfaceBuild { platform, xlib_enabled, phase: BuildPhase::AwaitingWindow }),
    {
        SurfaceBuild { platform, xlib_enabled, phase: BuildPhase::AwaitingWindow }
    }

    /// A build for `instance`, which is about to create its window; the
    /// Xlib choice follows the instance's enabled extensions.
    pub fn for_instance(platform: Platform, instance: &vulkano::instance::Instance) -> (r:
        SurfaceBuild)
        ensures
            r.platform == platform,
            r.phase == BuildPhase::AwaitingWindow,
    {
        let xlib_enabled = instance_enables_xlib(instance);
        SurfaceBuild::new(platform, xlib_enabled)
    }

    /// Takes in what happened and says what to do next.
    pub fn step(&mut self, event: BuildEvent) -> (r: BuildAction)
        ensures
            (*final(self), r) == old(self).next(event),
    {
        match (self.phase, event) {
            (BuildPhase::AwaitingWindow, BuildEvent::WindowBuilt { wayland_display, wayland_surface }) => {
                self.phase = BuildPhase::AwaitingSurface;
                BuildAction::CreateSurface(
                    select_path(self.platform, wayland_display, wayland_surface, self.xlib_enabled),
                )
            },
            (BuildPhase::AwaitingWindow, BuildEvent::WindowFailed(e)) => {
                self.phase = BuildPhase::Finished;
                BuildAction::Fail(CreationError::WindowCreationError(e))
            },
            (BuildPhase::AwaitingSurface, BuildEvent::SurfaceBuilt) => {
                self.phase = BuildPhase::Finished;
                BuildAction::Succeed
            },
            (BuildPhase::AwaitingSurface, BuildEvent::SurfaceFailed(e)) => {
                self.phase = BuildPhase::Finished;
                BuildAction::Fail(CreationError::SurfaceCreationError(e))
            },
            _ => BuildAction::Ignore,
        }
    }
}

/// Once the window exists or the build is over, no further surface
/// creation is asked for.
proof fn lemma_no_request_after_window(s: SurfaceBuild, events: Seq<BuildEvent>)
    requires
        !(s.phase is AwaitingWindow),
    ensures
        s.surface_requests(events) == 0,
    decreases events.len(),
{
    if events.len() > 0 {
        lemma_no_request_after_window(s.next(events[0]).0, events.drop_first());
    }
}

/// Whatever happens, a build asks for at most one surface creation; exactly
/// one when the window was created, none when it was not.
pub proof fn lemma_surface_requested_at_most_once(
    platform: Platform,
    xlib_enabled: bool,
    events: Seq<BuildEvent>,
)
    ensures
        ({
            let s = SurfaceBuild { platform, xlib_enabled, phase: BuildPhase::AwaitingWindow };
            &&& s.surface_requests(events) <= 1
            &&& events.len() > 0 && events[0] is WindowBuilt ==> s.surface_requests(events) == 1
            &&& events.len() > 0 && events[0] is WindowFailed ==> s.surface_requests(events) == 0
        }),
    decreases events.len(),
{
    let s = SurfaceBuild { platform, xlib_enabled, phase: BuildPhase::AwaitingWindow };
    if events.len() > 0 {
        let (t, a) = s.next(events[0]);
        if t.phase is AwaitingWindow {
            lemma_surface_requested_at_most_once(platform, xlib_enabled, events.drop_first());
        } else {
            lemma_no_request_after_window(t, events.drop_first());
        }
    }
}

} // verus!
