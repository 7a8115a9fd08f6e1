use vstd::prelude::*;
use winit::CreationError as WindowCreationError;

verus! {

#[verifier::external_type_specification]
#[verifier::external_body]
#[verifier::reject_recursive_types(E)]
pub struct ExValidated<E>(vulkano::Validated<E>);

#[verifier::external_type_specification]
#[verifier::external_body]
pub struct ExVulkanError(vulkano::VulkanError);

#[verifier::external_type_specification]
#[verifier::external_body]
pub struct ExWindowCreationError(WindowCreationError);

/// Error that can happen when creating a window together with its surface.
#[derive(Debug)]
pub enum CreationError {
    /// The window was created, but no surface could be bound to it.
    SurfaceCreationError(vulkano::Validated<vulkano::VulkanError>),
    /// The window itself could not be created.
    WindowCreationError(WindowCreationError),
}

impl CreationError {
    /// A short human-readable text for the kind of failure.
    pub fn description(&self) -> (r: &'static str)
        ensures
            self is SurfaceCreationError ==> r@ == "error while creating the surface"@,
            self is WindowCreationError ==> r@ == "error while creating the window"@,
    {
        match self {
            CreationError::SurfaceCreationError(_) => "error while creating the surface",
            CreationError::WindowCreationError(_) => "error while creating the window",
        }
    }

    /// The graphics-API error behind a surface failure.
    pub fn surface_cause(&self) -> (r: Option<&vulkano::Validated<vulkano::VulkanError>>)
        ensures
            match self {
                CreationError::SurfaceCreationError(e) => r == Some(e),
                CreationError::WindowCreationError(_) => r is None,
            },
    {
        match self {
            CreationError::SurfaceCreationError(e) => Some(e),
            CreationError::WindowCreationError(_) => None,
        }
    }

    /// The windowing error behind a window failure.
    pub fn window_cause(&self) -> (r: Option<&WindowCreationError>)
        ensures
            match self {
                CreationError::SurfaceCreationError(_) => r is None,
                CreationError::WindowCreationError(e) => r == Some(e),
            },
    {
        match self {
            CreationError::SurfaceCreationError(_) => None,
            CreationError::WindowCreationError(e) => Some(e),
        }
    }
}

impl From<vulkano::Validated<vulkano::VulkanError>> for CreationError {
    fn from(err: vulkano::Validated<vulkano::VulkanError>) -> (r: CreationError)
        ensures
            r == CreationError::SurfaceCreationError(err),
    {
        CreationError::SurfaceCreationError(err)
    }
}

impl vstd::std_specs::convert::FromSpecImpl<vulkano::Validated<vulkano::VulkanError>> for CreationError {
    open spec fn obeys_from_spec() -> bool {
        true
    }

    open spec fn from_spec(v: vulkano::Validated<vulkano::VulkanError>) -> CreationError {
        CreationError::SurfaceCreationError(v)
    }
}

impl From<WindowCreationError> for CreationError {
    fn from(err: WindowCreationError) -> (r: CreationError)
        ensures
            r == CreationError::WindowCreationError(err),
    {
        CreationError::WindowCreationError(err)
    }
}

impl vstd::std_specs::convert::FromSpecImpl<WindowCreationError> for CreationError {
    open spec fn obeys_from_spec() -> bool {
        true
    }

    open spec fn from_spec(v: WindowCreationError) -> CreationError {
        CreationError::WindowCreationError(v)
    }
}

} // verus!
