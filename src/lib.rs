//! Binding a window to a Vulkan surface: which surface extensions to ask
//! for, which native-handle path creates the surface on each platform, and
//! the small state machine that builds a window and then its surface.

pub mod dispatch;
pub mod error;
pub mod extensions;
pub mod session;
pub mod window;
