//! Global hotkeys bound to actions on a single application window.
//!
//! The library holds every decision: which key combination stands for which
//! action, what a pressed hotkey asks of the window, in which order the
//! combinations are registered, and how a failure of the window host is
//! answered. It never touches a window itself. Each command is turned into a
//! [`plan::Plan`], a short list of host operations with a failure policy for
//! each, and a [`plan::Run`] walks the caller through it one reply at a time.

pub mod bindings;
pub mod chrome;
pub mod dispatch;
pub mod error;
pub mod host;
pub mod model;
pub mod plan;
pub mod registration;
pub mod visibility;

pub use crate::bindings::get_shortcuts;
pub use crate::chrome::{set_always_on_top, set_app_icon_visibility};
pub use crate::registration::{check_shortcuts_registered, setup_global_shortcuts};
pub use crate::visibility::WindowVisibility;
