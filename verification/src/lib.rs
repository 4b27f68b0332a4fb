//! Verified core of a tool that registers a listening socket as a Wayland
//! security context (`wp_security_context_manager_v1`).

pub mod number;
pub mod text;
pub mod args;
pub mod registry;
pub mod session;
pub mod script;
pub mod launch;
