//! A minimal container runtime, as a verified library.
//!
//! The library decides every step of the two lifecycles of the runtime:
//! creating a container (`run`) and joining a running one (`exec`). Each
//! step is an [`lifecycle::Action`] that the caller performs against the
//! kernel; the caller hands back what happened as an [`lifecycle::Event`].
//! The order of the privileged operations, and what happens on each failure,
//! is proved here.
pub mod cli;
pub mod devices;
pub mod laws;
pub mod lifecycle;
pub mod text;
