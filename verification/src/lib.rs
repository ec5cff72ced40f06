//! A minimal container image puller and jailed process launcher.
//!
//! The crate resolves an image reference against a registry (authentication,
//! manifest classification, platform selection, layer listing), plans the
//! blob fetches and the sandbox layout, and decides how the launched
//! command's outcome is forwarded.  Network transport, archive extraction
//! and the operating-system calls themselves live outside the library and
//! consume the plans and decisions produced here.

pub mod auth;
pub mod errors;
pub mod manifest;
pub mod pipeline;
pub mod registry;
pub mod repository;
pub mod sandbox;
pub mod text;

mod json;
