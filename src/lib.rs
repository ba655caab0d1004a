//! Packages a native application for one platform: resolves the toolchain,
//! lays out the bundle, plans every step of a run (directories, wrapper
//! source, compilation, descriptor, signature, deployment), and decides after
//! each step whether the run goes on. The host performs the steps.

pub mod platform;
pub mod text;
pub mod layout;
pub mod error;
pub mod toolchain;
pub mod manifest;
pub mod plan;
pub mod driver;
pub mod cli;
pub mod guarantees;
