//! Self-update and runtime-provisioning engine of a bootstrap launcher.
//!
//! The launcher replaces its own executable when the release feed names
//! another version, keeps a private runtime installed, and starts an
//! application with it. This library holds every decision of such a run and
//! does none of its outside work:
//!
//! - [`feed`] compares versions and picks the update package of a release;
//! - [`package`] takes the new executable out of an update package;
//! - [`archive`] decodes a runtime archive and places its entries;
//! - [`runtime`] tells a healthy runtime from a missing or broken one;
//! - [`bootstrap`] orders the phases of a run as a state machine;
//! - [`runs`] states what holds of every run of that machine;
//! - [`text`] compares the names that the others look at.

pub mod archive;
pub mod bootstrap;
pub mod feed;
pub mod package;
pub mod runs;
pub mod runtime;
pub mod text;
