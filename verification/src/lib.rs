//! Resolution and self-update logic for an external language-server binary.
//!
//! The crate decides, for one resolution request, which server executable to
//! launch and how: an operator override wins outright; otherwise the installed
//! binary is kept when its recorded version matches the release feed's latest
//! release, a missing or outdated binary is scheduled for installation, and a
//! feed outage degrades to the binary already on disk when one exists. A
//! companion toolchain directory is located through an ordered fallback chain.
//!
//! All network and filesystem work is performed by the embedding layer; this
//! crate holds the decision logic, with contracts stating every outcome.

pub mod command;
pub mod errors;
pub mod installer;
pub mod paths;
pub mod platform;
pub mod release;
pub mod resolver;
pub mod store;
pub mod toolchain;
