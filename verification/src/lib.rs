//! Verified core of a plugin binding for a forensic analysis host.
//!
//! The host drives a plugin through a fixed set of lifecycle callbacks and
//! offers its own services through a table of functions resolved by name at
//! load time.  This crate holds the host-independent core of such a binding:
//! symbol-table assembly, wide-string and packed-record marshalling, typed
//! handle wrappers, the lifecycle state machine, and the conversion of
//! lifecycle outcomes into the integer return codes the host expects.
//! Everything that actually crosses the process boundary (symbol lookup,
//! the host calls themselves) lives outside this crate; the functions here
//! take the host's raw replies as plain values and are verified for every
//! value the host could produce.

pub mod application;
pub mod case;
pub mod datetime;
pub mod decimal;
pub mod error;
pub mod evidence;
pub mod example;
pub mod flags;
pub mod fntable;
pub mod item;
pub mod lifecycle;
pub mod marshal;
pub mod types;
pub mod version;
pub mod volume;
pub mod window;
