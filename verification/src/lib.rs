//! Core of a multi-sink logging pipeline: severity filtering, terminal line
//! rendering, reloadable sink slots and the subscriber that composes them.
//!
//! Everything here is sequential, and all it takes from the machine is the
//! time of day. The caller owns the threads, the files and the sockets; this
//! crate decides what is written where, and proves that it decides as
//! documented.

pub mod clock;
pub mod color;
pub mod event;
pub mod filter;
pub mod formatter;
pub mod level;
pub mod otel;
pub mod profile;
pub mod settings;
pub mod slot;
pub mod subscriber;
pub mod text;
pub mod wrapper_asset;
