//! Core of a drop-in replacement for a native 3D graphics system library.
//!
//! Internally managed objects present a foreign, multi-interface binary
//! contract: interface-identity-based capability dispatch, reference-counted
//! shared ownership with deterministic destruction, sentinel-code error
//! translation across the boundary, and an exactly-once initialization
//! primitive for repeatedly-invoked entry points.

pub mod entry;
pub mod error;
pub mod guard;
pub mod refcount;
pub mod registry;
