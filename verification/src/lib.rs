//! In-memory synchronization of a content site's post and template caches
//! with their on-disk representation, driven by filesystem change events.
//!
//! The library classifies change notifications, derives stable identifiers
//! for content files, and applies the resulting add/rename/remove/overwrite
//! mutations to two in-memory caches. Watching directories and reading
//! files is left to the surrounding program; everything here is pure logic
//! over plain values, verified against the contracts below.

pub mod cache;
pub mod config;
pub mod ident;
pub mod laws;
pub mod monitor;
pub mod paths;

pub use config::{Config, Monitor, Server, WebInfo};
pub use monitor::init;
