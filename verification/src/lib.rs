//! Firmware image assembly for a ROM-emulator device.
//!
//! A [`builder::Builder`] is constructed from a declarative configuration,
//! reports which source files it needs and which licenses must be accepted,
//! collects uploaded file bytes, validates readiness, and synthesizes the
//! final image together with a machine-readable metadata record.

pub mod builder;
pub mod catalog;
pub mod catalog_info;
pub mod config;
pub mod image;
pub mod laws;
pub mod model;
pub mod names;
pub mod policy;
pub mod validate;

pub use policy::SizeHandling;
