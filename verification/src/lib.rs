//! Verified core of a small Wayland screenshot tool: pixel conversion and
//! cropping of captured frames, configuration checks, the decisions of the
//! Wayland event handlers, and PNG export of the result.

pub mod capture;
pub mod cli;
pub mod clipboard;
pub mod color;
pub mod config;
pub mod convert;
pub mod export;
pub mod image;
pub mod notify;
pub mod overlay;
pub mod registry;
pub mod render;
pub mod selection;
