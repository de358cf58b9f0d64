use vstd::prelude::*;

pub mod cache;
pub mod cli;
pub mod compose;
pub mod config;
pub mod distro;
pub mod error;
pub mod hostapi;
pub mod info;
pub mod procwalk;
pub mod render;
pub mod strutil;

verus! {

/// Image width used when neither a flag nor the config file gives one.
pub const DEFAULT_MAX_WIDTH: u8 = 30;

/// Alpha threshold used when neither a flag nor the config file gives one.
pub const DEFAULT_ALPHA_THRESHOLD: u8 = 50;

/// Antialiasing setting used when neither a flag nor the config file gives one.
pub const DEFAULT_ALIASING: bool = false;

/// Gap (in spaces) between the image column and the info column by default.
pub const DEFAULT_GAP: u8 = 2;

/// Whether info labels carry a colon suffix by default.
pub const DEFAULT_SHOW_COLONS: bool = true;

/// Whether the render cache is skipped by default.
pub const DEFAULT_SKIP_CACHE: bool = false;

} // verus!
