//! Media-player state tracking, configuration and browser tab analysis.
use vstd::prelude::*;

pub mod text;
pub mod span;
pub mod fmt;
pub mod player;
pub mod listen;
pub mod artwork;
pub mod probe;
pub mod macos;
pub mod config;
pub mod img;
pub mod browser;
pub mod scripts;

verus! {

} // verus!
