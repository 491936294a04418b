//! Core of a hotkey-driven window-screenshot tracker: the per-capture entry
//! lifecycle, the ordered entry registry with its navigation cursor, the
//! bounded display-resource cache, and the crash-safe file-location mover.
//!
//! Everything here works on plain values; the surrounding program performs the
//! operating-system work (window enumeration, pixel capture, disk writes,
//! renames, display uploads) and feeds the outcomes back into these verified
//! transition functions.

pub mod cache;
pub mod entry;
pub mod matching;
pub mod messages;
pub mod mover;
pub mod naming;
pub mod pipeline;
pub mod registry;

use vstd::prelude::*;

verus! {

/// Upper bound on how many entries may hold a live display handle at once.
pub const MAX_LOADED_TEXTURES: usize = 32;

} // verus!
