//! Capture-and-dispatch core for a selection-translation desktop tool:
//! shortcut parsing, debounced dispatch, clipboard capture orchestration,
//! a settings mirror, and the translation request/response mapping.
use vstd::prelude::*;

pub mod capture;
pub mod dispatch;
pub mod gateway;
pub mod registry;
pub mod settings;
pub mod shortcut;
pub mod text;

verus! {

/// Milliseconds a dispatch must wait after an accepted trigger before the
/// next trigger may be accepted.
pub const DEBOUNCE_WINDOW_MS: u64 = 300;

/// Maximum number of characters kept from a captured selection.
pub const CAPTURE_LIMIT: usize = 1000;

/// Milliseconds the capture sequence waits after sending the copy
/// keystroke for the clipboard to be updated.
pub const CAPTURE_WAIT_MS: u64 = 50;

/// Seconds a translation request may take before it is treated as failed;
/// there is no retry.
pub const TRANSLATE_TIMEOUT_SECS: u64 = 10;

} // verus!
