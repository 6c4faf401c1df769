//! A verified core for a "now playing" media-metadata plugin.
//!
//! A background polling engine periodically queries the operating system's
//! media session, reconciles the slowly-updating timeline data into a smoothly
//! advancing playback position, formats the results, and publishes them into a
//! set of independently written slots. Synchronous host queries read one slot
//! each and fall back to a fixed default when a slot is empty.
//!
//! This crate holds the verified logic: the status mapping, the time and
//! position reconciliation, the display formatting, the per-cycle slot update
//! rules, and the lifecycle state machine. The host-facing shell (FFI exports,
//! the real mutexes, the worker thread and the operating-system queries) lives
//! outside the verified library and drives these functions.

pub mod engine;
pub mod format;
pub mod lifecycle;
pub mod slots;
pub mod status;
pub mod timing;

use vstd::prelude::*;

verus! {

/// Minimum refresh interval the host should use, in milliseconds.
///
/// The engine's internal poll cadence is 100 ms, so 150 ms leaves a safety
/// margin for the cycle's own runtime.
pub fn min_refresh_interval_ms() -> (r: u64)
    ensures
        r == 150,
{
    150
}

/// The plugin identification text the host shows for this plugin.
pub fn info_line() -> (r: &'static str)
    ensures
        r@ == "Developer: Dusty the Fuzzy Dragon\r\nVersion: 1.RIIR"@,
{
    "Developer: Dusty the Fuzzy Dragon\r\nVersion: 1.RIIR"
}

/// The usage-example text documenting each query's invocation syntax in the
/// host's scripting language.
pub fn demo_lines() -> (r: &'static str)
    ensures
        r@
            == "# Get the currently playing artist\n$dll(chcl_now_playing,1,,)\n# Get the currently playing song title\n$dll(chcl_now_playing,2,,)\n# Get the current song progress - MM:SS\n$dll(chcl_now_playing,3,,) / $dll(chcl_now_playing,4,,)\n# Get the current song progress as a bar 20 characters wide\n$Bar($dll(chcl_now_playing,5,,),$dll(chcl_now_playing,6,,),20)\n"@,
{
    "# Get the currently playing artist\n$dll(chcl_now_playing,1,,)\n# Get the currently playing song title\n$dll(chcl_now_playing,2,,)\n# Get the current song progress - MM:SS\n$dll(chcl_now_playing,3,,) / $dll(chcl_now_playing,4,,)\n# Get the current song progress as a bar 20 characters wide\n$Bar($dll(chcl_now_playing,5,,),$dll(chcl_now_playing,6,,),20)\n"
}

} // verus!
