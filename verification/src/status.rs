//! Playback status values and their fixed textual mapping.

use vstd::prelude::*;

verus! {

/// Playback status of the current media session.
///
/// These mirror the closed set of states the operating system's media-session
/// source reports; any unmapped source value is carried as `Unknown`.
#[derive(Clone, Copy, PartialEq, Eq, Structural, Debug)]
pub enum PlaybackStatus {
    Changing,
    Closed,
    Opened,
    Paused,
    Playing,
    Stopped,
    Unknown,
}

/// The exact, case-sensitive text published for each playback status.
pub open spec fn spec_status_text(s: PlaybackStatus) -> Seq<char> {
    match s {
        PlaybackStatus::Changing => "Changing"@,
        PlaybackStatus::Closed => "Closed"@,
        PlaybackStatus::Opened => "Opened"@,
        PlaybackStatus::Paused => "Paused"@,
        PlaybackStatus::Playing => "Playing"@,
        PlaybackStatus::Stopped => "Stopped"@,
        PlaybackStatus::Unknown => "Unknown"@,
    }
}

/// Maps a playback status to the text published in the status slot.
pub fn format_playback_status(s: PlaybackStatus) -> (r: &'static str)
    ensures
        r@ == spec_status_text(s),
{
    match s {
        PlaybackStatus::Changing => "Changing",
        PlaybackStatus::Closed => "Closed",
        PlaybackStatus::Opened => "Opened",
        PlaybackStatus::Paused => "Paused",
        PlaybackStatus::Playing => "Playing",
        PlaybackStatus::Stopped => "Stopped",
        PlaybackStatus::Unknown => "Unknown",
    }
}

} // verus!
