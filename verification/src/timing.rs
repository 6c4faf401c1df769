//! Position reconciliation.
//!
//! The media-session source updates its timeline infrequently relative to the
//! poll interval, so the raw reported position would appear to stall. While
//! the status is `Playing`, the engine adds the wall-clock time elapsed since
//! the source's last-updated timestamp to the raw position; otherwise the raw
//! position is used as is.
//!
//! The source reports times in ticks of 100 nanoseconds. Its last-updated
//! timestamp counts ticks from an epoch 11,644,473,600 seconds before the
//! Unix epoch.

use vstd::prelude::*;
use crate::status::PlaybackStatus;

verus! {

/// Microseconds between the source's tick epoch and the Unix epoch.
pub const FILETIME_EPOCH_OFFSET_MICROS: i64 = 11_644_473_600_000_000;

/// A tick is 100 ns, so ten ticks make a microsecond.
pub open spec fn spec_ticks_to_micros(ticks: int) -> int {
    ticks / 10
}

/// The source's last-updated timestamp as microseconds since the Unix epoch.
pub open spec fn spec_last_updated_unix_micros(lu_ticks: int) -> int {
    lu_ticks / 10 - FILETIME_EPOCH_OFFSET_MICROS
}

/// Microseconds to add to the raw position: zero unless playing, else the
/// wall-clock time elapsed since the source last updated its timeline,
/// clamped to zero when the clock reads earlier than the timestamp.
pub open spec fn spec_offset_micros(status: PlaybackStatus, now_micros: int, lu_ticks: int) -> int {
    if status != PlaybackStatus::Playing {
        0
    } else {
        let d = now_micros - spec_last_updated_unix_micros(lu_ticks);
        if d <= 0 {
            0
        } else {
            d
        }
    }
}

/// The reconciled playback position, in microseconds.
pub open spec fn spec_position_micros(
    status: PlaybackStatus,
    now_micros: int,
    pos_ticks: int,
    lu_ticks: int,
) -> int {
    spec_ticks_to_micros(pos_ticks) + spec_offset_micros(status, now_micros, lu_ticks)
}

/// The reconciled playback position, truncated to whole seconds.
pub open spec fn spec_position_secs(
    status: PlaybackStatus,
    now_micros: int,
    pos_ticks: int,
    lu_ticks: int,
) -> int {
    spec_position_micros(status, now_micros, pos_ticks, lu_ticks) / 1_000_000
}

/// A tick count truncated to whole seconds; used for the track length, which
/// is published without any offset (it does not advance).
pub open spec fn spec_ticks_to_secs(ticks: int) -> int {
    spec_ticks_to_micros(ticks) / 1_000_000
}

/// Computes the reconciliation offset in microseconds.
pub fn offset_micros(status: PlaybackStatus, now_micros: i64, lu_ticks: i64) -> (r: u64)
    requires
        0 <= now_micros,
        0 <= lu_ticks,
    ensures
        r == spec_offset_micros(status, now_micros as int, lu_ticks as int),
        r <= now_micros + FILETIME_EPOCH_OFFSET_MICROS,
{
    match status {
        PlaybackStatus::Playing => {
            let lum: i64 = ((lu_ticks as u64) / 10) as i64 - FILETIME_EPOCH_OFFSET_MICROS;
            if now_micros <= lum {
                0
            } else if lum >= 0 {
                (now_micros - lum) as u64
            } else {
                (now_micros as u64) + ((-lum) as u64)
            }
        },
        _ => 0,
    }
}

/// Computes the reconciled playback position in whole seconds.
pub fn reconciled_position_secs(
    status: PlaybackStatus,
    now_micros: i64,
    pos_ticks: i64,
    lu_ticks: i64,
) -> (r: u64)
    requires
        0 <= now_micros,
        0 <= pos_ticks,
        0 <= lu_ticks,
    ensures
        r == spec_position_secs(status, now_micros as int, pos_ticks as int, lu_ticks as int),
{
    let raw: u64 = (pos_ticks as u64) / 10;
    let offset: u64 = offset_micros(status, now_micros, lu_ticks);
    let total: u64 = raw + offset;
    total / 1_000_000
}

/// Truncates a non-negative tick count to whole seconds.
pub fn ticks_to_secs(ticks: i64) -> (r: u64)
    requires
        0 <= ticks,
    ensures
        r == spec_ticks_to_secs(ticks as int),
{
    ((ticks as u64) / 10) / 1_000_000
}

/// When the status is anything but `Playing`, the reconciled position is the
/// raw source position exactly, whatever the current time and whatever the
/// source's last-updated timestamp: no offset is ever added.
pub proof fn lemma_not_playing_position_is_raw(
    status: PlaybackStatus,
    now_micros: int,
    pos_ticks: int,
    lu_ticks: int,
)
    requires
        status != PlaybackStatus::Playing,
    ensures
        spec_position_micros(status, now_micros, pos_ticks, lu_ticks) == spec_ticks_to_micros(
            pos_ticks,
        ),
        spec_position_secs(status, now_micros, pos_ticks, lu_ticks) == spec_ticks_to_secs(
            pos_ticks,
        ),
{
}

} // verus!
