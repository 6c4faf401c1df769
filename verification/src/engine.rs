//! The polling engine's cycle logic.
//!
//! Once per cycle the worker queries the media-session source: the current
//! session, its playback info, its timeline properties, and its media
//! metadata, each independently fallible. This module decides, from those
//! outcomes alone, exactly which slots the cycle writes and with what values:
//!
//! * session query failed (no active session): clear the artist, title,
//!   position-display and length-display slots, and nothing else;
//! * playback-info query failed: record the error under the tag `PI` and
//!   touch no slot;
//! * otherwise publish the status text (`Stopped` when the status value
//!   itself could not be read); publish the reconciled position and the
//!   length, or clear all four of those slots when the timeline query failed;
//!   and publish the title and artist, or clear both when the metadata query
//!   failed.
//!
//! The unverified worker shell performs the queries and the waiting; it hands
//! the outcomes in as a [`SessionQuery`] value and applies the returned slot
//! actions, one slot at a time, under each slot's own lock.

use vstd::prelude::*;
use vstd::string::StringExecFns;
use crate::format::format_m_ss;
use crate::format::spec_m_ss;
use crate::lifecycle::Controller;
use crate::slots::Slots;
use crate::slots::SlotsView;
use crate::slots::opt_text;
use crate::status::PlaybackStatus;
use crate::status::format_playback_status;
use crate::status::spec_status_text;
use crate::timing::reconciled_position_secs;
use crate::timing::spec_position_secs;
use crate::timing::spec_ticks_to_secs;
use crate::timing::ticks_to_secs;

verus! {

/// The timeline properties of the current session, in the source's native
/// 100-nanosecond ticks: the raw playback position, the track end time, and
/// the platform timestamp at which the source last updated these fields.
#[derive(Clone, Copy, PartialEq, Eq, Structural, Debug)]
pub struct TimelineSnapshot {
    pub position_ticks: i64,
    pub end_time_ticks: i64,
    pub last_updated_ticks: i64,
}

impl TimelineSnapshot {
    /// Tick counts the source can report for a real timeline: non-negative.
    pub open spec fn wf(self) -> bool {
        0 <= self.position_ticks && 0 <= self.end_time_ticks && 0 <= self.last_updated_ticks
    }
}

/// The media metadata of the current session. Empty source strings arrive as
/// empty strings, never as a failure.
pub struct MediaSnapshot {
    pub title: String,
    pub artist: String,
}

/// What the session's three per-field queries returned, once a session and
/// its playback info were obtained.
pub struct SessionSnapshot {
    /// The playback status, or `None` when the status value itself could not
    /// be read from the playback info.
    pub status_read: Option<PlaybackStatus>,
    /// The timeline properties, or `None` when that query failed.
    pub timeline: Option<TimelineSnapshot>,
    /// The media metadata, or `None` when that query failed.
    pub media: Option<MediaSnapshot>,
}

/// The outcome of one cycle's queries against the media-session source.
pub enum SessionQuery {
    /// No active session exists.
    NoSession,
    /// A session exists but its playback-info query failed.
    PlaybackInfoFailed,
    /// A session and its playback info were obtained.
    Queried(SessionSnapshot),
}

impl SessionQuery {
    /// Well-formedness of a cycle's input: any timeline the source reported
    /// carries non-negative tick counts.
    pub open spec fn wf(self) -> bool {
        match self {
            SessionQuery::Queried(s) => match s.timeline {
                Some(t) => t.wf(),
                None => true,
            },
            _ => true,
        }
    }
}

/// What one cycle does to one slot: leave it alone, or replace its value.
pub enum SlotAction<T> {
    Keep,
    Write(Option<T>),
}

/// Everything one cycle does to the published state: one action per slot,
/// and the error tag to record, if any.
pub struct CycleOutput {
    pub artist: SlotAction<String>,
    pub title: SlotAction<String>,
    pub position_display: SlotAction<String>,
    pub length_display: SlotAction<String>,
    pub position_seconds: SlotAction<u64>,
    pub length_seconds: SlotAction<u64>,
    pub status: SlotAction<String>,
    pub error_tag: Option<String>,
}

/// A text slot after an action: kept or replaced whole.
pub open spec fn spec_act_text(a: SlotAction<String>, cur: Option<Seq<char>>) -> Option<Seq<char>> {
    match a {
        SlotAction::Keep => cur,
        SlotAction::Write(v) => opt_text(v),
    }
}

/// A seconds slot after an action: kept or replaced whole.
pub open spec fn spec_act_secs(a: SlotAction<u64>, cur: Option<u64>) -> Option<u64> {
    match a {
        SlotAction::Keep => cur,
        SlotAction::Write(v) => v,
    }
}

/// The published state after every slot action of one cycle.
pub open spec fn spec_apply_output(pre: SlotsView, out: CycleOutput) -> SlotsView {
    SlotsView {
        artist: spec_act_text(out.artist, pre.artist),
        title: spec_act_text(out.title, pre.title),
        position_display: spec_act_text(out.position_display, pre.position_display),
        length_display: spec_act_text(out.length_display, pre.length_display),
        position_seconds: spec_act_secs(out.position_seconds, pre.position_seconds),
        length_seconds: spec_act_secs(out.length_seconds, pre.length_seconds),
        status: spec_act_text(out.status, pre.status),
    }
}

/// The status used for position reconciliation: what the source reported, or
/// `Stopped` when the status value could not be read.
pub open spec fn spec_effective_status(r: Option<PlaybackStatus>) -> PlaybackStatus {
    match r {
        Some(ps) => ps,
        None => PlaybackStatus::Stopped,
    }
}

/// The published state after one whole cycle with query outcome `input`,
/// read at `now_micros` microseconds since the Unix epoch.
pub open spec fn spec_cycle(pre: SlotsView, input: SessionQuery, now_micros: int) -> SlotsView {
    match input {
        SessionQuery::NoSession => SlotsView {
            artist: None,
            title: None,
            position_display: None,
            length_display: None,
            ..pre
        },
        SessionQuery::PlaybackInfoFailed => pre,
        SessionQuery::Queried(s) => {
            let status_text = match s.status_read {
                Some(ps) => spec_status_text(ps),
                None => spec_status_text(PlaybackStatus::Stopped),
            };
            let with_status = SlotsView { status: Some(status_text), ..pre };
            let with_timeline = match s.timeline {
                Some(t) => {
                    let psecs = spec_position_secs(
                        spec_effective_status(s.status_read),
                        now_micros,
                        t.position_ticks as int,
                        t.last_updated_ticks as int,
                    );
                    let lsecs = spec_ticks_to_secs(t.end_time_ticks as int);
                    SlotsView {
                        position_display: Some(spec_m_ss(psecs as nat)),
                        position_seconds: Some(psecs as u64),
                        length_display: Some(spec_m_ss(lsecs as nat)),
                        length_seconds: Some(lsecs as u64),
                        ..with_status
                    }
                },
                None => SlotsView {
                    position_display: None,
                    position_seconds: None,
                    length_display: None,
                    length_seconds: None,
                    ..with_status
                },
            };
            match s.media {
                Some(m) => SlotsView { title: Some(m.title@), artist: Some(m.artist@), ..with_timeline },
                None => SlotsView { title: None, artist: None, ..with_timeline },
            }
        },
    }
}

/// Decides one cycle: from the query outcomes and the current time, the
/// action for every slot and the error tag to record. Applying the returned
/// actions to any published state yields exactly the state `spec_cycle`
/// describes.
pub fn compute_cycle(input: &SessionQuery, now_micros: i64) -> (out: CycleOutput)
    requires
        input.wf(),
        0 <= now_micros,
    ensures
        forall|pre: SlotsView|
            spec_apply_output(pre, out) == spec_cycle(pre, *input, now_micros as int),
        match *input {
            SessionQuery::PlaybackInfoFailed => out.error_tag matches Some(t) && t@ == "PI"@,
            _ => out.error_tag is None,
        },
{
    match input {
        SessionQuery::NoSession => CycleOutput {
            artist: SlotAction::Write(None),
            title: SlotAction::Write(None),
            position_display: SlotAction::Write(None),
            length_display: SlotAction::Write(None),
            position_seconds: SlotAction::Keep,
            length_seconds: SlotAction::Keep,
            status: SlotAction::Keep,
            error_tag: None,
        },
        SessionQuery::PlaybackInfoFailed => CycleOutput {
            artist: SlotAction::Keep,
            title: SlotAction::Keep,
            position_display: SlotAction::Keep,
            length_display: SlotAction::Keep,
            position_seconds: SlotAction::Keep,
            length_seconds: SlotAction::Keep,
            status: SlotAction::Keep,
            error_tag: Some(String::from_str("PI")),
        },
        SessionQuery::Queried(s) => {
            let status_txt: String = match s.status_read {
                Some(ps) => format_playback_status(ps).to_owned(),
                None => format_playback_status(PlaybackStatus::Stopped).to_owned(),
            };
            let effective: PlaybackStatus = match s.status_read {
                Some(ps) => ps,
                None => PlaybackStatus::Stopped,
            };
            let (position_display, position_seconds, length_display, length_seconds) = match &s
                .timeline {
                Some(t) => {
                    let psecs = reconciled_position_secs(
                        effective,
                        now_micros,
                        t.position_ticks,
                        t.last_updated_ticks,
                    );
                    let lsecs = ticks_to_secs(t.end_time_ticks);
                    (
                        SlotAction::Write(Some(format_m_ss(psecs))),
                        SlotAction::Write(Some(psecs)),
                        SlotAction::Write(Some(format_m_ss(lsecs))),
                        SlotAction::Write(Some(lsecs)),
                    )
                },
                None => (
                    SlotAction::Write(None),
                    SlotAction::Write(None),
                    SlotAction::Write(None),
                    SlotAction::Write(None),
                ),
            };
            let (title, artist) = match &s.media {
                Some(m) => (
                    SlotAction::Write(Some(m.title.clone())),
                    SlotAction::Write(Some(m.artist.clone())),
                ),
                None => (SlotAction::Write(None), SlotAction::Write(None)),
            };
            CycleOutput {
                artist,
                title,
                position_display,
                length_display,
                position_seconds,
                length_seconds,
                status: SlotAction::Write(Some(status_txt)),
                error_tag: None,
            }
        },
    }
}

/// Applies one cycle's slot actions to the published state, one slot at a
/// time.
pub fn apply_output(slots: &mut Slots, out: &CycleOutput)
    ensures
        final(slots)@ == spec_apply_output(old(slots)@, *out),
{
    match &out.artist {
        SlotAction::Keep => {},
        SlotAction::Write(v) => match v {
            Some(s) => slots.set_artist(Some(s.clone())),
            None => slots.set_artist(None),
        },
    }
    match &out.title {
        SlotAction::Keep => {},
        SlotAction::Write(v) => match v {
            Some(s) => slots.set_title(Some(s.clone())),
            None => slots.set_title(None),
        },
    }
    match &out.position_display {
        SlotAction::Keep => {},
        SlotAction::Write(v) => match v {
            Some(s) => slots.set_position_display(Some(s.clone())),
            None => slots.set_position_display(None),
        },
    }
    match &out.length_display {
        SlotAction::Keep => {},
        SlotAction::Write(v) => match v {
            Some(s) => slots.set_length_display(Some(s.clone())),
            None => slots.set_length_display(None),
        },
    }
    match &out.position_seconds {
        SlotAction::Keep => {},
        SlotAction::Write(v) => slots.set_position_seconds(*v),
    }
    match &out.length_seconds {
        SlotAction::Keep => {},
        SlotAction::Write(v) => slots.set_length_seconds(*v),
    }
    match &out.status {
        SlotAction::Keep => {},
        SlotAction::Write(v) => match v {
            Some(s) => slots.set_status(Some(s.clone())),
            None => slots.set_status(None),
        },
    }
}

/// Runs one whole cycle on the published state: decides the slot actions
/// from the query outcomes at the given time, records a failed playback-info
/// query in the controller under the tag `PI`, and applies the actions.
pub fn apply_cycle(slots: &mut Slots, ctrl: &mut Controller, input: &SessionQuery, now_micros: i64)
    requires
        input.wf(),
        0 <= now_micros,
    ensures
        final(slots)@ == spec_cycle(old(slots)@, *input, now_micros as int),
        final(ctrl)@.running == old(ctrl)@.running,
        final(ctrl)@.stop == old(ctrl)@.stop,
        match *input {
            SessionQuery::PlaybackInfoFailed => final(ctrl)@.has_error && final(ctrl)@.error_src
                == "PI"@,
            _ => final(ctrl)@ == old(ctrl)@,
        },
{
    let out = compute_cycle(input, now_micros);
    match &out.error_tag {
        Some(tag) => ctrl.record_error(tag.clone()),
        None => {},
    }
    apply_output(slots, &out);
}

/// Relies on chrono's `Utc::now` and `DateTime::timestamp_micros`: the
/// current time as microseconds since the Unix epoch. `Utc::now` panics
/// rather than return a time before the Unix epoch, so the result is never
/// negative.
#[verifier::external_body]
fn now_unix_micros() -> (r: i64)
    ensures
        0 <= r,
{
    chrono::Utc::now().timestamp_micros()
}

/// Runs one whole cycle at the current wall-clock time. The published state
/// afterwards is the cycle's outcome for some non-negative read of the
/// clock; every clause that does not depend on the clock — which slots are
/// written or cleared, the status text, the length, the error record — holds
/// whatever time was read.
pub fn run_cycle(slots: &mut Slots, ctrl: &mut Controller, input: &SessionQuery)
    requires
        input.wf(),
    ensures
        exists|now: int|
            0 <= now && final(slots)@ == spec_cycle(old(slots)@, *input, now),
        final(ctrl)@.running == old(ctrl)@.running,
        final(ctrl)@.stop == old(ctrl)@.stop,
        match *input {
            SessionQuery::PlaybackInfoFailed => final(ctrl)@.has_error && final(ctrl)@.error_src
                == "PI"@,
            _ => final(ctrl)@ == old(ctrl)@,
        },
{
    let now = now_unix_micros();
    apply_cycle(slots, ctrl, input, now);
}

/// A cycle that found no active session clears the artist, title, position
/// and length display slots — their queries then return the default empty
/// text — and leaves the seconds and status slots exactly as they were,
/// until a later successful cycle rewrites them.
pub proof fn lemma_no_session_clears_display(pre: SlotsView, now_micros: int)
    ensures
        ({
            let post = spec_cycle(pre, SessionQuery::NoSession, now_micros);
            &&& crate::slots::text_or_empty(post.artist) == Seq::<char>::empty()
            &&& crate::slots::text_or_empty(post.title) == Seq::<char>::empty()
            &&& crate::slots::text_or_empty(post.position_display) == Seq::<char>::empty()
            &&& crate::slots::text_or_empty(post.length_display) == Seq::<char>::empty()
            &&& post.position_seconds == pre.position_seconds
            &&& post.length_seconds == pre.length_seconds
            &&& post.status == pre.status
        }),
{
}

/// A cycle whose playback-info query failed touches no slot at all: the
/// status, position and length values published by earlier cycles persist
/// unchanged through that cycle.
pub proof fn lemma_playback_info_failure_preserves_slots(pre: SlotsView, now_micros: int)
    ensures
        spec_cycle(pre, SessionQuery::PlaybackInfoFailed, now_micros) == pre,
{
}

} // verus!
