use now_playing::engine::{
    apply_cycle, run_cycle, MediaSnapshot, SessionQuery, SessionSnapshot, TimelineSnapshot,
};
use now_playing::lifecycle::Controller;
use now_playing::slots::Slots;
use now_playing::status::PlaybackStatus;
use now_playing::timing::FILETIME_EPOCH_OFFSET_MICROS;

fn lu_ticks_for(unix_micros: i64) -> i64 {
    (unix_micros + FILETIME_EPOCH_OFFSET_MICROS) * 10
}

// A cycle in which every query succeeded, based on the playing-at-T scenario.
fn full_cycle_input(t: i64) -> SessionQuery {
    SessionQuery::Queried(SessionSnapshot {
        status_read: Some(PlaybackStatus::Playing),
        timeline: Some(TimelineSnapshot {
            position_ticks: 65_000_000,
            end_time_ticks: 1_250_000_000,
            last_updated_ticks: lu_ticks_for(t),
        }),
        media: Some(MediaSnapshot {
            title: String::from("Fly Me to the Moon"),
            artist: String::from("Frank Sinatra"),
        }),
    })
}

fn populated(t: i64) -> (Slots, Controller) {
    let mut slots = Slots::new();
    let mut ctrl = Controller::new();
    apply_cycle(&mut slots, &mut ctrl, &full_cycle_input(t), t + 2_000_000);
    (slots, ctrl)
}

#[test]
fn successful_cycle_publishes_everything() {
    let t: i64 = 1_000_000_000;
    let (slots, ctrl) = populated(t);
    assert_eq!(slots.artist_text(), "Frank Sinatra");
    assert_eq!(slots.title_text(), "Fly Me to the Moon");
    assert_eq!(slots.position_display_text(), "0:08");
    assert_eq!(slots.position_seconds_text(), "8");
    assert_eq!(slots.length_display_text(), "2:05");
    assert_eq!(slots.length_seconds_text(), "125");
    assert_eq!(slots.status_text(), "Playing");
    assert!(!ctrl.has_error);
}

#[test]
fn no_session_clears_display_slots() {
    // After a failed session query the artist, title, position and length
    // reads return the default empty string; seconds and status persist.
    let t: i64 = 1_000_000_000;
    let (mut slots, mut ctrl) = populated(t);
    apply_cycle(&mut slots, &mut ctrl, &SessionQuery::NoSession, t + 3_000_000);
    assert_eq!(slots.artist_text(), "");
    assert_eq!(slots.title_text(), "");
    assert_eq!(slots.position_display_text(), "");
    assert_eq!(slots.length_display_text(), "");
    assert_eq!(slots.position_seconds_text(), "8");
    assert_eq!(slots.length_seconds_text(), "125");
    assert_eq!(slots.status_text(), "Playing");
}

#[test]
fn playback_info_failure_preserves_slots_and_records_error() {
    let t: i64 = 1_000_000_000;
    let (mut slots, mut ctrl) = populated(t);
    apply_cycle(&mut slots, &mut ctrl, &SessionQuery::PlaybackInfoFailed, t + 3_000_000);
    assert_eq!(slots.status_text(), "Playing");
    assert_eq!(slots.position_display_text(), "0:08");
    assert_eq!(slots.position_seconds_text(), "8");
    assert_eq!(slots.length_display_text(), "2:05");
    assert_eq!(slots.length_seconds_text(), "125");
    assert_eq!(slots.artist_text(), "Frank Sinatra");
    assert_eq!(slots.title_text(), "Fly Me to the Moon");
    assert!(ctrl.has_error);
    assert_eq!(ctrl.error_src, "PI");
}

#[test]
fn timeline_failure_clears_position_and_length() {
    let t: i64 = 1_000_000_000;
    let (mut slots, mut ctrl) = populated(t);
    let input = SessionQuery::Queried(SessionSnapshot {
        status_read: Some(PlaybackStatus::Paused),
        timeline: None,
        media: Some(MediaSnapshot {
            title: String::from("Fly Me to the Moon"),
            artist: String::from("Frank Sinatra"),
        }),
    });
    apply_cycle(&mut slots, &mut ctrl, &input, t + 3_000_000);
    assert_eq!(slots.position_display_text(), "");
    assert_eq!(slots.position_seconds_text(), "0");
    assert_eq!(slots.length_display_text(), "");
    assert_eq!(slots.length_seconds_text(), "0");
    assert_eq!(slots.status_text(), "Paused");
    assert_eq!(slots.artist_text(), "Frank Sinatra");
}

#[test]
fn media_failure_clears_title_and_artist() {
    let t: i64 = 1_000_000_000;
    let (mut slots, mut ctrl) = populated(t);
    let input = SessionQuery::Queried(SessionSnapshot {
        status_read: Some(PlaybackStatus::Playing),
        timeline: Some(TimelineSnapshot {
            position_ticks: 65_000_000,
            end_time_ticks: 1_250_000_000,
            last_updated_ticks: lu_ticks_for(t),
        }),
        media: None,
    });
    apply_cycle(&mut slots, &mut ctrl, &input, t + 2_000_000);
    assert_eq!(slots.artist_text(), "");
    assert_eq!(slots.title_text(), "");
    assert_eq!(slots.position_display_text(), "0:08");
}

#[test]
fn unreadable_status_publishes_stopped() {
    let t: i64 = 1_000_000_000;
    let mut slots = Slots::new();
    let mut ctrl = Controller::new();
    let input = SessionQuery::Queried(SessionSnapshot {
        status_read: None,
        timeline: Some(TimelineSnapshot {
            position_ticks: 65_000_000,
            end_time_ticks: 1_250_000_000,
            last_updated_ticks: lu_ticks_for(t),
        }),
        media: None,
    });
    apply_cycle(&mut slots, &mut ctrl, &input, t + 2_000_000);
    assert_eq!(slots.status_text(), "Stopped");
    // An unreadable status also counts as not playing: no offset is added.
    assert_eq!(slots.position_seconds_text(), "6");
    assert_eq!(slots.position_display_text(), "0:06");
}

#[test]
fn empty_media_strings_publish_as_empty() {
    let t: i64 = 1_000_000_000;
    let mut slots = Slots::new();
    let mut ctrl = Controller::new();
    let input = SessionQuery::Queried(SessionSnapshot {
        status_read: Some(PlaybackStatus::Playing),
        timeline: None,
        media: Some(MediaSnapshot { title: String::new(), artist: String::new() }),
    });
    apply_cycle(&mut slots, &mut ctrl, &input, t);
    // Published as present-but-empty, which reads the same as the default.
    assert!(slots.title.is_some());
    assert!(slots.artist.is_some());
    assert_eq!(slots.title_text(), "");
    assert_eq!(slots.artist_text(), "");
}

#[test]
fn run_cycle_uses_wall_clock() {
    let mut slots = Slots::new();
    let mut ctrl = Controller::new();
    run_cycle(&mut slots, &mut ctrl, &SessionQuery::NoSession);
    assert_eq!(slots.artist_text(), "");
    assert_eq!(slots.status_text(), "0");
    assert!(!ctrl.has_error);
}
