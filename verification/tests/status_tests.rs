use now_playing::status::{format_playback_status, PlaybackStatus};

#[test]
fn status_changing() {
    assert_eq!(format_playback_status(PlaybackStatus::Changing), "Changing");
}

#[test]
fn status_closed() {
    assert_eq!(format_playback_status(PlaybackStatus::Closed), "Closed");
}

#[test]
fn status_opened() {
    assert_eq!(format_playback_status(PlaybackStatus::Opened), "Opened");
}

#[test]
fn status_paused() {
    assert_eq!(format_playback_status(PlaybackStatus::Paused), "Paused");
}

#[test]
fn status_playing() {
    assert_eq!(format_playback_status(PlaybackStatus::Playing), "Playing");
}

#[test]
fn status_stopped() {
    assert_eq!(format_playback_status(PlaybackStatus::Stopped), "Stopped");
}

#[test]
fn status_unmapped_is_unknown() {
    assert_eq!(format_playback_status(PlaybackStatus::Unknown), "Unknown");
}
