use window::media::{
    finished_percentage, get_music_info, playback_info_summary, playback_status_string,
    PlaybackStatus, PlaybackType,
};

#[test]
fn percentage_of_half_is_fifty() {
    assert_eq!(finished_percentage(50, 100), 50);
}

#[test]
fn percentage_rounds_half_up() {
    assert_eq!(finished_percentage(1, 200), 1);
    assert_eq!(finished_percentage(1, 201), 0);
    assert_eq!(finished_percentage(1, 3), 33);
    assert_eq!(finished_percentage(2, 3), 67);
}

#[test]
fn percentage_at_bounds() {
    assert_eq!(finished_percentage(0, 100), 0);
    assert_eq!(finished_percentage(100, 100), 100);
    assert_eq!(finished_percentage(i64::MAX, i64::MAX), 100);
}

#[test]
fn percentage_of_degenerate_ranges() {
    assert_eq!(finished_percentage(0, 0), 0);
    assert_eq!(finished_percentage(1, 0), 255);
    assert_eq!(finished_percentage(-3, 100), 0);
    assert_eq!(finished_percentage(5, -1), 255);
    assert_eq!(finished_percentage(-5, -1), 0);
}

#[test]
fn percentage_saturates_past_the_end() {
    assert_eq!(finished_percentage(150, 100), 150);
    assert_eq!(finished_percentage(300, 100), 255);
}

#[test]
fn status_names_are_uppercase() {
    assert_eq!(playback_status_string(PlaybackStatus::Closed), "CLOSED");
    assert_eq!(playback_status_string(PlaybackStatus::Opened), "OPENED");
    assert_eq!(playback_status_string(PlaybackStatus::Changing), "CHANGING");
    assert_eq!(playback_status_string(PlaybackStatus::Stopped), "STOPPED");
    assert_eq!(playback_status_string(PlaybackStatus::Playing), "PLAYING");
    assert_eq!(playback_status_string(PlaybackStatus::Paused), "PAUSED");
}

#[test]
fn music_info_assembles_all_fields() {
    let info = get_music_info(
        "Title".to_string(),
        "Artist".to_string(),
        "Album".to_string(),
        30,
        120,
        PlaybackStatus::Playing,
    );
    assert_eq!(info.title, "Title");
    assert_eq!(info.artist, "Artist");
    assert_eq!(info.album_title, "Album");
    assert_eq!(info.finished_percentage, 25);
    assert_eq!(info.status, "PLAYING");
}

#[test]
fn playback_summary_defaults_unreadable_fields() {
    let s = playback_info_summary(None, None, None);
    assert!(!s.shuffle_active);
    assert_eq!(s.status, "UNDEFINED");
    assert_eq!(s.playback_type, PlaybackType::Unknown);
}

#[test]
fn playback_summary_keeps_readable_fields() {
    let s = playback_info_summary(
        Some(true),
        Some(PlaybackStatus::Paused),
        Some(PlaybackType::Music),
    );
    assert!(s.shuffle_active);
    assert_eq!(s.status, "PAUSED");
    assert_eq!(s.playback_type, PlaybackType::Music);
}
