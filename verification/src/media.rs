//! Media-session types and the pure parts of the reporting step: playback
//! status names, the now-playing summary, and the defaulting rules applied
//! to partially readable playback information.

use vstd::prelude::*;

/// The media-session watcher and its subscription bookkeeping.
pub mod manager;
/// In-memory model of the platform media-session service.
pub mod platform;

pub use manager::{Manager, ManagerMessage, Report, SessionBinding};

verus! {

/// The ways a media call can fail.
#[derive(Debug, Clone, Copy, PartialEq, Eq)]
pub enum MediaError {
    /// The platform reports no current media session.
    NoActiveSession,
    /// The peer end of a channel is gone, so no further instruction can
    /// arrive: fatal to the loop that was receiving.
    ChannelClosed,
}

/// Playback status of a session, as the platform reports it.
#[derive(Debug, Clone, Copy, PartialEq, Eq)]
pub enum PlaybackStatus {
    Closed,
    Opened,
    Changing,
    Stopped,
    Playing,
    Paused,
}

/// What kind of media a session is playing.
#[derive(Debug, Clone, Copy, PartialEq, Eq)]
pub enum PlaybackType {
    Unknown,
    Music,
    Video,
    Image,
}

/// The uppercase name of a playback status.
pub open spec fn spec_status_chars(status: PlaybackStatus) -> Seq<char> {
    match status {
        PlaybackStatus::Closed => "CLOSED"@,
        PlaybackStatus::Opened => "OPENED"@,
        PlaybackStatus::Changing => "CHANGING"@,
        PlaybackStatus::Stopped => "STOPPED"@,
        PlaybackStatus::Playing => "PLAYING"@,
        PlaybackStatus::Paused => "PAUSED"@,
    }
}

/// Renders a playback status as its uppercase name.
pub fn playback_status_string(status: PlaybackStatus) -> (s: String)
    ensures
        s@ == spec_status_chars(status),
{
    match status {
        PlaybackStatus::Closed => String::from_str("CLOSED"),
        PlaybackStatus::Opened => String::from_str("OPENED"),
        PlaybackStatus::Changing => String::from_str("CHANGING"),
        PlaybackStatus::Stopped => String::from_str("STOPPED"),
        PlaybackStatus::Playing => String::from_str("PLAYING"),
        PlaybackStatus::Paused => String::from_str("PAUSED"),
    }
}

/// How far playback has come, as a whole percentage of the seekable range,
/// rounded half up and clamped into a byte: a position at or before the
/// start is 0; an empty or backwards range with any progress saturates at
/// 255, as does a position absurdly far past the end.
pub open spec fn spec_percent(position: int, max_seek: int) -> int {
    if max_seek <= 0 {
        if position > 0 {
            255
        } else {
            0
        }
    } else if position <= 0 {
        0
    } else {
        let rounded = (200 * position + max_seek) / (2 * max_seek);
        if rounded > 255 {
            255
        } else {
            rounded
        }
    }
}

/// Computes [`spec_percent`] from the raw timeline readings.
pub fn finished_percentage(position: i64, max_seek_time: i64) -> (pct: u8)
    ensures
        pct == spec_percent(position as int, max_seek_time as int),
{
    if max_seek_time <= 0 {
        if position > 0 {
            255
        } else {
            0
        }
    } else if position <= 0 {
        0
    } else {
        let num: u128 = 200u128 * (position as u128) + (max_seek_time as u128);
        let den: u128 = 2u128 * (max_seek_time as u128);
        let q: u128 = num / den;
        if q > 255 {
            255
        } else {
            q as u8
        }
    }
}

/// A snapshot of what is currently playing, assembled from the raw
/// readings of the reporting step.
#[derive(Debug)]
pub struct MusicInfo {
    pub title: String,
    pub artist: String,
    pub album_title: String,
    /// Whole percentage of the seekable range already played.
    pub finished_percentage: u8,
    /// Uppercase name of the playback status.
    pub status: String,
}

/// Assembles the now-playing snapshot: the three text fields are taken
/// as-is, the percentage comes from the timeline readings, and the status
/// is rendered as its uppercase name.
pub fn get_music_info(
    title: String,
    artist: String,
    album_title: String,
    position: i64,
    max_seek_time: i64,
    status: PlaybackStatus,
) -> (info: MusicInfo)
    ensures
        info.title == title,
        info.artist == artist,
        info.album_title == album_title,
        info.finished_percentage == spec_percent(position as int, max_seek_time as int),
        info.status@ == spec_status_chars(status),
{
    let finished_percentage = finished_percentage(position, max_seek_time);
    let status = playback_status_string(status);
    MusicInfo { title, artist, album_title, finished_percentage, status }
}

/// The playback information the reporting step shows, after the
/// defaulting rules below.
#[derive(Debug)]
pub struct PlaybackSummary {
    pub shuffle_active: bool,
    /// Uppercase status name, or `UNDEFINED` when the status could not be
    /// read.
    pub status: String,
    pub playback_type: PlaybackType,
}

/// Applies the defaulting rules for playback information whose individual
/// readings may each fail: an unreadable shuffle flag counts as off, an
/// unreadable status reads `UNDEFINED`, an unreadable media kind is
/// `Unknown`.
pub fn playback_info_summary(
    shuffle_active: Option<bool>,
    status: Option<PlaybackStatus>,
    playback_type: Option<PlaybackType>,
) -> (s: PlaybackSummary)
    ensures
        s.shuffle_active == (match shuffle_active {
            Some(b) => b,
            None => false,
        }),
        s.status@ == (match status {
            Some(st) => spec_status_chars(st),
            None => "UNDEFINED"@,
        }),
        s.playback_type == (match playback_type {
            Some(t) => t,
            None => PlaybackType::Unknown,
        }),
{
    let shuffle = match shuffle_active {
        Some(b) => b,
        None => false,
    };
    let status_string = match status {
        Some(st) => playback_status_string(st),
        None => String::from_str("UNDEFINED"),
    };
    let kind = match playback_type {
        Some(t) => t,
        None => PlaybackType::Unknown,
    };
    PlaybackSummary { shuffle_active: shuffle, status: status_string, playback_type: kind }
}

} // verus!
