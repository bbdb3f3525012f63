//! The content of a notification, built afresh for every decision.

use vstd::prelude::*;
use vstd::string::*;
use crate::config::Config;
use crate::driver::Notice;
use crate::engine::NotificationKind;
use crate::format::{format_body, Song};
use crate::text::owned_text;

verus! {

/// What is handed to the display transport.
#[derive(Clone, Debug)]
pub struct NotificationDraft {
    pub summary: String,
    pub body: Option<String>,
    /// Path of an image, or the name of a themed icon.
    pub icon: Option<String>,
    /// Milliseconds for which the notification stays; `None` for the
    /// desktop's default.
    pub timeout_ms: Option<u32>,
}

/// A draft as plain texts.
pub struct DraftText {
    pub summary: Seq<char>,
    pub body: Option<Seq<char>>,
    pub icon: Option<Seq<char>>,
    pub timeout_ms: Option<u32>,
}

impl View for NotificationDraft {
    type V = DraftText;

    open spec fn view(&self) -> DraftText {
        DraftText {
            summary: self.summary@,
            body: owned_text(self.body),
            icon: owned_text(self.icon),
            timeout_ms: self.timeout_ms,
        }
    }
}

/// The headline of a notice.
pub open spec fn summary_text(notice: Notice) -> Seq<char> {
    match notice {
        Notice::Playback(NotificationKind::Stopped) => "MPD Stopped"@,
        Notice::Playback(NotificationKind::NowPlaying) => "Now Playing"@,
        Notice::Playback(NotificationKind::PlayingAgain) => "Playing Again"@,
        Notice::Disconnected => "MPD Disconnected"@,
        Notice::Reconnected => "MPD Reconnected"@,
    }
}

/// The themed icon of a notice.
pub open spec fn icon_name(notice: Notice) -> Seq<char> {
    match notice {
        Notice::Playback(NotificationKind::Stopped) => "media-playback-stop"@,
        Notice::Playback(NotificationKind::NowPlaying) => "media-playback-start"@,
        Notice::Playback(NotificationKind::PlayingAgain) => "media-skip-backward"@,
        Notice::Disconnected => "network-wired-disconnected"@,
        Notice::Reconnected => "network-wired"@,
    }
}

/// The configured timeout holds for notices about playback; the two notices
/// about the connection stay for the desktop's default time.
pub open spec fn timeout_for(notice: Notice, configured: Option<u32>) -> Option<u32> {
    match notice {
        Notice::Playback(_) => configured,
        _ => None,
    }
}

/// The category under which every notification is filed.
pub fn category() -> (name: String)
    ensures
        name@ == "MPD"@,
{
    String::from_str("MPD")
}

/// The headline of `notice`.
pub fn summary_for(notice: Notice) -> (summary: String)
    ensures
        summary@ == summary_text(notice),
{
    match notice {
        Notice::Playback(NotificationKind::Stopped) => String::from_str("MPD Stopped"),
        Notice::Playback(NotificationKind::NowPlaying) => String::from_str("Now Playing"),
        Notice::Playback(NotificationKind::PlayingAgain) => String::from_str("Playing Again"),
        Notice::Disconnected => String::from_str("MPD Disconnected"),
        Notice::Reconnected => String::from_str("MPD Reconnected"),
    }
}

/// The themed icon of `notice`.
pub fn icon_for(notice: Notice) -> (icon: String)
    ensures
        icon@ == icon_name(notice),
{
    match notice {
        Notice::Playback(NotificationKind::Stopped) => String::from_str("media-playback-stop"),
        Notice::Playback(NotificationKind::NowPlaying) => String::from_str("media-playback-start"),
        Notice::Playback(NotificationKind::PlayingAgain) => String::from_str(
            "media-skip-backward",
        ),
        Notice::Disconnected => String::from_str("network-wired-disconnected"),
        Notice::Reconnected => String::from_str("network-wired"),
    }
}

/// The draft of a notice that names no song: headline and themed icon only.
pub fn plain_draft(notice: Notice, configured_timeout: Option<u32>) -> (draft: NotificationDraft)
    ensures
        draft@ == (DraftText {
            summary: summary_text(notice),
            body: None,
            icon: Some(icon_name(notice)),
            timeout_ms: timeout_for(notice, configured_timeout),
        }),
{
    let timeout_ms = match notice {
        Notice::Playback(_) => configured_timeout,
        _ => None,
    };
    NotificationDraft {
        summary: summary_for(notice),
        body: None,
        icon: Some(icon_for(notice)),
        timeout_ms,
    }
}

/// The draft that announces `song`: the body is the configured template
/// filled in, and the cover, where one was found, takes the place of the
/// themed icon.
pub fn song_draft(kind: NotificationKind, config: &Config, song: &Song, cover: Option<String>) -> (draft:
    NotificationDraft)
    ensures
        draft@ == (DraftText {
            summary: summary_text(Notice::Playback(kind)),
            body: Some(song.body_text(config.format@)),
            icon: Some(
                match cover {
                    Some(path) => path@,
                    None => icon_name(Notice::Playback(kind)),
                },
            ),
            timeout_ms: config.notification_timeout,
        }),
{
    let notice = Notice::Playback(kind);
    let icon = match cover {
        Some(path) => path,
        None => icon_for(notice),
    };
    NotificationDraft {
        summary: summary_for(notice),
        body: Some(format_body(config.format.as_str(), song)),
        icon: Some(icon),
        timeout_ms: config.notification_timeout,
    }
}

} // verus!
