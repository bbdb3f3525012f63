use mpdnd::config::{control_address, supported_method, Config, CoverArtMethod};
use mpdnd::cover::{
    native_icon, pick_local, plan_cover, temp_cover_name, ArtFetch, CoverPlan,
};
use mpdnd::driver::Notice;
use mpdnd::engine::{NotificationKind, SongId};
use mpdnd::format::Song;
use mpdnd::notice::{category, icon_for, plain_draft, song_draft, summary_for};
use mpdnd::supervisor::{IoKind, ParseKind, PlayerError};

#[test]
fn default_config() {
    let c = Config::default();
    assert_eq!(c.cover_art_method, CoverArtMethod::LocalHack);
    assert_eq!(c.music_directory, None);
    assert_eq!(c.notification_timeout, None);
    assert_eq!(c.max_connection_retries, 5);
    assert_eq!(c.format, "%Artist - %Title");
}

#[test]
fn address_uses_defaults() {
    assert_eq!(control_address(None, None), "127.0.0.1:6600");
    assert_eq!(control_address(Some("box"), None), "box:6600");
    assert_eq!(control_address(None, Some("7700")), "127.0.0.1:7700");
    assert_eq!(control_address(Some("box"), Some("7700")), "box:7700");
}

#[test]
fn native_method_falls_back_without_support() {
    assert_eq!(supported_method(CoverArtMethod::Native, false), CoverArtMethod::LocalHack);
    assert_eq!(supported_method(CoverArtMethod::Native, true), CoverArtMethod::Native);
    for supported in [false, true] {
        assert_eq!(supported_method(CoverArtMethod::Disabled, supported), CoverArtMethod::Disabled);
        assert_eq!(
            supported_method(CoverArtMethod::LocalHack, supported),
            CoverArtMethod::LocalHack
        );
    }
}

#[test]
fn category_is_mpd() {
    assert_eq!(category(), "MPD");
}

#[test]
fn headlines_and_icons() {
    let rows = [
        (Notice::Playback(NotificationKind::Stopped), "MPD Stopped", "media-playback-stop"),
        (Notice::Playback(NotificationKind::NowPlaying), "Now Playing", "media-playback-start"),
        (Notice::Playback(NotificationKind::PlayingAgain), "Playing Again", "media-skip-backward"),
        (Notice::Disconnected, "MPD Disconnected", "network-wired-disconnected"),
        (Notice::Reconnected, "MPD Reconnected", "network-wired"),
    ];
    for (notice, summary, icon) in rows {
        assert_eq!(summary_for(notice), summary);
        assert_eq!(icon_for(notice), icon);
    }
}

#[test]
fn stopped_draft_has_the_configured_timeout() {
    let d = plain_draft(Notice::Playback(NotificationKind::Stopped), Some(1500));
    assert_eq!(d.summary, "MPD Stopped");
    assert_eq!(d.body, None);
    assert_eq!(d.icon.as_deref(), Some("media-playback-stop"));
    assert_eq!(d.timeout_ms, Some(1500));
}

#[test]
fn connection_drafts_have_no_timeout() {
    let d = plain_draft(Notice::Disconnected, Some(1500));
    assert_eq!(d.summary, "MPD Disconnected");
    assert_eq!(d.icon.as_deref(), Some("network-wired-disconnected"));
    assert_eq!(d.timeout_ms, None);
    let d = plain_draft(Notice::Reconnected, Some(1500));
    assert_eq!(d.summary, "MPD Reconnected");
    assert_eq!(d.icon.as_deref(), Some("network-wired"));
    assert_eq!(d.timeout_ms, None);
}

#[test]
fn song_draft_has_body_and_cover() {
    let mut config = Config::default();
    config.notification_timeout = Some(700);
    let song = Song {
        id: SongId(3),
        file_path: String::from("x/y.mp3"),
        title: Some(String::from("Tune")),
        tags: vec![(String::from("Artist"), String::from("Singer"))],
    };
    let d = song_draft(NotificationKind::NowPlaying, &config, &song, None);
    assert_eq!(d.summary, "Now Playing");
    assert_eq!(d.body.as_deref(), Some("Singer - Tune"));
    assert_eq!(d.icon.as_deref(), Some("media-playback-start"));
    assert_eq!(d.timeout_ms, Some(700));
    let d = song_draft(
        NotificationKind::PlayingAgain,
        &config,
        &song,
        Some(String::from("/m/x/cover.jpg")),
    );
    assert_eq!(d.summary, "Playing Again");
    assert_eq!(d.icon.as_deref(), Some("/m/x/cover.jpg"));
}

#[test]
fn no_cover_plan_when_disabled_or_without_directory() {
    assert!(matches!(plan_cover(CoverArtMethod::Disabled, Some("/m"), "a/b.mp3"), CoverPlan::NoIcon));
    assert!(matches!(plan_cover(CoverArtMethod::LocalHack, None, "a/b.mp3"), CoverPlan::NoIcon));
    assert!(matches!(plan_cover(CoverArtMethod::Native, None, "a/b.mp3"), CoverPlan::Native));
}

#[test]
fn local_plan_names_both_candidates() {
    match plan_cover(CoverArtMethod::LocalHack, Some("/music"), "Band/LP/CD1/01.flac") {
        CoverPlan::Local { beside, above } => {
            assert_eq!(beside, "/music/Band/LP/CD1/cover.jpg");
            assert_eq!(above.as_deref(), Some("/music/Band/LP/cover.jpg"));
        }
        _ => panic!("a local plan was expected"),
    }
}

#[test]
fn local_plan_without_upper_directory() {
    match plan_cover(CoverArtMethod::LocalHack, Some(""), "01.flac") {
        CoverPlan::Local { beside, above } => {
            assert_eq!(beside, "cover.jpg");
            assert_eq!(above, None);
        }
        _ => panic!("a local plan was expected"),
    }
}

#[test]
fn local_pick_prefers_the_file_beside() {
    let b = || String::from("b");
    let a = || Some(String::from("a"));
    assert_eq!(pick_local(b(), true, a(), true).as_deref(), Some("b"));
    assert_eq!(pick_local(b(), true, None, false).as_deref(), Some("b"));
    assert_eq!(pick_local(b(), false, a(), true).as_deref(), Some("a"));
    assert_eq!(pick_local(b(), false, a(), false), None);
    assert_eq!(pick_local(b(), false, None, true), None);
}

#[test]
fn temp_cover_has_a_fixed_name() {
    assert_eq!(temp_cover_name(), "mpdnd-cover");
}

#[test]
fn native_icon_by_outcome() {
    let p = || String::from("/tmp/mpdnd-cover");
    assert_eq!(native_icon(ArtFetch::Saved, p()), (Some(p()), false));
    assert_eq!(native_icon(ArtFetch::Unwritable, p()), (None, true));
    let missing = PlayerError::Parse(ParseKind::BadPair);
    assert_eq!(native_icon(ArtFetch::Failed(missing), p()), (None, false));
    for error in [
        PlayerError::Parse(ParseKind::Other),
        PlayerError::Other,
        PlayerError::Io(IoKind::BrokenPipe),
        PlayerError::Io(IoKind::Other),
    ] {
        assert_eq!(native_icon(ArtFetch::Failed(error), p()), (None, true));
    }
}
