use mpdnd::config::{Config, CoverArtMethod};
use mpdnd::daemon_conf::{
    char_is_space, conf_path_below_home, detect_music_directory, directory_in_line,
    find_music_directory,
};

fn lines(text: &[&str]) -> Vec<String> {
    text.iter().map(|l| String::from(*l)).collect()
}

#[test]
fn settings_file_is_below_dot_config() {
    assert_eq!(conf_path_below_home(), ".config/mpd/mpd.conf");
}

#[test]
fn quoted_directory_is_read() {
    assert_eq!(
        directory_in_line("music_directory \"/srv/music\"", None).as_deref(),
        Some("/srv/music")
    );
}

#[test]
fn tabs_and_runs_of_spaces_separate_words() {
    assert_eq!(
        directory_in_line("music_directory\t \t\"/srv/music\"   # mine", None).as_deref(),
        Some("/srv/music")
    );
    assert_eq!(
        directory_in_line("  music_directory\u{3000}/a", None).as_deref(),
        Some("/a")
    );
}

#[test]
fn white_space_is_what_std_calls_white_space() {
    let mut count = 0;
    for code in 0..=0x10ffffu32 {
        if let Some(c) = char::from_u32(code) {
            assert_eq!(char_is_space(c), c.is_whitespace(), "U+{:04X}", code);
            if char_is_space(c) {
                count += 1;
            }
        }
    }
    assert_eq!(count, 25);
}

#[test]
fn every_kind_of_white_space_separates_words() {
    let spaces = [
        '\u{9}', '\u{a}', '\u{b}', '\u{c}', '\u{d}', ' ', '\u{85}', '\u{a0}', '\u{1680}',
        '\u{2000}', '\u{2001}', '\u{2002}', '\u{2003}', '\u{2004}', '\u{2005}', '\u{2006}',
        '\u{2007}', '\u{2008}', '\u{2009}', '\u{200a}', '\u{2028}', '\u{2029}', '\u{202f}',
        '\u{205f}', '\u{3000}',
    ];
    for space in spaces {
        let line = format!("music_directory{}/x", space);
        assert_eq!(directory_in_line(&line, None).as_deref(), Some("/x"));
    }
}

#[test]
fn what_is_no_white_space_separates_nothing() {
    for other in ['\u{8}', '\u{e}', '\u{1f}', '\u{180e}', '\u{200b}', '\u{2060}', '\u{feff}', '_'] {
        let line = format!("music_directory{}/x", other);
        assert_eq!(directory_in_line(&line, None), None);
    }
}

#[test]
fn tilde_is_expanded_once() {
    assert_eq!(
        directory_in_line("music_directory \"~/Music/~old\"", Some("/home/me")).as_deref(),
        Some("/home/me/Music/~old")
    );
}

#[test]
fn tilde_without_home_gives_nothing() {
    assert_eq!(directory_in_line("music_directory ~/Music", None), None);
}

#[test]
fn tilde_inside_is_left_alone() {
    assert_eq!(
        directory_in_line("music_directory /a/~b", Some("/home/me")).as_deref(),
        Some("/a/~b")
    );
}

#[test]
fn line_without_value_gives_nothing() {
    assert_eq!(directory_in_line("music_directory", None), None);
    assert_eq!(directory_in_line("music_directory   ", None), None);
    assert_eq!(directory_in_line("", None), None);
}

#[test]
fn value_of_quotes_only_is_empty() {
    assert_eq!(directory_in_line("music_directory \"\"", None).as_deref(), Some(""));
}

#[test]
fn every_quote_is_dropped() {
    assert_eq!(directory_in_line("music_directory \"/a\"b\"", None).as_deref(), Some("/ab"));
}

#[test]
fn first_matching_line_counts() {
    let conf = lines(&[
        "# settings",
        "bind_to_address \"any\"",
        "music_directory \"/first\"",
        "music_directory \"/second\"",
    ]);
    assert_eq!(detect_music_directory(&conf, None).as_deref(), Some("/first"));
}

#[test]
fn first_matching_line_counts_even_when_it_names_nothing() {
    let conf = lines(&["music_directory", "music_directory \"/second\""]);
    assert_eq!(detect_music_directory(&conf, None), None);
}

#[test]
fn indented_or_commented_setting_is_not_seen() {
    let conf = lines(&["  music_directory \"/a\"", "#music_directory \"/b\""]);
    assert_eq!(detect_music_directory(&conf, None), None);
    assert_eq!(detect_music_directory(&lines(&[]), Some("/home/me")), None);
}

#[test]
fn longer_setting_name_is_taken_too() {
    let conf = lines(&["music_directory_old /x"]);
    assert_eq!(detect_music_directory(&conf, None).as_deref(), Some("/x"));
}

#[test]
fn directory_without_tilde_needs_no_home() {
    let conf = lines(&["user \"mpd\"", "music_directory \"/srv/music\""]);
    assert_eq!(find_music_directory(&conf).as_deref(), Some("/srv/music"));
    assert_eq!(find_music_directory(&lines(&["music_directory"])), None);
    assert_eq!(find_music_directory(&lines(&[])), None);
}

#[test]
fn directory_with_tilde_is_below_the_reported_home() {
    let conf = lines(&["music_directory \"~/Music\""]);
    match find_music_directory(&conf) {
        Some(dir) => {
            assert!(dir.ends_with("/Music"));
            assert!(!dir.starts_with('~'));
            let home = &dir[..dir.len() - "/Music".len()];
            assert_eq!(detect_music_directory(&conf, Some(home)), Some(dir.clone()));
        }
        None => assert_eq!(detect_music_directory(&conf, None), None),
    }
}

#[test]
fn detection_is_wanted_only_for_local_search_without_directory() {
    let mut c = Config::default();
    assert!(c.wants_detection());
    c.music_directory = Some(String::from("/m"));
    assert!(!c.wants_detection());
    c.music_directory = None;
    c.cover_art_method = CoverArtMethod::Native;
    assert!(!c.wants_detection());
    c.cover_art_method = CoverArtMethod::Disabled;
    assert!(!c.wants_detection());
}

#[test]
fn configured_directory_wins_over_detected() {
    let mut c = Config::default();
    assert_eq!(c.music_directory(Some(String::from("/d"))).as_deref(), Some("/d"));
    assert_eq!(c.music_directory(None), None);
    c.music_directory = Some(String::from("/m"));
    assert_eq!(c.music_directory(Some(String::from("/d"))).as_deref(), Some("/m"));
    c.cover_art_method = CoverArtMethod::Native;
    assert_eq!(c.music_directory(Some(String::from("/d"))), None);
}
