//! Settings of the notifier and the address of the daemon.

use vstd::prelude::*;
use vstd::string::*;
use crate::text::owned_text;

verus! {

/// How the cover art of a song is looked for.
#[derive(Clone, Copy, Debug, PartialEq, Eq, Structural)]
pub enum CoverArtMethod {
    /// No cover art is shown.
    Disabled,
    /// A `cover.jpg` is looked for beside the song file, below the music
    /// directory. Works only where the daemon's files are on this machine.
    LocalHack,
    /// The daemon is asked for the cover art.
    Native,
}

/// The settings, as loaded once at start.
#[derive(Clone, Debug)]
pub struct Config {
    pub cover_art_method: CoverArtMethod,
    /// The daemon's music directory, for `LocalHack`; `None` to have it
    /// detected from the daemon's own settings.
    pub music_directory: Option<String>,
    /// Milliseconds for which a notification stays; `None` for the
    /// desktop's default.
    pub notification_timeout: Option<u32>,
    /// Limit of connection attempts, zero for no limit.
    pub max_connection_retries: u32,
    /// Template of the notification body.
    pub format: String,
}

impl Default for Config {
    fn default() -> (config: Config)
        ensures
            config.cover_art_method == CoverArtMethod::LocalHack,
            config.music_directory is None,
            config.notification_timeout is None,
            config.max_connection_retries == 5,
            config.format@ == "%Artist - %Title"@,
    {
        Config {
            cover_art_method: CoverArtMethod::LocalHack,
            music_directory: None,
            notification_timeout: None,
            max_connection_retries: 5,
            format: String::from_str("%Artist - %Title"),
        }
    }
}

/// The method that is used in place of `method`: where the daemon cannot be
/// asked for covers, the native method gives way to the local search.
pub open spec fn supported_method_spec(method: CoverArtMethod, native_supported: bool) -> CoverArtMethod {
    if method == CoverArtMethod::Native && !native_supported {
        CoverArtMethod::LocalHack
    } else {
        method
    }
}

/// Falls back from the native method to the local search where the program
/// was built without the means to ask the daemon for covers.
pub fn supported_method(method: CoverArtMethod, native_supported: bool) -> (used: CoverArtMethod)
    ensures
        used == supported_method_spec(method, native_supported),
{
    match method {
        CoverArtMethod::Native => if native_supported {
            CoverArtMethod::Native
        } else {
            CoverArtMethod::LocalHack
        },
        _ => method,
    }
}

/// The music directory that the cover search works with: the configured one,
/// else the detected one, and none at all unless covers are looked for on
/// disk.
pub open spec fn music_directory_spec(config: Config, detected: Option<String>) -> Option<
    Seq<char>,
> {
    match config.cover_art_method {
        CoverArtMethod::LocalHack => match config.music_directory {
            Some(dir) => Some(dir@),
            None => owned_text(detected),
        },
        _ => None,
    }
}

impl Config {
    /// Tells whether the music directory has to be detected: covers are
    /// looked for on disk and no directory is configured.
    pub fn wants_detection(&self) -> (wanted: bool)
        ensures
            wanted == (self.cover_art_method == CoverArtMethod::LocalHack
                && self.music_directory is None),
    {
        match self.cover_art_method {
            CoverArtMethod::LocalHack => self.music_directory.is_none(),
            _ => false,
        }
    }

    /// The music directory for the cover search, given what detection found.
    pub fn music_directory(&self, detected: Option<String>) -> (dir: Option<String>)
        ensures
            owned_text(dir) == music_directory_spec(*self, detected),
    {
        match self.cover_art_method {
            CoverArtMethod::LocalHack => match &self.music_directory {
                Some(dir) => Some(dir.clone()),
                None => detected,
            },
            _ => None,
        }
    }
}

/// `value` where it is present, `fallback` otherwise.
pub open spec fn text_or(value: Option<&str>, fallback: Seq<char>) -> Seq<char> {
    match value {
        Some(s) => s@,
        None => fallback,
    }
}

/// Host and port joined by a colon, each with its default where it is not
/// given.
pub open spec fn control_address_spec(host: Option<&str>, port: Option<&str>) -> Seq<char> {
    text_or(host, "127.0.0.1"@) + ":"@ + text_or(port, "6600"@)
}

/// The address of the daemon's control connection.
pub fn control_address(host: Option<&str>, port: Option<&str>) -> (address: String)
    ensures
        address@ == control_address_spec(host, port),
{
    let mut address = String::from_str(
        match host {
            Some(h) => h,
            None => "127.0.0.1",
        },
    );
    address.append(":");
    address.append(
        match port {
            Some(p) => p,
            None => "6600",
        },
    );
    address
}

} // verus!
