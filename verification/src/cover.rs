//! Where the cover art of a song is looked for.

use vstd::prelude::*;
use vstd::string::*;
use crate::config::CoverArtMethod;
use crate::text::owned_text;
use crate::supervisor::{ParseKind, PlayerError};

verus! {

/// The path that `std::path::Path::join` gives for `base` and `relative`,
/// on the platform the crate is built for.
pub uninterp spec fn joined_path(base: Seq<char>, relative: Seq<char>) -> Seq<char>;

/// The path that `std::path::Path::with_file_name` gives for `path` and
/// `name`, on the platform the crate is built for.
pub uninterp spec fn renamed_path(path: Seq<char>, name: Seq<char>) -> Seq<char>;

/// The path that `std::path::Path::parent` gives for `path`, on the platform
/// the crate is built for; `None` where the path has no parent.
pub uninterp spec fn parent_path(path: Seq<char>) -> Option<Seq<char>>;

/// Calls `std::path::Path::join`. Nothing is proved of the result; the
/// contract only gives it its name.
#[verifier::external_body]
fn path_join(base: &str, relative: &str) -> (joined: String)
    ensures
        joined@ == joined_path(base@, relative@),
{
    std::path::Path::new(base).join(relative).to_string_lossy().into_owned()
}

/// Calls `std::path::Path::with_file_name`. Nothing is proved of the
/// result; the contract only gives it its name.
#[verifier::external_body]
fn path_with_file_name(path: &str, name: &str) -> (renamed: String)
    ensures
        renamed@ == renamed_path(path@, name@),
{
    std::path::Path::new(path).with_file_name(name).to_string_lossy().into_owned()
}

/// Calls `std::path::Path::parent`. Nothing is proved of the result; the
/// contract only gives it its name.
#[verifier::external_body]
fn path_parent(path: &str) -> (parent: Option<String>)
    ensures
        owned_text(parent) == parent_path(path@),
{
    match std::path::Path::new(path).parent() {
        Some(p) => Some(p.to_string_lossy().into_owned()),
        None => None,
    }
}

/// How the embedding program is to look for the cover.
#[derive(Clone, Debug)]
pub enum CoverPlan {
    /// No icon but the themed one.
    NoIcon,
    /// Look for the file `beside` the song; failing that, for the file
    /// `above`, one directory up.
    Local { beside: String, above: Option<String> },
    /// Ask the daemon.
    Native,
}

/// A plan as plain texts.
pub enum CoverPlanText {
    NoIcon,
    Local { beside: Seq<char>, above: Option<Seq<char>> },
    Native,
}

impl View for CoverPlan {
    type V = CoverPlanText;

    open spec fn view(&self) -> CoverPlanText {
        match *self {
            CoverPlan::NoIcon => CoverPlanText::NoIcon,
            CoverPlan::Local { beside, above } => CoverPlanText::Local {
                beside: beside@,
                above: owned_text(above),
            },
            CoverPlan::Native => CoverPlanText::Native,
        }
    }
}

/// The cover beside the song: the song's path below the music directory,
/// with its file name replaced.
pub open spec fn beside_path(music_directory: Seq<char>, file_path: Seq<char>) -> Seq<char> {
    renamed_path(joined_path(music_directory, file_path), "cover.jpg"@)
}

/// The cover one directory further up, for albums that keep each disc in a
/// folder of its own; `None` where there is no such directory.
pub open spec fn above_path(music_directory: Seq<char>, file_path: Seq<char>) -> Option<
    Seq<char>,
> {
    match parent_path(beside_path(music_directory, file_path)) {
        Some(folder) => match parent_path(folder) {
            Some(upper) => Some(joined_path(upper, "cover.jpg"@)),
            None => None,
        },
        None => None,
    }
}

/// The plan that the method prescribes.
pub open spec fn plan_spec(
    method: CoverArtMethod,
    music_directory: Option<&str>,
    file_path: Seq<char>,
) -> CoverPlanText {
    match method {
        CoverArtMethod::Disabled => CoverPlanText::NoIcon,
        CoverArtMethod::Native => CoverPlanText::Native,
        CoverArtMethod::LocalHack => match music_directory {
            None => CoverPlanText::NoIcon,
            Some(dir) => CoverPlanText::Local {
                beside: beside_path(dir@, file_path),
                above: above_path(dir@, file_path),
            },
        },
    }
}

/// Plans the search for the cover of the song at `file_path`.
///
/// The local search needs the music directory and never asks the daemon; it
/// goes wrong for songs that live outside that directory.
pub fn plan_cover(method: CoverArtMethod, music_directory: Option<&str>, file_path: &str) -> (plan:
    CoverPlan)
    ensures
        plan@ == plan_spec(method, music_directory, file_path@),
{
    match method {
        CoverArtMethod::Disabled => CoverPlan::NoIcon,
        CoverArtMethod::Native => CoverPlan::Native,
        CoverArtMethod::LocalHack => match music_directory {
            None => CoverPlan::NoIcon,
            Some(dir) => {
                let song = path_join(dir, file_path);
                let beside = path_with_file_name(song.as_str(), "cover.jpg");
                let above = match path_parent(beside.as_str()) {
                    Some(folder) => match path_parent(folder.as_str()) {
                        Some(upper) => Some(path_join(upper.as_str(), "cover.jpg")),
                        None => None,
                    },
                    None => None,
                };
                CoverPlan::Local { beside, above }
            },
        },
    }
}

/// Picks the cover of a local search from what was found on disk: the file
/// beside the song if it exists, else the one above if there is one and it
/// exists, else none.
pub fn pick_local(beside: String, beside_exists: bool, above: Option<String>, above_exists: bool) -> (icon:
    Option<String>)
    ensures
        owned_text(icon) == (if beside_exists {
            Some(beside@)
        } else if above_exists {
            owned_text(above)
        } else {
            None
        }),
{
    if beside_exists {
        Some(beside)
    } else if above_exists {
        above
    } else {
        None
    }
}

/// Name of the file, in the directory for temporary files, that holds the
/// cover which the daemon sent. Each cover overwrites the one before.
pub fn temp_cover_name() -> (name: String)
    ensures
        name@ == "mpdnd-cover"@,
{
    String::from_str("mpdnd-cover")
}

/// How asking the daemon for the cover ended.
#[derive(Clone, Copy, Debug, PartialEq, Eq, Structural)]
pub enum ArtFetch {
    /// The image was received and written to the temporary file.
    Saved,
    /// The image was received, but the temporary file could not be opened.
    Unwritable,
    /// The request failed.
    Failed(PlayerError),
}

/// The one failure that only means that the daemon has no cover for the
/// song.
pub open spec fn is_missing_art(error: PlayerError) -> bool {
    error == PlayerError::Parse(ParseKind::BadPair)
}

/// What follows from asking the daemon: the icon, and whether the failure is
/// worth a line in the log. A missing cover is not. No outcome, a lost
/// connection included, keeps the notification from being shown.
pub fn native_icon(fetch: ArtFetch, temp_path: String) -> (found: (Option<String>, bool))
    ensures
        owned_text(found.0) == (if fetch == ArtFetch::Saved {
            Some(temp_path@)
        } else {
            None
        }),
        found.1 == match fetch {
            ArtFetch::Saved => false,
            ArtFetch::Unwritable => true,
            ArtFetch::Failed(error) => !is_missing_art(error),
        },
{
    match fetch {
        ArtFetch::Saved => (Some(temp_path), false),
        ArtFetch::Unwritable => (None, true),
        ArtFetch::Failed(PlayerError::Parse(ParseKind::BadPair)) => (None, false),
        ArtFetch::Failed(_) => (None, true),
    }
}

} // verus!
