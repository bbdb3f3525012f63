//! Reading the music directory out of the daemon's own settings file.

use vstd::prelude::*;
use vstd::string::*;
use crate::text::{matches_at, owned_text, replace_all, starts_with, substitute, text_of};

verus! {

/// Where the daemon keeps its settings, below the home directory.
pub fn conf_path_below_home() -> (path: String)
    ensures
        path@ == ".config/mpd/mpd.conf"@,
{
    String::from_str(".config/mpd/mpd.conf")
}

/// The characters that count as white space: the code points to which
/// Unicode gives the property White_Space.
pub open spec fn is_space(c: char) -> bool {
    let n = c as u32;
    ||| 0x0009 <= n <= 0x000d
    ||| n == 0x0020
    ||| n == 0x0085
    ||| n == 0x00a0
    ||| n == 0x1680
    ||| 0x2000 <= n <= 0x200a
    ||| n == 0x2028
    ||| n == 0x2029
    ||| n == 0x202f
    ||| n == 0x205f
    ||| n == 0x3000
}

/// Tells whether `c` is white space.
pub fn char_is_space(c: char) -> (space: bool)
    ensures
        space == is_space(c),
{
    let n: u32 = c as u32;
    (0x0009 <= n && n <= 0x000d) || n == 0x0020 || n == 0x0085 || n == 0x00a0 || n == 0x1680 || (
    0x2000 <= n && n <= 0x200a) || n == 0x2028 || n == 0x2029 || n == 0x202f || n == 0x205f || n
        == 0x3000
}

/// `text` without its leading white space.
pub open spec fn skip_spaces(text: Seq<char>) -> Seq<char>
    decreases text.len(),
{
    if text.len() > 0 && is_space(text[0]) {
        skip_spaces(text.skip(1))
    } else {
        text
    }
}

/// `text` without its leading run of characters that are no white space.
pub open spec fn skip_word(text: Seq<char>) -> Seq<char>
    decreases text.len(),
{
    if text.len() > 0 && !is_space(text[0]) {
        skip_word(text.skip(1))
    } else {
        text
    }
}

/// The leading run of characters of `text` that are no white space.
pub open spec fn leading_word(text: Seq<char>) -> Seq<char>
    decreases text.len(),
{
    if text.len() > 0 && !is_space(text[0]) {
        seq![text[0]] + leading_word(text.skip(1))
    } else {
        Seq::empty()
    }
}

/// The second of the words of `line` that white space separates.
pub open spec fn second_word(line: Seq<char>) -> Option<Seq<char>> {
    let word = leading_word(skip_spaces(skip_word(skip_spaces(line))));
    if word.len() == 0 {
        None
    } else {
        Some(word)
    }
}

/// `dir` with a leading tilde replaced by the home directory; nothing where
/// the tilde is there and the home directory is not known.
pub open spec fn with_home(dir: Seq<char>, home: Option<Seq<char>>) -> Option<Seq<char>> {
    if dir.len() > 0 && dir[0] == '~' {
        match home {
            Some(h) => Some(h + dir.skip(1)),
            None => None,
        }
    } else {
        Some(dir)
    }
}

/// The directory that a settings line names: its second word, without any
/// double quotes, with the home directory for a leading tilde.
pub open spec fn directory_of_line(line: Seq<char>, home: Option<Seq<char>>) -> Option<
    Seq<char>,
> {
    match second_word(line) {
        Some(word) => with_home(replace_all(word, "\""@, ""@), home),
        None => None,
    }
}

/// The first of `lines` that starts with the name of the setting.
pub open spec fn first_setting(lines: Seq<Seq<char>>) -> Option<Seq<char>>
    decreases lines.len(),
{
    if lines.len() == 0 {
        None
    } else if starts_with(lines[0], "music_directory"@) {
        Some(lines[0])
    } else {
        first_setting(lines.skip(1))
    }
}

/// The music directory that the settings name: only the first line that
/// starts with the setting's name counts.
pub open spec fn detected_directory(lines: Seq<Seq<char>>, home: Option<Seq<char>>) -> Option<
    Seq<char>,
> {
    match first_setting(lines) {
        Some(line) => directory_of_line(line, home),
        None => None,
    }
}

/// The lines as texts.
pub open spec fn line_texts(lines: Seq<String>) -> Seq<Seq<char>> {
    Seq::new(lines.len(), |i: int| lines[i]@)
}

/// The position at which the white space that begins at `from` ends.
fn spaces_end(text: &str, from: usize) -> (to: usize)
    requires
        from <= text@.len(),
    ensures
        from <= to <= text@.len(),
        text@.skip(to as int) == skip_spaces(text@.skip(from as int)),
{
    let n = text.unicode_len();
    let mut i = from;
    while i < n && char_is_space(text.get_char(i))
        invariant
            from <= i <= n,
            n == text@.len(),
            skip_spaces(text@.skip(from as int)) == skip_spaces(text@.skip(i as int)),
        decreases n - i,
    {
        assert(text@.skip(i as int).skip(1) =~= text@.skip(i + 1));
        i = i + 1;
    }
    proof {
        to_here(text@, i);
    }
    i
}

proof fn to_here(text: Seq<char>, i: usize)
    requires
        i <= text.len(),
    ensures
        i < text.len() ==> text.skip(i as int).len() > 0 && text.skip(i as int)[0] == text[i as int],
        i == text.len() ==> text.skip(i as int).len() == 0,
{
}

/// The position at which the word that begins at `from` ends.
fn word_end(text: &str, from: usize) -> (to: usize)
    requires
        from <= text@.len(),
    ensures
        from <= to <= text@.len(),
        text@.skip(to as int) == skip_word(text@.skip(from as int)),
        text@.subrange(from as int, to as int) == leading_word(text@.skip(from as int)),
{
    let n = text.unicode_len();
    let mut i = from;
    assert(text@.subrange(from as int, from as int) + leading_word(text@.skip(from as int))
        =~= leading_word(text@.skip(from as int)));
    while i < n && !char_is_space(text.get_char(i))
        invariant
            from <= i <= n,
            n == text@.len(),
            skip_word(text@.skip(from as int)) == skip_word(text@.skip(i as int)),
            leading_word(text@.skip(from as int)) == text@.subrange(from as int, i as int)
                + leading_word(text@.skip(i as int)),
        decreases n - i,
    {
        proof {
            let rest = text@.skip(i as int);
            assert(rest.skip(1) =~= text@.skip(i + 1));
            assert(text@.subrange(from as int, i as int) + (seq![rest[0]] + leading_word(
                rest.skip(1),
            )) =~= text@.subrange(from as int, i + 1) + leading_word(rest.skip(1)));
        }
        i = i + 1;
    }
    proof {
        to_here(text@, i);
        assert(text@.subrange(from as int, i as int) + Seq::<char>::empty() =~= text@.subrange(
            from as int,
            i as int,
        ));
    }
    i
}

/// Reads the directory that one settings line names.
pub fn directory_in_line(line: &str, home: Option<&str>) -> (dir: Option<String>)
    ensures
        owned_text(dir) == directory_of_line(line@, text_of(home)),
{
    let first = spaces_end(line, 0);
    assert(line@.skip(0) =~= line@);
    let gap = word_end(line, first);
    let second = spaces_end(line, gap);
    let end = word_end(line, second);
    if end == second {
        return None;
    }
    let word = line.substring_char(second, end);
    let bare = substitute(word, "\"", "");
    let n = bare.as_str().unicode_len();
    if n > 0 && bare.as_str().get_char(0) == '~' {
        match home {
            Some(h) => {
                let mut dir = String::from_str(h);
                dir.append(bare.as_str().substring_char(1, n));
                assert(bare@.subrange(1, n as int) =~= bare@.skip(1));
                Some(dir)
            },
            None => None,
        }
    } else {
        Some(bare)
    }
}

/// Finds the music directory in the lines of the daemon's settings file.
/// `home` is the home directory of the user, where it is known.
pub fn detect_music_directory(lines: &Vec<String>, home: Option<&str>) -> (dir: Option<String>)
    ensures
        owned_text(dir) == detected_directory(line_texts(lines@), text_of(home)),
{
    let ghost texts = line_texts(lines@);
    let n = lines.len();
    let mut i: usize = 0;
    assert(texts.skip(0) =~= texts);
    while i < n
        invariant
            i <= n,
            n == lines@.len(),
            texts == line_texts(lines@),
            first_setting(texts) == first_setting(texts.skip(i as int)),
        decreases n - i,
    {
        let line = lines[i].as_str();
        assert(texts.skip(i as int)[0] == line@);
        assert(line@.skip(0) =~= line@);
        if matches_at(line, 0, "music_directory") {
            return directory_in_line(line, home);
        }
        assert(texts.skip(i as int).skip(1) =~= texts.skip(i + 1));
        i = i + 1;
    }
    None
}

/// Calls `dirs::home_dir` and hands the path on as text, where it is valid
/// Unicode. The answer depends on the environment of the process, so
/// nothing is promised of it.
#[verifier::external_body]
fn home_directory() -> (home: Option<String>) {
    match dirs::home_dir() {
        Some(path) => match path.to_str() {
            Some(text) => Some(String::from(text)),
            None => None,
        },
        None => None,
    }
}

/// Finds the music directory in the lines of the daemon's settings file,
/// with the home directory of the user, as the system reports it, for a
/// leading tilde.
///
/// Whatever the system reports, the result is what
/// [`detect_music_directory`] gives for some home directory; where the
/// setting needs none, it is the directory as written.
pub fn find_music_directory(lines: &Vec<String>) -> (dir: Option<String>)
    ensures
        exists|home: Option<Seq<char>>|
            owned_text(dir) == #[trigger] detected_directory(line_texts(lines@), home),
        detected_directory(line_texts(lines@), None) is Some ==> owned_text(dir)
            == detected_directory(line_texts(lines@), None),
{
    let home = home_directory();
    match &home {
        Some(h) => {
            let dir = detect_music_directory(lines, Some(h.as_str()));
            assert(owned_text(dir) == detected_directory(line_texts(lines@), Some(h@)));
            dir
        },
        None => detect_music_directory(lines, None),
    }
}

} // verus!
