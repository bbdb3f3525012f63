//! Song metadata and the text of a notification body: which artist to
//! display, and how a body template is filled in.

use vstd::prelude::*;
use vstd::string::*;
use crate::engine::SongId;
use crate::text::{matches_at, starts_with, text_eq, text_of};

verus! {

/// Snapshot of a song as the daemon describes it. `tags` keeps the daemon's
/// order; where a name occurs twice the first entry counts.
#[derive(Clone, Debug)]
pub struct Song {
    pub id: SongId,
    pub file_path: String,
    pub title: Option<String>,
    pub tags: Vec<(String, String)>,
}

/// The value of the first entry of `tags` that is named `name`, compared
/// case-sensitively.
pub open spec fn tag_value(tags: Seq<(Seq<char>, Seq<char>)>, name: Seq<char>) -> Option<
    Seq<char>,
>
    decreases tags.len(),
{
    if tags.len() == 0 {
        None
    } else if tags[0].0 == name {
        Some(tags[0].1)
    } else {
        tag_value(tags.skip(1), name)
    }
}

/// The artist to display, by precedence: the album artist wins over the
/// track artist unless it is the placeholder name of a compilation.
pub open spec fn display_artist(artist: Option<Seq<char>>, album_artist: Option<Seq<char>>) -> Seq<
    char,
> {
    match (artist, album_artist) {
        (None, None) => "<UNKNOWN ARTIST>"@,
        (None, Some(s)) => s,
        (Some(s), None) => s,
        (Some(s1), Some(s2)) => if s2 == "Various Artists"@ {
            s1
        } else {
            s2
        },
    }
}

/// The four rows of the precedence of artists: the marker where neither is
/// known, the one that is known where only one is, and where both are the
/// album artist, unless that is the placeholder name of a compilation, which
/// gives way to the track artist.
pub proof fn artist_precedence(artist: Seq<char>, album_artist: Seq<char>)
    ensures
        display_artist(None, None) == "<UNKNOWN ARTIST>"@,
        display_artist(None, Some(album_artist)) == album_artist,
        display_artist(Some(artist), None) == artist,
        album_artist != "Various Artists"@ ==> display_artist(Some(artist), Some(album_artist))
            == album_artist,
        display_artist(Some(artist), Some("Various Artists"@)) == artist,
{
}

/// `value` where it is present, `fallback` otherwise.
pub open spec fn or_text(value: Option<Seq<char>>, fallback: Seq<char>) -> Seq<char> {
    match value {
        Some(s) => s,
        None => fallback,
    }
}

/// The five tokens that a template may hold.
#[derive(Clone, Copy, Debug, PartialEq, Eq, Structural)]
pub enum Token {
    /// The two characters backslash and `n`, which stand for a line break.
    LineBreak,
    Artist,
    Album,
    Title,
    Date,
}

/// A token as it is written in a template.
pub open spec fn token_text(token: Token) -> Seq<char> {
    match token {
        Token::LineBreak => "\\n"@,
        Token::Artist => "%Artist"@,
        Token::Album => "%Album"@,
        Token::Title => "%Title"@,
        Token::Date => "%Date"@,
    }
}

/// The text that takes the place of a token.
pub open spec fn token_value(
    token: Token,
    artist: Seq<char>,
    album: Seq<char>,
    title: Seq<char>,
    date: Seq<char>,
) -> Seq<char> {
    match token {
        Token::LineBreak => "\n"@,
        Token::Artist => artist,
        Token::Album => album,
        Token::Title => title,
        Token::Date => date,
    }
}

/// `token` is written at the very start of `text`.
pub open spec fn token_starts(text: Seq<char>, token: Token) -> bool {
    token_text(token).len() > 0 && starts_with(text, token_text(token))
}

/// The token that is written at the very start of `text`, if there is one.
/// No token begins another, so there is at most one.
pub open spec fn token_at(text: Seq<char>) -> Option<Token> {
    if token_starts(text, Token::LineBreak) {
        Some(Token::LineBreak)
    } else if token_starts(text, Token::Artist) {
        Some(Token::Artist)
    } else if token_starts(text, Token::Album) {
        Some(Token::Album)
    } else if token_starts(text, Token::Title) {
        Some(Token::Title)
    } else if token_starts(text, Token::Date) {
        Some(Token::Date)
    } else {
        None
    }
}

/// A template filled in, in one pass from left to right: where a token is
/// written, its value is put and the token skipped; every other character
/// is copied. What is put in is never looked at again, so a value may itself
/// read like a token and stays as it is.
pub open spec fn fill_template(
    template: Seq<char>,
    artist: Seq<char>,
    album: Seq<char>,
    title: Seq<char>,
    date: Seq<char>,
) -> Seq<char>
    decreases template.len(),
{
    if template.len() == 0 {
        template
    } else {
        match token_at(template) {
            Some(token) => token_value(token, artist, album, title, date) + fill_template(
                template.skip(token_text(token).len() as int),
                artist,
                album,
                title,
                date,
            ),
            None => seq![template[0]] + fill_template(template.skip(1), artist, album, title, date),
        }
    }
}

impl Song {
    /// The tags as pairs of texts.
    pub open spec fn tag_pairs(self) -> Seq<(Seq<char>, Seq<char>)> {
        Seq::new(self.tags@.len(), |i: int| (self.tags@[i].0@, self.tags@[i].1@))
    }

    /// The title as text, where the song has one.
    pub open spec fn title_text(self) -> Option<Seq<char>> {
        match self.title {
            Some(t) => Some(t@),
            None => None,
        }
    }

    /// The artist that a notification names for this song.
    pub open spec fn artist_text(self) -> Seq<char> {
        display_artist(
            tag_value(self.tag_pairs(), "Artist"@),
            tag_value(self.tag_pairs(), "AlbumArtist"@),
        )
    }

    /// The body that `template` gives for this song.
    pub open spec fn body_text(self, template: Seq<char>) -> Seq<char> {
        fill_template(
            template,
            self.artist_text(),
            or_text(tag_value(self.tag_pairs(), "Album"@), "<UNKNOWN ALBUM>"@),
            or_text(self.title_text(), "<UNKNOWN TITLE>"@),
            or_text(tag_value(self.tag_pairs(), "Date"@), "<UNKNOWN DATE>"@),
        )
    }

    /// Looks a tag up by its exact name.
    pub fn tag<'a>(&'a self, name: &str) -> (value: Option<&'a str>)
        ensures
            text_of(value) == tag_value(self.tag_pairs(), name@),
    {
        let ghost pairs = self.tag_pairs();
        let n = self.tags.len();
        let mut i: usize = 0;
        assert(pairs.skip(0) =~= pairs);
        while i < n
            invariant
                i <= n,
                n == self.tags@.len(),
                pairs == self.tag_pairs(),
                tag_value(pairs, name@) == tag_value(pairs.skip(i as int), name@),
            decreases n - i,
        {
            let entry = &self.tags[i];
            assert(pairs.skip(i as int)[0] == (entry.0@, entry.1@));
            if text_eq(entry.0.as_str(), name) {
                return Some(entry.1.as_str());
            }
            assert(pairs.skip(i as int).skip(1) =~= pairs.skip(i + 1));
            i = i + 1;
        }
        None
    }
}

/// Picks the artist to display from the track artist and the album artist.
pub fn choose_artist(artist: Option<&str>, album_artist: Option<&str>) -> (shown: String)
    ensures
        shown@ == display_artist(text_of(artist), text_of(album_artist)),
{
    match (artist, album_artist) {
        (None, None) => String::from_str("<UNKNOWN ARTIST>"),
        (None, Some(s)) => String::from_str(s),
        (Some(s), None) => String::from_str(s),
        (Some(s1), Some(s2)) => {
            if text_eq(s2, "Various Artists") {
                String::from_str(s1)
            } else {
                String::from_str(s2)
            }
        },
    }
}

/// The artist that a notification names for `song`.
pub fn resolve_display_artist(song: &Song) -> (shown: String)
    ensures
        shown@ == song.artist_text(),
{
    choose_artist(song.tag("Artist"), song.tag("AlbumArtist"))
}

/// Tells which token is written in `template` at character position `at`.
pub fn token_here(template: &str, at: usize) -> (found: Option<Token>)
    requires
        at <= template@.len(),
    ensures
        found == token_at(template@.skip(at as int)),
{
    proof {
        reveal_strlit("\\n");
        reveal_strlit("%Artist");
        reveal_strlit("%Album");
        reveal_strlit("%Title");
        reveal_strlit("%Date");
    }
    if matches_at(template, at, "\\n") {
        Some(Token::LineBreak)
    } else if matches_at(template, at, "%Artist") {
        Some(Token::Artist)
    } else if matches_at(template, at, "%Album") {
        Some(Token::Album)
    } else if matches_at(template, at, "%Title") {
        Some(Token::Title)
    } else if matches_at(template, at, "%Date") {
        Some(Token::Date)
    } else {
        None
    }
}

/// The number of characters of a token as written.
pub fn token_length(token: Token) -> (length: usize)
    ensures
        length == token_text(token).len(),
{
    match token {
        Token::LineBreak => "\\n".unicode_len(),
        Token::Artist => "%Artist".unicode_len(),
        Token::Album => "%Album".unicode_len(),
        Token::Title => "%Title".unicode_len(),
        Token::Date => "%Date".unicode_len(),
    }
}

/// Fills `template` with the given texts in one pass from left to right.
pub fn fill(template: &str, artist: &str, album: &str, title: &str, date: &str) -> (body: String)
    ensures
        body@ == fill_template(template@, artist@, album@, title@, date@),
{
    let n = template.unicode_len();
    let mut body = String::new();
    let mut i: usize = 0;
    assert(template@.skip(0) =~= template@);
    while i < n
        invariant
            i <= n,
            n == template@.len(),
            body@ + fill_template(template@.skip(i as int), artist@, album@, title@, date@)
                == fill_template(template@, artist@, album@, title@, date@),
        decreases n - i,
    {
        let ghost rest = template@.skip(i as int);
        let ghost before = body@;
        match token_here(template, i) {
            Some(token) => {
                let value = match token {
                    Token::LineBreak => "\n",
                    Token::Artist => artist,
                    Token::Album => album,
                    Token::Title => title,
                    Token::Date => date,
                };
                let length = token_length(token);
                body.append(value);
                proof {
                    let after = fill_template(
                        rest.skip(length as int),
                        artist@,
                        album@,
                        title@,
                        date@,
                    );
                    assert(rest.skip(length as int) =~= template@.skip(i + length));
                    assert((before + value@) + after =~= before + (value@ + after));
                }
                i = i + length;
            },
            None => {
                let one = template.substring_char(i, i + 1);
                body.append(one);
                proof {
                    let after = fill_template(rest.skip(1), artist@, album@, title@, date@);
                    assert(one@ =~= seq![rest[0]]);
                    assert(rest.skip(1) =~= template@.skip(i + 1));
                    assert((before + one@) + after =~= before + (seq![rest[0]] + after));
                }
                i = i + 1;
            },
        }
    }
    assert(template@.skip(n as int).len() == 0);
    assert(body@ + template@.skip(n as int) =~= body@);
    body
}

/// Formats the notification body for `song`: the template with its tokens
/// replaced by the song's metadata, and by a marker where a datum is missing.
pub fn format_body(template: &str, song: &Song) -> (body: String)
    ensures
        body@ == song.body_text(template@),
{
    let artist = resolve_display_artist(song);
    let album = match song.tag("Album") {
        Some(s) => s,
        None => "<UNKNOWN ALBUM>",
    };
    let title = match &song.title {
        Some(s) => s.as_str(),
        None => "<UNKNOWN TITLE>",
    };
    let date = match song.tag("Date") {
        Some(s) => s,
        None => "<UNKNOWN DATE>",
    };
    fill(template, artist.as_str(), album, title, date)
}

} // verus!
