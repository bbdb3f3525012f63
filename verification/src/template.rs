//! What filling a template amounts to, stated over templates that are built
//! from recognisable pieces, and over templates cut at their line breaks.

use vstd::prelude::*;
use crate::format::{
    fill_template, or_text, tag_value, token_at, token_starts, token_text, token_value, Song,
    Token,
};
use crate::text::{occurs_in, starts_with};

verus! {

/// One piece of a template: a plain character or a token.
pub enum Piece {
    Plain(char),
    Mark(Token),
}

/// The texts that take the place of the four metadata tokens.
pub struct Fields {
    pub artist: Seq<char>,
    pub album: Seq<char>,
    pub title: Seq<char>,
    pub date: Seq<char>,
}

/// No character of `text` is `c`.
pub open spec fn free_of(text: Seq<char>, c: char) -> bool {
    forall|i: int| 0 <= i < text.len() ==> text[i] != c
}

/// `template` filled with `fields`.
pub open spec fn fill_with(template: Seq<char>, fields: Fields) -> Seq<char> {
    fill_template(template, fields.artist, fields.album, fields.title, fields.date)
}

/// The text that `fields` give for a token.
pub open spec fn value_of(token: Token, fields: Fields) -> Seq<char> {
    token_value(token, fields.artist, fields.album, fields.title, fields.date)
}

/// A piece as its author wrote it.
pub open spec fn piece_written(piece: Piece) -> Seq<char> {
    match piece {
        Piece::Plain(c) => seq![c],
        Piece::Mark(token) => token_text(token),
    }
}

/// A piece with its value in place of the token.
pub open spec fn piece_filled(piece: Piece, fields: Fields) -> Seq<char> {
    match piece {
        Piece::Plain(c) => seq![c],
        Piece::Mark(token) => value_of(token, fields),
    }
}

/// The template as its author wrote it.
pub open spec fn written(pieces: Seq<Piece>) -> Seq<char>
    decreases pieces.len(),
{
    if pieces.len() == 0 {
        Seq::empty()
    } else {
        piece_written(pieces[0]) + written(pieces.skip(1))
    }
}

/// The template with every token replaced by its value and every
/// line-break escape by a line break.
pub open spec fn filled(pieces: Seq<Piece>, fields: Fields) -> Seq<char>
    decreases pieces.len(),
{
    if pieces.len() == 0 {
        Seq::empty()
    } else {
        piece_filled(pieces[0], fields) + filled(pieces.skip(1), fields)
    }
}

/// A plain character is neither a percent sign nor a backslash: those two
/// only ever begin a token.
pub open spec fn plain_piece(piece: Piece) -> bool {
    match piece {
        Piece::Plain(c) => c != '%' && c != '\\',
        Piece::Mark(_) => true,
    }
}

/// Every percent sign and backslash of the template begins a token.
pub open spec fn plain_pieces(pieces: Seq<Piece>) -> bool {
    forall|i: int| 0 <= i < pieces.len() ==> plain_piece(#[trigger] pieces[i])
}

/// None of the four values holds the character `c`.
pub open spec fn fields_free_of(fields: Fields, c: char) -> bool {
    free_of(fields.artist, c) && free_of(fields.album, c) && free_of(fields.title, c) && free_of(
        fields.date,
        c,
    )
}

/// None of the four values holds a percent sign.
pub open spec fn plain_fields(fields: Fields) -> bool {
    fields_free_of(fields, '%')
}

/// The values that a song gives to the four metadata tokens.
pub open spec fn song_fields(song: Song) -> Fields {
    Fields {
        artist: song.artist_text(),
        album: or_text(tag_value(song.tag_pairs(), "Album"@), "<UNKNOWN ALBUM>"@),
        title: or_text(song.title_text(), "<UNKNOWN TITLE>"@),
        date: or_text(tag_value(song.tag_pairs(), "Date"@), "<UNKNOWN DATE>"@),
    }
}

proof fn token_shapes()
    ensures
        "\\n"@ =~= seq!['\\', 'n'],
        "\n"@ =~= seq!['\n'],
        "%Artist"@ =~= seq!['%', 'A', 'r', 't', 'i', 's', 't'],
        "%Album"@ =~= seq!['%', 'A', 'l', 'b', 'u', 'm'],
        "%Title"@ =~= seq!['%', 'T', 'i', 't', 'l', 'e'],
        "%Date"@ =~= seq!['%', 'D', 'a', 't', 'e'],
{
    reveal_strlit("\\n");
    reveal_strlit("\n");
    reveal_strlit("%Artist");
    reveal_strlit("%Album");
    reveal_strlit("%Title");
    reveal_strlit("%Date");
}

/// A text that differs from a token at one place does not start with it.
proof fn differs_at(text: Seq<char>, token: Token, at: int)
    requires
        0 <= at < token_text(token).len(),
        at < text.len() ==> text[at] != token_text(token)[at],
    ensures
        !token_starts(text, token),
{
    let written = token_text(token);
    if starts_with(text, written) {
        assert(text.subrange(0, written.len() as int)[at] == written[at]);
    }
}

/// A character that begins no token is copied.
proof fn plain_passes(c: char, rest: Seq<char>, fields: Fields)
    requires
        c != '%',
        c != '\\',
    ensures
        fill_with(seq![c] + rest, fields) == seq![c] + fill_with(rest, fields),
{
    token_shapes();
    let whole = seq![c] + rest;
    differs_at(whole, Token::LineBreak, 0);
    differs_at(whole, Token::Artist, 0);
    differs_at(whole, Token::Album, 0);
    differs_at(whole, Token::Title, 0);
    differs_at(whole, Token::Date, 0);
    assert(whole.skip(1) =~= rest);
}

/// A token gives way to its value, whatever follows it.
proof fn token_passes(token: Token, rest: Seq<char>, fields: Fields)
    ensures
        fill_with(token_text(token) + rest, fields) == value_of(token, fields) + fill_with(
            rest,
            fields,
        ),
{
    token_shapes();
    let whole = token_text(token) + rest;
    assert(whole.subrange(0, token_text(token).len() as int) =~= token_text(token));
    assert(whole.skip(token_text(token).len() as int) =~= rest);
    match token {
        Token::LineBreak => {},
        Token::Artist => {
            differs_at(whole, Token::LineBreak, 0);
        },
        Token::Album => {
            differs_at(whole, Token::LineBreak, 0);
            differs_at(whole, Token::Artist, 2);
        },
        Token::Title => {
            differs_at(whole, Token::LineBreak, 0);
            differs_at(whole, Token::Artist, 1);
            differs_at(whole, Token::Album, 1);
        },
        Token::Date => {
            differs_at(whole, Token::LineBreak, 0);
            differs_at(whole, Token::Artist, 1);
            differs_at(whole, Token::Album, 1);
            differs_at(whole, Token::Title, 1);
        },
    }
    assert(token_at(whole) == Some(token));
}

/// What follows the first piece of a template of plain pieces is one too.
proof fn tail_is_plain(pieces: Seq<Piece>)
    requires
        plain_pieces(pieces),
        pieces.len() > 0,
    ensures
        plain_piece(pieces[0]),
        plain_pieces(pieces.skip(1)),
{
    let tail = pieces.skip(1);
    assert forall|i: int| 0 <= i < tail.len() implies plain_piece(#[trigger] tail[i]) by {
        assert(tail[i] == pieces[i + 1]);
    }
}

/// Filling a template of plain pieces fills it piece by piece.
proof fn pieces_are_filled(pieces: Seq<Piece>, fields: Fields)
    requires
        plain_pieces(pieces),
    ensures
        fill_with(written(pieces), fields) == filled(pieces, fields),
    decreases pieces.len(),
{
    if pieces.len() > 0 {
        tail_is_plain(pieces);
        pieces_are_filled(pieces.skip(1), fields);
        match pieces[0] {
            Piece::Plain(c) => plain_passes(c, written(pieces.skip(1)), fields),
            Piece::Mark(token) => token_passes(token, written(pieces.skip(1)), fields),
        }
    }
}

/// A filled template of plain pieces holds no percent sign where no value
/// holds one, and no backslash where no value holds one.
proof fn filled_is_free(pieces: Seq<Piece>, fields: Fields, c: char)
    requires
        plain_pieces(pieces),
        c == '%' || c == '\\',
        fields_free_of(fields, c),
    ensures
        free_of(filled(pieces, fields), c),
    decreases pieces.len(),
{
    if pieces.len() > 0 {
        tail_is_plain(pieces);
        filled_is_free(pieces.skip(1), fields, c);
        token_shapes();
        assert(free_of(piece_filled(pieces[0], fields), c));
    }
}

/// A text that does not hold the first character of a token does not hold
/// the token.
proof fn free_holds_no_token(text: Seq<char>, token: Token)
    requires
        free_of(
            text,
            if token == Token::LineBreak {
                '\\'
            } else {
                '%'
            },
        ),
    ensures
        !occurs_in(text, token_text(token)),
{
    token_shapes();
    let written = token_text(token);
    assert forall|i: int| 0 <= i <= text.len() implies !#[trigger] starts_with(
        text.skip(i),
        written,
    ) by {
        if starts_with(text.skip(i), written) {
            assert(text.skip(i).subrange(0, written.len() as int)[0] == written[0]);
            assert(text.skip(i)[0] == text[i]);
        }
    }
}

/// Filling is total on templates made of pieces: where every percent sign
/// and backslash of the template begins a token, the result is the template
/// with each token replaced by its value and each line-break escape by a
/// line break, whatever the values hold. Where moreover no value holds a
/// percent sign, nothing of a metadata token is left in the result; where
/// no value holds a backslash, no line-break escape is left in it.
pub proof fn filling_is_total(pieces: Seq<Piece>, fields: Fields)
    requires
        plain_pieces(pieces),
    ensures
        fill_with(written(pieces), fields) == filled(pieces, fields),
        plain_fields(fields) ==> {
            &&& free_of(filled(pieces, fields), '%')
            &&& !occurs_in(filled(pieces, fields), "%Artist"@)
            &&& !occurs_in(filled(pieces, fields), "%Album"@)
            &&& !occurs_in(filled(pieces, fields), "%Title"@)
            &&& !occurs_in(filled(pieces, fields), "%Date"@)
        },
        fields_free_of(fields, '\\') ==> {
            &&& free_of(filled(pieces, fields), '\\')
            &&& !occurs_in(filled(pieces, fields), "\\n"@)
        },
{
    pieces_are_filled(pieces, fields);
    if plain_fields(fields) {
        filled_is_free(pieces, fields, '%');
        free_holds_no_token(filled(pieces, fields), Token::Artist);
        free_holds_no_token(filled(pieces, fields), Token::Album);
        free_holds_no_token(filled(pieces, fields), Token::Title);
        free_holds_no_token(filled(pieces, fields), Token::Date);
    }
    if fields_free_of(fields, '\\') {
        filled_is_free(pieces, fields, '\\');
        free_holds_no_token(filled(pieces, fields), Token::LineBreak);
    }
}

/// The body of a song's notification is the template filled with the
/// song's metadata, piece by piece.
pub proof fn body_is_filled_template(pieces: Seq<Piece>, song: Song)
    requires
        plain_pieces(pieces),
    ensures
        song.body_text(written(pieces)) == filled(pieces, song_fields(song)),
{
    filling_is_total(pieces, song_fields(song));
}

/// What is put in for a token is not looked at again: a template that is
/// one metadata token gives that token's value as it is, even where the
/// value reads like a token itself.
pub proof fn value_is_not_scanned(token: Token, fields: Fields)
    ensures
        fill_with(token_text(token), fields) == value_of(token, fields),
{
    let pieces = seq![Piece::Mark(token)];
    assert(pieces.skip(1) =~= Seq::<Piece>::empty());
    assert(written(pieces) =~= token_text(token)) by {
        reveal_with_fuel(written, 2);
    }
    assert(filled(pieces, fields) =~= value_of(token, fields)) by {
        reveal_with_fuel(filled, 2);
    }
    pieces_are_filled(pieces, fields);
}

/// The parts in order, with `separator` between each two.
pub open spec fn joined(parts: Seq<Seq<char>>, separator: Seq<char>) -> Seq<char>
    decreases parts.len(),
{
    if parts.len() == 0 {
        Seq::empty()
    } else if parts.len() == 1 {
        parts[0]
    } else {
        parts[0] + separator + joined(parts.skip(1), separator)
    }
}

/// Each of the parts filled by itself.
pub open spec fn each_filled(parts: Seq<Seq<char>>, fields: Fields) -> Seq<Seq<char>> {
    Seq::new(parts.len(), |i: int| fill_with(parts[i], fields))
}

/// How often `c` stands in `text`.
pub open spec fn count_of(text: Seq<char>, c: char) -> nat
    decreases text.len(),
{
    if text.len() == 0 {
        0
    } else if text[0] == c {
        1 + count_of(text.skip(1), c)
    } else {
        count_of(text.skip(1), c)
    }
}

/// None of the four values holds a line break.
pub open spec fn unbroken_fields(fields: Fields) -> bool {
    fields_free_of(fields, '\n')
}

/// A part of a template between two line-break escapes: it holds neither
/// the escape nor a line break.
pub open spec fn unbroken_part(part: Seq<char>) -> bool {
    free_of(part, '\n') && !occurs_in(part, "\\n"@)
}

/// Whether a token starts a text does not depend on what follows the text
/// behind a backslash.
proof fn same_start(head: Seq<char>, tail: Seq<char>, token: Token)
    requires
        head.len() > 0,
        tail.len() > 0,
        tail[0] == '\\',
    ensures
        token_starts(head + tail, token) == token_starts(head, token),
{
    token_shapes();
    let written = token_text(token);
    let whole = head + tail;
    if written.len() <= head.len() {
        assert(whole.subrange(0, written.len() as int) =~= head.subrange(0, written.len() as int));
    } else {
        assert(whole[head.len() as int] == '\\');
        assert(written[head.len() as int] != '\\');
        differs_at(whole, token, head.len() as int);
    }
}

/// Which token starts a text does not depend on what follows the text
/// behind a backslash.
proof fn start_ignores_tail(head: Seq<char>, tail: Seq<char>)
    requires
        head.len() > 0,
        tail.len() > 0,
        tail[0] == '\\',
    ensures
        token_at(head + tail) == token_at(head),
{
    same_start(head, tail, Token::LineBreak);
    same_start(head, tail, Token::Artist);
    same_start(head, tail, Token::Album);
    same_start(head, tail, Token::Title);
    same_start(head, tail, Token::Date);
}

/// An escape with what follows it begins with a backslash.
proof fn escape_leads(behind: Seq<char>)
    ensures
        ("\\n"@ + behind).len() > 0,
        ("\\n"@ + behind)[0] == '\\',
{
    token_shapes();
}

/// How many characters the first step of filling takes from `text`.
pub open spec fn first_length(text: Seq<char>) -> int {
    match token_at(text) {
        Some(token) => token_text(token).len() as int,
        None => 1,
    }
}

/// What the first step of filling puts out for `text`.
pub open spec fn first_output(text: Seq<char>, fields: Fields) -> Seq<char> {
    match token_at(text) {
        Some(token) => value_of(token, fields),
        None => seq![text[0]],
    }
}

/// The first step of filling a text that is not empty.
proof fn first_step(text: Seq<char>, fields: Fields)
    requires
        text.len() > 0,
    ensures
        0 < first_length(text) <= text.len(),
        fill_with(text, fields) == first_output(text, fields) + fill_with(
            text.skip(first_length(text)),
            fields,
        ),
{
}

/// The first step on a text does not depend on what follows the text
/// behind an escape.
proof fn first_step_ignores_escape(before: Seq<char>, behind: Seq<char>, fields: Fields)
    requires
        before.len() > 0,
    ensures
        first_length(before + "\\n"@ + behind) == first_length(before),
        first_output(before + "\\n"@ + behind, fields) == first_output(before, fields),
        (before + "\\n"@ + behind).skip(first_length(before)) == before.skip(first_length(before))
            + "\\n"@ + behind,
{
    let tail = "\\n"@ + behind;
    let whole = before + "\\n"@ + behind;
    assert(whole =~= before + tail);
    escape_leads(behind);
    start_ignores_tail(before, tail);
    first_step(before, fields);
    assert(whole[0] == before[0]);
    assert(whole.skip(first_length(before)) =~= before.skip(first_length(before)) + "\\n"@
        + behind);
}

/// Putting a text in front commutes with appending a line break and more.
proof fn glue(put: Seq<char>, inner: Seq<char>, after: Seq<char>)
    ensures
        put + (inner + "\n"@ + after) == (put + inner) + "\n"@ + after,
{
    assert(put + (inner + "\n"@ + after) =~= (put + inner) + "\n"@ + after);
}

/// An escape that stands first gives a line break, and the rest follows.
proof fn escape_first(before: Seq<char>, behind: Seq<char>, fields: Fields)
    requires
        before.len() == 0,
    ensures
        fill_with(before + "\\n"@ + behind, fields) == fill_with(before, fields) + "\n"@
            + fill_with(behind, fields),
{
    assert(before + "\\n"@ + behind =~= "\\n"@ + behind);
    token_passes(Token::LineBreak, behind, fields);
    assert(fill_with(before, fields) =~= Seq::<char>::empty());
    assert(fill_with(before, fields) + "\n"@ + fill_with(behind, fields) =~= "\n"@ + fill_with(
        behind,
        fields,
    ));
}

/// A line-break escape cuts a template in two: what stands before it and
/// what stands behind it are filled each by itself.
proof fn escape_cuts(before: Seq<char>, behind: Seq<char>, fields: Fields)
    ensures
        fill_with(before + "\\n"@ + behind, fields) == fill_with(before, fields) + "\n"@
            + fill_with(behind, fields),
    decreases before.len(),
{
    if before.len() == 0 {
        escape_first(before, behind, fields);
    } else {
        let whole = before + "\\n"@ + behind;
        let length = first_length(before);
        first_step(before, fields);
        first_step_ignores_escape(before, behind, fields);
        first_step(whole, fields);
        escape_cuts(before.skip(length), behind, fields);
        glue(
            first_output(before, fields),
            fill_with(before.skip(length), fields),
            fill_with(behind, fields),
        );
    }
}

/// Line breaks stand exactly where the escape stood, for every template and
/// all values: a template that is cut at line-break escapes into parts is
/// filled part by part, with one line break between each two parts.
pub proof fn line_breaks_stand(parts: Seq<Seq<char>>, fields: Fields)
    requires
        parts.len() > 0,
    ensures
        fill_with(joined(parts, "\\n"@), fields) == joined(each_filled(parts, fields), "\n"@),
    decreases parts.len(),
{
    let done = each_filled(parts, fields);
    if parts.len() > 1 {
        let rest = parts.skip(1);
        line_breaks_stand(rest, fields);
        assert(done.skip(1) =~= each_filled(rest, fields));
        escape_cuts(parts[0], joined(rest, "\\n"@), fields);
    }
}

/// Filling a part that holds no escape and no line break, with values that
/// hold no line break, gives a text without a line break.
proof fn part_stays_unbroken(part: Seq<char>, fields: Fields)
    requires
        unbroken_part(part),
        unbroken_fields(fields),
    ensures
        free_of(fill_with(part, fields), '\n'),
    decreases part.len(),
{
    token_shapes();
    if part.len() > 0 {
        assert(part.skip(0) =~= part);
        assert(!starts_with(part.skip(0), "\\n"@));
        let step: int = match token_at(part) {
            Some(token) => token_text(token).len() as int,
            None => 1,
        };
        let rest = part.skip(step);
        assert forall|i: int| 0 <= i <= rest.len() implies !#[trigger] starts_with(
            rest.skip(i),
            "\\n"@,
        ) by {
            assert(rest.skip(i) =~= part.skip(step + i));
        }
        part_stays_unbroken(rest, fields);
    }
}

proof fn count_adds(front: Seq<char>, back: Seq<char>, c: char)
    ensures
        count_of(front + back, c) == count_of(front, c) + count_of(back, c),
    decreases front.len(),
{
    if front.len() == 0 {
        assert(front + back =~= back);
    } else {
        assert((front + back).skip(1) =~= front.skip(1) + back);
        count_adds(front.skip(1), back, c);
    }
}

proof fn free_counts_nothing(text: Seq<char>, c: char)
    requires
        free_of(text, c),
    ensures
        count_of(text, c) == 0,
    decreases text.len(),
{
    if text.len() > 0 {
        assert forall|i: int| 0 <= i < text.skip(1).len() implies text.skip(1)[i] != c by {
            assert(text.skip(1)[i] == text[i + 1]);
        }
        free_counts_nothing(text.skip(1), c);
    }
}

proof fn joined_counts(lines: Seq<Seq<char>>)
    requires
        lines.len() > 0,
        forall|i: int| 0 <= i < lines.len() ==> free_of(#[trigger] lines[i], '\n'),
    ensures
        count_of(joined(lines, "\n"@), '\n') == lines.len() - 1,
    decreases lines.len(),
{
    token_shapes();
    free_counts_nothing(lines[0], '\n');
    if lines.len() > 1 {
        let rest = lines.skip(1);
        assert forall|i: int| 0 <= i < rest.len() implies free_of(#[trigger] rest[i], '\n') by {
            assert(rest[i] == lines[i + 1]);
        }
        joined_counts(rest);
        count_adds(lines[0] + "\n"@, joined(rest, "\n"@), '\n');
        count_adds(lines[0], "\n"@, '\n');
        assert(count_of("\n"@, '\n') == 1) by {
            reveal_with_fuel(count_of, 2);
            assert("\n"@.skip(1).len() == 0);
        }
    }
}

/// Line breaks are counted: where the parts of a template hold neither the
/// escape nor a line break, and no value holds a line break, no filled part
/// holds one, and the filled template holds exactly one line break for each
/// escape of the template.
pub proof fn line_breaks_are_counted(parts: Seq<Seq<char>>, fields: Fields)
    requires
        parts.len() > 0,
        forall|i: int| 0 <= i < parts.len() ==> unbroken_part(#[trigger] parts[i]),
        unbroken_fields(fields),
    ensures
        forall|i: int|
            0 <= i < parts.len() ==> free_of(#[trigger] each_filled(parts, fields)[i], '\n'),
        count_of(fill_with(joined(parts, "\\n"@), fields), '\n') == parts.len() - 1,
{
    let done = each_filled(parts, fields);
    assert forall|i: int| 0 <= i < parts.len() implies free_of(#[trigger] done[i], '\n') by {
        assert(unbroken_part(parts[i]));
        part_stays_unbroken(parts[i], fields);
    }
    line_breaks_stand(parts, fields);
    joined_counts(done);
}

/// How many line-break escapes stand in `template`.
pub open spec fn escapes_in(template: Seq<char>) -> nat
    decreases template.len(),
{
    if template.len() == 0 {
        0
    } else if token_starts(template, Token::LineBreak) {
        1 + escapes_in(template.skip(1))
    } else {
        escapes_in(template.skip(1))
    }
}

/// The template cut at its line-break escapes: the parts between them, in
/// order, one more than there are escapes.
pub open spec fn cut(template: Seq<char>) -> Seq<Seq<char>>
    decreases template.len(),
{
    if template.len() == 0 {
        seq![Seq::empty()]
    } else if token_starts(template, Token::LineBreak) {
        seq![Seq::empty()] + cut(template.skip(token_text(Token::LineBreak).len() as int))
    } else {
        let rest = cut(template.skip(1));
        seq![seq![template[0]] + rest[0]] + rest.skip(1)
    }
}

/// A text shorter than the escape holds none.
proof fn short_holds_no_escape(text: Seq<char>)
    requires
        text.len() < 2,
    ensures
        !occurs_in(text, "\\n"@),
{
    token_shapes();
}

/// Cutting is sound: the parts with the escape between them give the
/// template back, there is one part more than escapes, and a template
/// without line breaks has parts that hold neither a line break nor an
/// escape.
#[verifier::rlimit(40)]
proof fn cut_is_sound(template: Seq<char>)
    ensures
        cut(template).len() == escapes_in(template) + 1,
        joined(cut(template), "\\n"@) == template,
        free_of(template, '\n') ==> forall|i: int|
            0 <= i < cut(template).len() ==> unbroken_part(#[trigger] cut(template)[i]),
    decreases template.len(),
{
    token_shapes();
    let escape = "\\n"@;
    let parts = cut(template);
    let nothing = Seq::<char>::empty();
    short_holds_no_escape(nothing);
    if template.len() == 0 {
        assert(joined(parts, escape) =~= template);
    } else if token_starts(template, Token::LineBreak) {
        let behind = template.skip(2);
        let rest = cut(behind);
        cut_is_sound(behind);
        assert(parts.skip(1) =~= rest);
        assert(template.subrange(0, 2) =~= escape);
        assert(nothing + escape + behind =~= template);
        assert(escapes_in(template.skip(1)) == escapes_in(behind)) by {
            let shifted = template.skip(1);
            assert(shifted[0] == 'n');
            differs_at(shifted, Token::LineBreak, 0);
            assert(shifted.skip(1) =~= behind);
        }
        if free_of(template, '\n') {
            assert forall|i: int| 0 <= i < parts.len() implies unbroken_part(
                #[trigger] parts[i],
            ) by {
                if i > 0 {
                    assert(parts[i] == rest[i - 1]);
                }
            }
        }
    } else {
        let behind = template.skip(1);
        let rest = cut(behind);
        let first = seq![template[0]] + rest[0];
        cut_is_sound(behind);
        assert(parts.skip(1) =~= rest.skip(1));
        assert(seq![template[0]] + behind =~= template);
        if rest.len() == 1 {
            assert(joined(parts, escape) =~= seq![template[0]] + joined(rest, escape));
        } else {
            assert(first + escape + joined(rest.skip(1), escape) =~= seq![template[0]] + (rest[0]
                + escape + joined(rest.skip(1), escape)));
        }
        if free_of(template, '\n') {
            assert(unbroken_part(rest[0]));
            assert forall|i: int| 0 <= i <= first.len() implies !#[trigger] starts_with(
                first.skip(i),
                escape,
            ) by {
                if starts_with(first.skip(i), escape) {
                    if i == 0 {
                        assert(first.skip(0) =~= first);
                        assert(first.subrange(0, 2)[0] == '\\');
                        assert(first.subrange(0, 2)[1] == 'n');
                        assert(joined(rest, escape)[0] == rest[0][0]);
                        assert(template.subrange(0, 2) =~= escape);
                    } else {
                        assert(first.skip(i) =~= rest[0].skip(i - 1));
                    }
                }
            }
            assert forall|i: int| 0 <= i < parts.len() implies unbroken_part(
                #[trigger] parts[i],
            ) by {
                if i > 0 {
                    assert(parts[i] == rest[i]);
                }
            }
        }
    }
}

/// Every template keeps its line breaks: it is the parts between its
/// escapes, filled each by itself, with one line break where each escape
/// stood. Where neither the template nor a value holds a line break, the
/// result holds exactly as many line breaks as the template holds escapes.
pub proof fn every_template_keeps_its_line_breaks(template: Seq<char>, fields: Fields)
    ensures
        joined(cut(template), "\\n"@) == template,
        cut(template).len() == escapes_in(template) + 1,
        fill_with(template, fields) == joined(each_filled(cut(template), fields), "\n"@),
        free_of(template, '\n') && unbroken_fields(fields) ==> count_of(
            fill_with(template, fields),
            '\n',
        ) == escapes_in(template),
{
    cut_is_sound(template);
    line_breaks_stand(cut(template), fields);
    if free_of(template, '\n') && unbroken_fields(fields) {
        line_breaks_are_counted(cut(template), fields);
    }
}

} // verus!
