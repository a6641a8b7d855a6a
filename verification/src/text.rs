//! Operations on text: comparing, cutting, joining, trimming and
//! replacing.

use vstd::prelude::*;

verus! {

/// The upper-case form that the standard library gives to a text.
pub uninterp spec fn uppercase(s: Seq<char>) -> Seq<char>;

/// The lower-case form that the standard library gives to a text.
pub uninterp spec fn lowercase(s: Seq<char>) -> Seq<char>;

/// Whether the standard library counts a character as white space.
pub uninterp spec fn white_space(c: char) -> bool;

/// A text without the white space at its start.
pub open spec fn without_leading_space(s: Seq<char>) -> Seq<char>
    decreases s.len(),
{
    if s.len() > 0 && white_space(s.first()) {
        without_leading_space(s.drop_first())
    } else {
        s
    }
}

/// A text without the white space at its end.
pub open spec fn without_trailing_space(s: Seq<char>) -> Seq<char>
    decreases s.len(),
{
    if s.len() > 0 && white_space(s.last()) {
        without_trailing_space(s.drop_last())
    } else {
        s
    }
}

/// A text without the white space at both ends.
pub open spec fn trimmed(s: Seq<char>) -> Seq<char> {
    without_trailing_space(without_leading_space(s))
}

/// The pieces that `s` falls into when it is cut at each `sep`: one more
/// than there are separators in it, so that a text without a separator is
/// one piece, and an empty text one empty piece.
pub open spec fn pieces(s: Seq<char>, sep: char) -> Seq<Seq<char>>
    decreases s.len(),
{
    if s.len() == 0 {
        seq![Seq::empty()]
    } else {
        let before = pieces(s.drop_last(), sep);
        if s.last() == sep {
            before.push(Seq::empty())
        } else {
            before.drop_last().push(before.last().push(s.last()))
        }
    }
}

/// A line without the carriage return at its end, if it has one there.
pub open spec fn without_carriage_return(line: Seq<char>) -> Seq<char> {
    if line.len() > 0 && line.last() == '\r' {
        line.drop_last()
    } else {
        line
    }
}

/// The lines of a text. A line ends at a line feed; the line feed, and a
/// carriage return just before it, are no part of the line. What follows
/// the last line feed is a line too, unless it is empty.
pub open spec fn lines_of(s: Seq<char>) -> Seq<Seq<char>> {
    let parts = pieces(s, '\n');
    let ended = parts.drop_last().map_values(|line: Seq<char>| without_carriage_return(line));
    if parts.last().len() > 0 {
        ended.push(parts.last())
    } else {
        ended
    }
}

/// The text `s` with each occurrence of `from` replaced by `to`:
/// occurrences are looked for from left to right, each behind the one
/// before it. An empty `from` is not looked for.
pub open spec fn replaced(s: Seq<char>, from: Seq<char>, to: Seq<char>) -> Seq<char>
    decreases s.len(),
{
    if from.len() == 0 || s.len() < from.len() {
        s
    } else if from.is_prefix_of(s) {
        to + replaced(s.skip(from.len() as int), from, to)
    } else {
        seq![s.first()] + replaced(s.drop_first(), from, to)
    }
}

/// The characters of each text of a list.
pub open spec fn texts(list: Seq<String>) -> Seq<Seq<char>> {
    list.map_values(|s: String| s@)
}

/// The texts of `parts` in order, with `sep` between each two.
pub open spec fn joined(parts: Seq<Seq<char>>, sep: Seq<char>) -> Seq<char>
    decreases parts.len(),
{
    if parts.len() == 0 {
        Seq::empty()
    } else if parts.len() == 1 {
        parts[0]
    } else {
        joined(parts.drop_last(), sep) + sep + parts.last()
    }
}

/// Whether `needle` occurs in `s` as a run of consecutive characters.
pub open spec fn occurs_in(needle: Seq<char>, s: Seq<char>) -> bool {
    exists|i: int|
        0 <= i && i + needle.len() <= s.len() && #[trigger] s.subrange(i, i + needle.len())
            == needle
}

/// Whether two texts hold the same characters in the same order.
pub fn str_equal(a: &str, b: &str) -> (same: bool)
    ensures
        same == (a@ == b@),
{
    a.to_owned() == b.to_owned()
}

/// Calls `str::to_uppercase`. The contract only names the result: the
/// case mapping is the standard library's.
#[verifier::external_body]
pub(crate) fn to_upper(s: &str) -> (upper: String)
    ensures
        upper@ == uppercase(s@),
{
    s.to_uppercase()
}

/// Calls `str::to_lowercase`. The contract only names the result: the
/// case mapping is the standard library's.
#[verifier::external_body]
pub(crate) fn to_lower(s: &str) -> (lower: String)
    ensures
        lower@ == lowercase(s@),
{
    s.to_lowercase()
}

/// Calls `char::is_whitespace`. The contract only names the result:
/// which characters count as white space is the standard library's.
#[verifier::external_body]
pub(crate) fn is_white_space(c: char) -> (found: bool)
    ensures
        found == white_space(c),
{
    c.is_whitespace()
}

/// Whether the characters of `prefix` are the first characters of `s`.
pub fn has_prefix(s: &str, prefix: &str) -> (found: bool)
    ensures
        found == prefix@.is_prefix_of(s@),
{
    let len: usize = prefix.unicode_len();
    if s.unicode_len() < len {
        false
    } else {
        str_equal(s.substring_char(0, len), prefix)
    }
}

/// Whether the characters of `needle` occur consecutively somewhere in
/// `s`.
pub fn has_infix(s: &str, needle: &str) -> (found: bool)
    ensures
        found == occurs_in(needle@, s@),
{
    let len: usize = s.unicode_len();
    let width: usize = needle.unicode_len();
    if len < width {
        return false;
    }
    let last: usize = len - width;
    let mut i: usize = 0;
    while i < last
        invariant
            len == s@.len(),
            width == needle@.len(),
            last == len - width,
            i <= last,
            forall|j: int| 0 <= j < i ==> #[trigger] s@.subrange(j, j + width) != needle@,
        decreases last - i,
    {
        if str_equal(s.substring_char(i, i + width), needle) {
            return true;
        }
        i += 1;
    }
    let found = str_equal(s.substring_char(last, len), needle);
    proof {
        if found {
            assert(s@.subrange(last as int, last + needle@.len()) == needle@);
        } else {
            assert forall|j: int| 0 <= j && j + needle@.len() <= s@.len() implies #[trigger] s@.subrange(
                j,
                j + needle@.len(),
            ) != needle@ by {
                if j == last {
                    assert(s@.subrange(j, j + needle@.len()) == s@.subrange(last as int, len as int));
                }
            }
        }
    }
    found
}

/// A text without the white space at its start is empty or starts with
/// a character that is no white space.
pub proof fn lemma_leading_space_is_gone(s: Seq<char>)
    ensures
        without_leading_space(s).len() == 0 || !white_space(without_leading_space(s).first()),
    decreases s.len(),
{
    if s.len() > 0 && white_space(s.first()) {
        lemma_leading_space_is_gone(s.drop_first());
    }
}

/// A text without the white space at its end is empty or ends with a
/// character that is no white space, and starts as the text starts.
pub proof fn lemma_trailing_space_is_gone(s: Seq<char>)
    ensures
        without_trailing_space(s).len() == 0 || !white_space(without_trailing_space(s).last()),
        without_trailing_space(s).len() > 0 ==> without_trailing_space(s).first() == s.first(),
    decreases s.len(),
{
    if s.len() > 0 && white_space(s.last()) {
        lemma_trailing_space_is_gone(s.drop_last());
    }
}

/// A trimmed text has no white space at either end, so that trimming it
/// again changes nothing.
pub proof fn lemma_trimming_twice_is_trimming_once(s: Seq<char>)
    ensures
        trimmed(s).len() > 0 ==> !white_space(trimmed(s).first()) && !white_space(trimmed(s).last()),
        trimmed(trimmed(s)) == trimmed(s),
{
    lemma_leading_space_is_gone(s);
    lemma_trailing_space_is_gone(without_leading_space(s));
}

/// Takes the white space off both ends of a text.
pub fn trim_text(s: &str) -> (rest: String)
    ensures
        rest@ == trimmed(s@),
{
    let len: usize = s.unicode_len();
    let mut start: usize = 0;
    let mut scanning = true;
    assert(s@.subrange(0, len as int) =~= s@);
    while scanning && start < len
        invariant
            len == s@.len(),
            start <= len,
            without_leading_space(s@) == without_leading_space(s@.subrange(start as int, len as int)),
            !scanning ==> start < len && !white_space(s@[start as int]),
        decreases len - start + (if scanning { 1int } else { 0int }),
    {
        let ghost rest = s@.subrange(start as int, len as int);
        if is_white_space(s.get_char(start)) {
            assert(rest.first() == s@[start as int]);
            assert(rest.drop_first() =~= s@.subrange(start + 1, len as int));
            start += 1;
        } else {
            scanning = false;
        }
    }
    let ghost body = s@.subrange(start as int, len as int);
    assert(without_leading_space(s@) == body) by {
        if start < len {
            assert(body.first() == s@[start as int]);
        }
    }
    let mut end: usize = len;
    scanning = true;
    while scanning && end > start
        invariant
            len == s@.len(),
            start <= end <= len,
            without_trailing_space(body) == without_trailing_space(s@.subrange(start as int, end as int)),
            body == s@.subrange(start as int, len as int),
            !scanning ==> end > start && !white_space(s@[end - 1]),
        decreases end - start + (if scanning { 1int } else { 0int }),
    {
        let ghost rest = s@.subrange(start as int, end as int);
        if is_white_space(s.get_char(end - 1)) {
            assert(rest.last() == s@[end - 1]);
            assert(rest.drop_last() =~= s@.subrange(start as int, end - 1));
            end -= 1;
        } else {
            scanning = false;
        }
    }
    assert(without_trailing_space(body) == s@.subrange(start as int, end as int)) by {
        if end > start {
            assert(s@.subrange(start as int, end as int).last() == s@[end - 1]);
        }
    }
    s.substring_char(start, end).to_owned()
}

/// Cutting a text into pieces gives at least one piece.
pub proof fn lemma_pieces_are_not_none(s: Seq<char>, sep: char)
    ensures
        pieces(s, sep).len() >= 1,
    decreases s.len(),
{
    if s.len() > 0 {
        lemma_pieces_are_not_none(s.drop_last(), sep);
    }
}

/// The pieces of a text, joined with the separator that it was cut at,
/// are the text.
pub proof fn lemma_joined_pieces_are_the_text(s: Seq<char>, sep: char)
    ensures
        joined(pieces(s, sep), seq![sep]) == s,
    decreases s.len(),
{
    if s.len() == 0 {
        assert(joined(pieces(s, sep), seq![sep]) =~= s);
    } else {
        let before = pieces(s.drop_last(), sep);
        lemma_joined_pieces_are_the_text(s.drop_last(), sep);
        lemma_pieces_are_not_none(s.drop_last(), sep);
        if s.last() == sep {
            let all = before.push(Seq::<char>::empty());
            assert(all.drop_last() =~= before);
            assert(s.drop_last() + seq![sep] + Seq::<char>::empty() =~= s);
        } else {
            let front = before.drop_last();
            let grown = before.last().push(s.last());
            let all = front.push(grown);
            assert(all.drop_last() =~= front);
            if before.len() == 1 {
                assert(before.last() == before[0]);
                assert(grown =~= s);
            } else {
                assert(joined(front, seq![sep]) + seq![sep] + grown =~= (joined(front, seq![sep])
                    + seq![sep] + before.last()).push(s.last()));
                assert(s.drop_last().push(s.last()) =~= s);
            }
        }
    }
}

/// Cuts a text at each `sep`.
pub fn split_on(s: &str, sep: char) -> (parts: Vec<String>)
    ensures
        texts(parts@) == pieces(s@, sep),
{
    let len: usize = s.unicode_len();
    let mut parts: Vec<String> = Vec::new();
    let mut start: usize = 0;
    let mut i: usize = 0;
    assert(s@.subrange(0, 0) =~= Seq::<char>::empty());
    assert(texts(parts@).push(s@.subrange(0, 0)) =~= seq![Seq::<char>::empty()]);
    while i < len
        invariant
            len == s@.len(),
            start <= i <= len,
            texts(parts@).push(s@.subrange(start as int, i as int)) == pieces(
                s@.subrange(0, i as int),
                sep,
            ),
        decreases len - i,
    {
        let ghost done = texts(parts@);
        let ghost current = s@.subrange(start as int, i as int);
        let ghost longer = s@.subrange(0, i + 1);
        assert(longer.drop_last() =~= s@.subrange(0, i as int));
        assert(longer.last() == s@[i as int]);
        if s.get_char(i) == sep {
            let piece = s.substring_char(start, i).to_owned();
            parts.push(piece);
            start = i + 1;
            assert(texts(parts@) =~= done.push(current));
            assert(s@.subrange(start as int, i + 1) =~= Seq::<char>::empty());
        } else {
            assert(done.push(current).drop_last() =~= done);
            assert(s@.subrange(start as int, i + 1) =~= current.push(s@[i as int]));
        }
        i += 1;
    }
    let ghost done = texts(parts@);
    let piece = s.substring_char(start, len).to_owned();
    parts.push(piece);
    assert(texts(parts@) =~= done.push(s@.subrange(start as int, len as int)));
    assert(s@.subrange(0, len as int) =~= s@);
    parts
}

/// Takes the carriage return off the end of a line, if it has one there.
pub fn strip_carriage_return(line: &str) -> (rest: String)
    ensures
        rest@ == without_carriage_return(line@),
{
    let len: usize = line.unicode_len();
    if len > 0 && line.get_char(len - 1) == '\r' {
        let rest = line.substring_char(0, len - 1).to_owned();
        assert(line@.subrange(0, len - 1) =~= line@.drop_last());
        rest
    } else {
        line.to_owned()
    }
}

/// Cuts a text into its lines.
pub fn split_lines(s: &str) -> (lines: Vec<String>)
    ensures
        texts(lines@) == lines_of(s@),
{
    let parts = split_on(s, '\n');
    proof {
        lemma_pieces_are_not_none(s@, '\n');
    }
    let last: usize = parts.len() - 1;
    let mut lines: Vec<String> = Vec::new();
    let mut i: usize = 0;
    while i < last
        invariant
            last == parts@.len() - 1,
            i <= last,
            texts(lines@) == texts(parts@).subrange(0, i as int).map_values(
                |line: Seq<char>| without_carriage_return(line),
            ),
        decreases last - i,
    {
        let ghost done = texts(lines@);
        let line = strip_carriage_return(parts[i].as_str());
        lines.push(line);
        assert(texts(lines@) =~= done.push(without_carriage_return(parts@[i as int]@)));
        i += 1;
        assert(texts(lines@) =~= texts(parts@).subrange(0, i as int).map_values(
            |line: Seq<char>| without_carriage_return(line),
        ));
    }
    assert(texts(parts@).subrange(0, last as int) =~= texts(parts@).drop_last());
    if !parts[last].as_str().is_empty() {
        let ghost done = texts(lines@);
        lines.push(parts[last].clone());
        assert(texts(lines@) =~= done.push(parts@[last as int]@));
    }
    lines
}

/// Replaces each occurrence of `from` in `s` by `to`. Occurrences are
/// looked for from left to right, each behind the one before it; an empty
/// `from` occurs nowhere.
pub fn replace_all(s: &str, from: &str, to: &str) -> (text: String)
    ensures
        text@ == replaced(s@, from@, to@),
{
    let len: usize = s.unicode_len();
    let width: usize = from.unicode_len();
    if width == 0 {
        return s.to_owned();
    }
    let mut text = String::new();
    let mut i: usize = 0;
    assert(s@.skip(0) =~= s@);
    assert(text@ + replaced(s@, from@, to@) =~= replaced(s@, from@, to@));
    while i < len
        invariant
            len == s@.len(),
            width == from@.len(),
            width > 0,
            i <= len,
            replaced(s@, from@, to@) == text@ + replaced(s@.skip(i as int), from@, to@),
        decreases len - i,
    {
        let ghost rest = s@.skip(i as int);
        let ghost before = text@;
        if len - i >= width && str_equal(s.substring_char(i, i + width), from) {
            assert(rest.subrange(0, width as int) =~= s@.subrange(i as int, i + width));
            assert(from@.is_prefix_of(rest));
            assert(rest.skip(width as int) =~= s@.skip(i + width));
            text.append(to);
            i += width;
            assert(text@ + replaced(s@.skip(i as int), from@, to@) =~= before + (to@ + replaced(
                rest.skip(width as int),
                from@,
                to@,
            )));
        } else {
            assert(!from@.is_prefix_of(rest)) by {
                if len - i >= width {
                    assert(rest.subrange(0, width as int) =~= s@.subrange(i as int, i + width));
                }
            }
            assert(rest.drop_first() =~= s@.skip(i + 1));
            assert(replaced(rest, from@, to@) =~= seq![rest.first()] + replaced(
                rest.drop_first(),
                from@,
                to@,
            )) by {
                if rest.len() < width {
                    assert(replaced(rest.drop_first(), from@, to@) == rest.drop_first());
                }
            }
            text.append(s.substring_char(i, i + 1));
            assert(s@.subrange(i as int, i + 1) =~= seq![rest.first()]);
            i += 1;
            assert(text@ + replaced(s@.skip(i as int), from@, to@) =~= before + (seq![rest.first()]
                + replaced(rest.drop_first(), from@, to@)));
        }
    }
    assert(s@.skip(len as int) =~= Seq::<char>::empty());
    assert(text@ + Seq::<char>::empty() =~= text@);
    text
}

/// Joins the texts of `parts` in order, with `sep` between each two.
pub fn join(parts: &Vec<String>, sep: &str) -> (text: String)
    ensures
        text@ == joined(texts(parts@), sep@),
{
    let mut text = String::new();
    let mut i: usize = 0;
    while i < parts.len()
        invariant
            i <= parts@.len(),
            text@ == joined(texts(parts@).subrange(0, i as int), sep@),
        decreases parts@.len() - i,
    {
        let ghost done = texts(parts@).subrange(0, i as int);
        let ghost next = texts(parts@).subrange(0, i + 1);
        assert(next.drop_last() =~= done);
        assert(next.last() == parts@[i as int]@);
        if i > 0 {
            text.append(sep);
        }
        text.append(parts[i].as_str());
        assert(text@ =~= joined(next, sep@));
        i += 1;
    }
    assert(texts(parts@).subrange(0, i as int) =~= texts(parts@));
    text
}

} // verus!
