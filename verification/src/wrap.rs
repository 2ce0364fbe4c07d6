//! Wrapping a text into the lines of a box.

use crate::text::{
    chars_of, join_with, joined_with, push_all, slice_chars, split_words, string_of,
    string_of_range, texts, words,
};
use vstd::prelude::*;

verus! {

/// What stands in the place of the lines that do not fit.
pub const TRUNCATION_MARK: &'static str = "... (truncated)";

/// The first index at or after `i` that holds a line feed, or the length.
pub open spec fn line_end(s: Seq<char>, i: int) -> int
    decreases s.len() - i,
{
    if 0 <= i < s.len() && s[i] != '\n' {
        line_end(s, i + 1)
    } else {
        i
    }
}

pub proof fn lemma_line_end(s: Seq<char>, i: int)
    requires
        0 <= i <= s.len(),
    ensures
        i <= line_end(s, i) <= s.len(),
        line_end(s, i) < s.len() ==> s[line_end(s, i)] == '\n',
    decreases s.len() - i,
{
    if i < s.len() && s[i] != '\n' {
        lemma_line_end(s, i + 1);
    }
}

/// The line `s[from..to]` without its line ending: a carriage return
/// before the line feed goes with the line feed.
pub open spec fn line_text(s: Seq<char>, from: int, to: int) -> Seq<char> {
    if to < s.len() && from < to && s[to - 1] == '\r' {
        s.subrange(from, to - 1)
    } else {
        s.subrange(from, to)
    }
}

/// The lines of `s` from index `i` on. A line ends at a line feed or at
/// the end of the text; after a last line feed no empty line follows.
pub open spec fn lines_from(s: Seq<char>, i: int) -> Seq<Seq<char>>
    decreases s.len() + 1 - i,
{
    if i < 0 || i >= s.len() {
        Seq::empty()
    } else {
        proof {
            lemma_line_end(s, i);
        }
        seq![line_text(s, i, line_end(s, i))] + lines_from(s, line_end(s, i) + 1)
    }
}

/// The pieces of `width` characters that `word` starts with, behind
/// `out`, and what is left of the word after them.
pub open spec fn chunked(word: Seq<char>, width: nat, out: Seq<Seq<char>>) -> (
    Seq<Seq<char>>,
    Seq<char>,
)
    decreases word.len(),
{
    if width > 0 && word.len() >= width {
        chunked(word.skip(width as int), width, out.push(word.take(width as int)))
    } else {
        (out, word)
    }
}

/// The finished lines and the line in the making after `word` was
/// placed. A word that is longer than the width ends the line in the
/// making and is cut into pieces of the width, the last of which begins
/// a new line. Any other word goes behind the line in the making after a
/// space where that fits, and else begins a new line.
pub open spec fn place_word(
    out: Seq<Seq<char>>,
    current: Seq<char>,
    word: Seq<char>,
    width: nat,
) -> (Seq<Seq<char>>, Seq<char>) {
    if word.len() > width {
        chunked(
            word,
            width,
            if current.len() > 0 {
                out.push(current)
            } else {
                out
            },
        )
    } else {
        let candidate = if current.len() == 0 {
            word
        } else {
            current + seq![' '] + word
        };
        if candidate.len() <= width {
            (out, candidate)
        } else {
            (out.push(current), word)
        }
    }
}

/// The finished lines and the line in the making after the words from
/// index `i` on were placed, in order.
pub open spec fn place_words(
    all: Seq<Seq<char>>,
    i: int,
    out: Seq<Seq<char>>,
    current: Seq<char>,
    width: nat,
) -> (Seq<Seq<char>>, Seq<char>)
    decreases all.len() - i,
{
    if i < 0 || i >= all.len() {
        (out, current)
    } else {
        let placed = place_word(out, current, all[i], width);
        place_words(all, i + 1, placed.0, placed.1, width)
    }
}

/// The lines after the line `raw` was wrapped behind `out`: an empty line
/// stays an empty line, and the words of any other line fill lines of at
/// most `width` characters.
pub open spec fn wrap_line(raw: Seq<char>, out: Seq<Seq<char>>, width: nat) -> Seq<Seq<char>> {
    if raw.len() == 0 {
        out.push(Seq::empty())
    } else {
        let placed = place_words(words(raw), 0, out, Seq::empty(), width);
        if placed.1.len() > 0 {
            placed.0.push(placed.1)
        } else {
            placed.0
        }
    }
}

/// The lines after the lines from index `i` on were wrapped behind `out`.
pub open spec fn wrap_lines(all: Seq<Seq<char>>, i: int, out: Seq<Seq<char>>, width: nat) -> Seq<
    Seq<char>,
>
    decreases all.len() - i,
{
    if i < 0 || i >= all.len() {
        out
    } else {
        wrap_lines(all, i + 1, wrap_line(all[i], out, width), width)
    }
}

/// The lines of `input` wrapped at `width` characters.
pub open spec fn wrapped(input: Seq<char>, width: nat) -> Seq<Seq<char>> {
    wrap_lines(lines_from(input, 0), 0, Seq::empty(), width)
}

/// The lines `full` as far as `max_lines` lines hold them: where they do
/// not hold all, the mark stands in the last line.
pub open spec fn truncated(full: Seq<Seq<char>>, max_lines: nat) -> Seq<Seq<char>> {
    if full.len() > max_lines {
        full.take(max_lines - 1).push(TRUNCATION_MARK@)
    } else {
        full
    }
}

/// `input` wrapped at `width` characters into at most `max_lines` lines.
/// A box without width or without lines shows only the mark.
pub open spec fn wrapped_text(input: Seq<char>, width: nat, max_lines: nat) -> Seq<char> {
    if width == 0 || max_lines == 0 {
        TRUNCATION_MARK@
    } else {
        joined_with(truncated(wrapped(input, width), max_lines), "\n"@)
    }
}

/// The lines of `s`.
pub fn split_lines(s: &Vec<char>) -> (out: Vec<String>)
    ensures
        texts(out@) == lines_from(s@, 0),
{
    let mut out: Vec<String> = Vec::new();
    let mut i: usize = 0;
    assert(texts(out@) =~= Seq::<Seq<char>>::empty());
    while i < s.len()
        invariant
            i <= s.len(),
            texts(out@) + lines_from(s@, i as int) == lines_from(s@, 0),
        decreases s.len() - i,
    {
        let mut end: usize = i;
        while end < s.len() && s[end] != '\n'
            invariant
                i <= end <= s.len(),
                line_end(s@, i as int) == line_end(s@, end as int),
            decreases s.len() - end,
        {
            end += 1;
        }
        let stop: usize = if end < s.len() && i < end && s[end - 1] == '\r' {
            end - 1
        } else {
            end
        };
        let line = string_of_range(s, i, stop);
        let ghost before = texts(out@);
        out.push(line);
        proof {
            assert(line@ == line_text(s@, i as int, end as int));
            assert(texts(out@) =~= before.push(line@));
            assert(before.push(line@) + lines_from(s@, end + 1) =~= before + (seq![line@]
                + lines_from(s@, end + 1)));
        }
        if end >= s.len() {
            assert(texts(out@) + Seq::<Seq<char>>::empty() =~= texts(out@));
            return out;
        }
        i = end + 1;
    }
    assert(texts(out@) + Seq::<Seq<char>>::empty() =~= texts(out@));
    out
}

/// Cuts the pieces of `width` characters off the front of `word` and
/// puts them behind `out`; what is left of the word is handed out.
fn push_chunks(out: &mut Vec<String>, word: &Vec<char>, width: usize) -> (rest: Vec<char>)
    requires
        width > 0,
    ensures
        (texts(final(out)@), rest@) == chunked(word@, width as nat, texts(old(out)@)),
        rest@.len() < width,
{
    let mut from: usize = 0;
    assert(word@.skip(0) =~= word@);
    while word.len() - from >= width
        invariant
            from <= word.len(),
            width > 0,
            chunked(word@.skip(from as int), width as nat, texts(out@)) == chunked(
                word@,
                width as nat,
                texts(old(out)@),
            ),
        decreases word.len() - from,
    {
        let piece = string_of_range(word, from, from + width);
        let ghost before = texts(out@);
        let ghost rest = word@.skip(from as int);
        out.push(piece);
        proof {
            assert(piece@ =~= rest.take(width as int));
            assert(texts(out@) =~= before.push(piece@));
            assert(rest.skip(width as int) =~= word@.skip(from + width));
        }
        from += width;
    }
    let rest = slice_chars(word, from, word.len());
    assert(rest@ =~= word@.skip(from as int));
    rest
}

/// Wraps the line `raw` behind `out`.
fn push_wrapped_line(out: &mut Vec<String>, raw: &Vec<char>, width: usize)
    requires
        width > 0,
    ensures
        texts(final(out)@) == wrap_line(raw@, texts(old(out)@), width as nat),
{
    if raw.len() == 0 {
        let ghost before = texts(out@);
        out.push(String::new());
        assert(texts(out@) =~= before.push(Seq::empty()));
        return ;
    }
    let all = split_words(raw);
    let mut current: Vec<char> = Vec::new();
    let mut i: usize = 0;
    while i < all.len()
        invariant
            i <= all.len(),
            width > 0,
            texts(all@) == words(raw@),
            current@.len() <= width,
            place_words(texts(all@), i as int, texts(out@), current@, width as nat)
                == place_words(texts(all@), 0, texts(old(out)@), Seq::empty(), width as nat),
        decreases all.len() - i,
    {
        let word = chars_of(all[i].as_str());
        assert(texts(all@)[i as int] == word@);
        let ghost before = texts(out@);
        if word.len() > width {
            if current.len() > 0 {
                out.push(string_of(&current));
                assert(texts(out@) =~= before.push(current@));
            }
            current = push_chunks(out, &word, width);
        } else if current.len() == 0 {
            current = word;
        } else if current.len() < width && word.len() <= width - current.len() - 1 {
            let ghost start = current@;
            current.push(' ');
            push_all(&mut current, &word);
            assert(current@ =~= start + seq![' '] + word@);
        } else {
            out.push(string_of(&current));
            assert(texts(out@) =~= before.push(current@));
            current = word;
        }
        i += 1;
    }
    if current.len() > 0 {
        let ghost before = texts(out@);
        out.push(string_of(&current));
        assert(texts(out@) =~= before.push(current@));
    }
}

/// Wraps `input` at `width` characters by words and keeps at most
/// `max_lines` lines; where not all lines fit, the mark stands in the
/// last line that is kept.
pub fn wrap_and_truncate_text(input: &str, width: usize, max_lines: usize) -> (r: String)
    ensures
        r@ == wrapped_text(input@, width as nat, max_lines as nat),
{
    if width == 0 || max_lines == 0 {
        return TRUNCATION_MARK.to_owned();
    }
    let chars = chars_of(input);
    let lines = split_lines(&chars);
    let mut out: Vec<String> = Vec::new();
    assert(texts(out@) =~= Seq::<Seq<char>>::empty());
    let mut i: usize = 0;
    while i < lines.len()
        invariant
            i <= lines.len(),
            width > 0,
            wrap_lines(texts(lines@), i as int, texts(out@), width as nat) == wrap_lines(
                texts(lines@),
                0,
                Seq::empty(),
                width as nat,
            ),
        decreases lines.len() - i,
    {
        let raw = chars_of(lines[i].as_str());
        assert(texts(lines@)[i as int] == raw@);
        push_wrapped_line(&mut out, &raw, width);
        i += 1;
    }
    if out.len() > max_lines {
        let ghost full = texts(out@);
        out.truncate(max_lines - 1);
        assert(texts(out@) =~= full.take(max_lines - 1));
        let ghost kept = texts(out@);
        out.push(TRUNCATION_MARK.to_owned());
        assert(texts(out@) =~= kept.push(TRUNCATION_MARK@));
    }
    join_with(&out, "\n")
}

} // verus!
