//! Text as sequences of characters: splitting a file into lines, cutting a
//! line to the width of the screen, and centring a message.
//!
//! A column is one character. Every function here is stated over `Seq<char>`,
//! the view of `str` and `String`.

use vstd::prelude::*;
use vstd::std_specs::iter::IteratorSpec;

verus! {

/// `String::push` appends one character and leaves the rest as it was.
pub assume_specification[ String::push ](s: &mut String, c: char)
    ensures
        final(s)@ == old(s)@.push(c),
;

/// The texts that a vector of strings holds, in order.
pub open spec fn texts(lines: Seq<String>) -> Seq<Seq<char>> {
    lines.map_values(|line: String| line@)
}

/// Whether `c` ends a line: a line feed or a carriage return.
pub open spec fn is_break(c: char) -> bool {
    c == '\n' || c == '\r'
}

/// The index of the first line feed or carriage return of `text` at or after
/// `from`, or the length of `text` where there is none.
pub open spec fn line_end(text: Seq<char>, from: int) -> int
    decreases text.len() - from,
{
    if from < 0 || from >= text.len() {
        text.len() as int
    } else if is_break(text[from]) {
        from
    } else {
        line_end(text, from + 1)
    }
}

/// The length of the line boundary that begins at index `at`: two for a
/// carriage return with a line feed directly behind it, else one.
pub open spec fn break_len(text: Seq<char>, at: int) -> int {
    if text[at] == '\r' && at + 1 < text.len() && text[at + 1] == '\n' {
        2
    } else {
        1
    }
}

/// The lines of `text` from index `from` on.
///
/// A line ends at a line feed, at a carriage return, or at a carriage return
/// with a line feed directly behind it, which is one boundary. A boundary
/// belongs to no line. What follows the last boundary is a line of its own
/// unless it is empty.
pub open spec fn lines_from(text: Seq<char>, from: int) -> Seq<Seq<char>>
    decreases text.len() - from,
{
    if from < 0 || from >= text.len() {
        Seq::empty()
    } else {
        let end = line_end(text, from);
        if end < text.len() {
            proof {
                lemma_line_end_bounds(text, from);
            }
            seq![text.subrange(from, end)] + lines_from(text, end + break_len(text, end))
        } else {
            seq![text.subrange(from, text.len() as int)]
        }
    }
}

/// The lines of `text`.
pub open spec fn lines_of(text: Seq<char>) -> Seq<Seq<char>> {
    lines_from(text, 0)
}

/// `text` cut to at most `width` columns.
pub open spec fn truncated(text: Seq<char>, width: nat) -> Seq<char> {
    if text.len() <= width {
        text
    } else {
        text.take(width as int)
    }
}

/// `count` spaces.
pub open spec fn spaces(count: nat) -> Seq<char> {
    Seq::new(count, |i: int| ' ')
}

/// `text` in the middle of `width` columns. The columns left over are filled
/// with spaces, half of them before the text; an odd one goes behind it. A
/// text of `width` columns or more is left as it is.
pub open spec fn centered(text: Seq<char>, width: nat) -> Seq<char> {
    if text.len() >= width {
        text
    } else {
        let fill = (width - text.len()) as nat;
        spaces(fill / 2) + text + spaces((fill - fill / 2) as nat)
    }
}

/// The end of a line lies between its start and the end of the text, at the
/// first character that ends a line.
pub proof fn lemma_line_end_bounds(text: Seq<char>, from: int)
    requires
        0 <= from <= text.len(),
    ensures
        from <= line_end(text, from) <= text.len(),
        line_end(text, from) < text.len() ==> is_break(text[line_end(text, from)]),
        forall|i: int| from <= i < line_end(text, from) ==> !is_break(text[i]),
    decreases text.len() - from,
{
    if from < text.len() && !is_break(text[from]) {
        lemma_line_end_bounds(text, from + 1);
    }
}

/// Splits `text` into its lines.
pub fn split_lines(text: &str) -> (lines: Vec<String>)
    ensures
        texts(lines@) == lines_of(text@),
{
    broadcast use vstd::string::group_string_axioms;

    let mut lines: Vec<String> = Vec::new();
    let mut current = String::new();
    let mut open = false;
    let mut after_cr = false;
    let mut chars = text.chars();
    let ghost mut seen: Seq<char> = Seq::empty();
    let ghost mut start: int = 0;
    assert(texts(lines@) + lines_from(text@, start) =~= lines_of(text@));
    loop
        invariant_except_break
            seen + chars.remaining() == text@,
            after_cr ==> seen.len() > 0 && text@[seen.len() - 1] == '\r' && start == seen.len() - 1
                + break_len(text@, seen.len() - 1),
            0 <= start,
            !after_cr ==> start <= seen.len(),
            after_cr ==> current@.len() == 0,
            !after_cr ==> current@ == text@.subrange(start, seen.len() as int),
            open == (!after_cr && start < seen.len()),
            !after_cr ==> line_end(text@, start) == line_end(text@, seen.len() as int),
            texts(lines@) + lines_from(text@, start) == lines_of(text@),
        ensures
            texts(lines@) == lines_of(text@),
        decreases text@.len() - seen.len(),
    {
        let ghost at = seen.len() as int;
        let ghost before = texts(lines@);
        match chars.next() {
            Some(c) => {
                assert(text@[at] == c);
                if after_cr && c == '\n' {
                    after_cr = false;
                    assert(start == at + 1);
                    assert(current@ =~= text@.subrange(start, at + 1));
                } else {
                    proof {
                        if after_cr {
                            assert(start == at);
                            assert(current@ =~= text@.subrange(start, at));
                        }
                    }
                    if c == '\n' || c == '\r' {
                        assert(line_end(text@, at) == at);
                        let ghost line = current@;
                        lines.push(current);
                        current = String::new();
                        open = false;
                        after_cr = c == '\r';
                        proof {
                            assert(texts(lines@) =~= before.push(line));
                            let next = at + break_len(text@, at);
                            assert(before.push(line) + lines_from(text@, next) =~= before + (seq![
                                line,
                            ] + lines_from(text@, next)));
                            start = next;
                            assert(current@ =~= text@.subrange(at + 1, at + 1));
                        }
                    } else {
                        current.push(c);
                        open = true;
                        after_cr = false;
                        assert(current@ =~= text@.subrange(start, at + 1));
                    }
                }
                proof {
                    seen = seen.push(c);
                }
            },
            None => {
                assert(seen =~= text@);
                if open {
                    let ghost line = current@;
                    lines.push(current);
                    assert(texts(lines@) =~= before.push(line));
                }
                assert(texts(lines@) =~= lines_of(text@));
                break ;
            },
        }
    }
    lines
}

/// Cuts `text` to at most `width` columns.
pub fn truncate(text: &str, width: usize) -> (out: String)
    ensures
        out@ == truncated(text@, width as nat),
{
    broadcast use vstd::string::group_string_axioms;

    let mut out = String::new();
    let mut chars = text.chars();
    let mut count: usize = 0;
    let ghost mut seen: Seq<char> = Seq::empty();
    while count < width
        invariant
            seen + chars.remaining() == text@,
            out@ == seen,
            count == seen.len(),
            count <= width,
        ensures
            out@ == truncated(text@, width as nat),
        decreases width - count,
    {
        match chars.next() {
            Some(c) => {
                out.push(c);
                count = count + 1;
                proof {
                    seen = seen.push(c);
                }
            },
            None => {
                assert(seen =~= text@);
                break ;
            },
        }
    }
    assert(out@ =~= truncated(text@, width as nat));
    out
}

/// Appends `count` spaces to `out`.
pub fn pad(out: &mut String, count: usize)
    ensures
        final(out)@ == old(out)@ + spaces(count as nat),
{
    let mut done: usize = 0;
    assert(out@ =~= old(out)@ + spaces(0));
    while done < count
        invariant
            done <= count,
            out@ == old(out)@ + spaces(done as nat),
        decreases count - done,
    {
        out.push(' ');
        done = done + 1;
        assert(out@ =~= old(out)@ + spaces(done as nat));
    }
}

/// Centres `text` in `width` columns.
pub fn center(text: &str, width: usize) -> (out: String)
    ensures
        out@ == centered(text@, width as nat),
{
    let len = text.unicode_len();
    let mut out = String::new();
    if len >= width {
        out.append(text);
        assert(out@ =~= text@);
    } else {
        let fill = width - len;
        let before = fill / 2;
        pad(&mut out, before);
        out.append(text);
        pad(&mut out, fill - before);
        assert(out@ =~= centered(text@, width as nat));
    }
    out
}

} // verus!
