//! The text form of a result set: one name per line.

use itertools::Itertools;
use vstd::prelude::*;
use vstd::std_specs::iter::IteratorSpec;
use vstd::string::StrSliceExecFns;
use crate::result_set::{names_of, record_all, ResultSet};

verus! {

/// The index of the first line feed of `text`, or the length of `text`
/// where it has none.
pub open spec fn line_end(text: Seq<char>) -> int
    decreases text.len(),
{
    if text.len() == 0 || text[0] == '\n' {
        0
    } else {
        1 + line_end(text.drop_first())
    }
}

/// `line` without the carriage return at its end, if it has one.
pub open spec fn without_cr(line: Seq<char>) -> Seq<char> {
    if line.len() > 0 && line.last() == '\r' {
        line.drop_last()
    } else {
        line
    }
}

/// The lines of `text`. A line ends at a line feed, or at a carriage return
/// followed by a line feed; neither belongs to the line. What follows the
/// last line feed is a line only if it is not empty, and then keeps a
/// carriage return at its end.
pub open spec fn lines_of(text: Seq<char>) -> Seq<Seq<char>>
    decreases text.len(),
{
    let end = line_end(text);
    if text.len() == 0 {
        Seq::empty()
    } else if 0 <= end < text.len() {
        seq![without_cr(text.take(end))] + lines_of(text.skip(end + 1))
    } else {
        seq![text]
    }
}

/// The parts of `parts`, first to last, with `sep` between each two.
pub open spec fn joined(parts: Seq<Seq<char>>, sep: Seq<char>) -> Seq<char>
    decreases parts.len(),
{
    if parts.len() == 0 {
        Seq::empty()
    } else if parts.len() == 1 {
        parts[0]
    } else {
        parts[0] + sep + joined(parts.drop_first(), sep)
    }
}

/// Whether a line of text can hold `name` and give it back: `name` is not
/// empty, holds no line feed and does not end in a carriage return.
pub open spec fn is_line(name: Seq<char>) -> bool {
    name.len() > 0 && !name.contains('\n') && name.last() != '\r'
}

/// Whether each name of `names` is one that a line of text can hold.
pub open spec fn all_lines(names: Seq<Seq<char>>) -> bool {
    forall|i: int| 0 <= i < names.len() ==> is_line(#[trigger] names[i])
}

/// Whether text gives `names` back as they were written: the lines of the
/// text that joins them by line feeds are `names`.
pub open spec fn storable(names: Seq<Seq<char>>) -> bool {
    lines_of(joined(names, seq!['\n'])) == names
}

/// `line_end` is the one index before which no line feed stands and at
/// which the text ends or a line feed stands.
pub proof fn lemma_line_end(text: Seq<char>, end: int)
    requires
        0 <= end <= text.len(),
        forall|i: int| 0 <= i < end ==> text[i] != '\n',
        end < text.len() ==> text[end] == '\n',
    ensures
        line_end(text) == end,
    decreases end,
{
    if end > 0 {
        lemma_line_end(text.drop_first(), end - 1);
    }
}

/// Splits `text` into its lines.
pub fn split_lines(text: &str) -> (lines: Vec<String>)
    ensures
        names_of(lines@) == lines_of(text@),
{
    let len = text.unicode_len();
    let mut lines: Vec<String> = Vec::new();
    let mut chars = text.chars();
    let mut start: usize = 0;
    let mut at: usize = 0;
    let mut after_cr = false;
    assert(text@.skip(0) =~= text@);
    while at < len
        invariant
            len == text@.len(),
            start <= at <= len,
            chars.remaining() == text@.skip(at as int),
            forall|i: int| start <= i < at ==> text@[i] != '\n',
            after_cr == (start < at && text@[at - 1] == '\r'),
            names_of(lines@) + lines_of(text@.skip(start as int)) == lines_of(text@),
        decreases len - at,
    {
        if let Some(c) = chars.next() {
            if c == '\n' {
                let end = if after_cr { at - 1 } else { at };
                let line = text.substring_char(start, end).to_owned();
                proof {
                    let rest = text@.skip(start as int);
                    lemma_line_end(rest, at - start);
                    assert(without_cr(rest.take(at - start)) =~= line@);
                    assert(rest.skip(at - start + 1) =~= text@.skip(at + 1));
                }
                lines.push(line);
                start = at + 1;
                after_cr = false;
            } else {
                after_cr = c == '\r';
            }
        }
        at += 1;
    }
    if start < at {
        let line = text.substring_char(start, at).to_owned();
        proof {
            lemma_line_end(text@.skip(start as int), at - start);
        }
        lines.push(line);
    }
    lines
}

/// Calls [`itertools::Itertools::join`] on the strings of `parts`. The call
/// returns the strings in their order, `sep` between each two and nothing
/// before the first or after the last: the empty string for no strings. It
/// reserves room for the separators in advance, by a product that stays in
/// range for a separator of one character.
#[verifier::external_body]
fn join(parts: &Vec<String>, sep: &str) -> (text: String)
    requires
        sep@.len() <= 1,
    ensures
        text@ == joined(names_of(parts@), sep@),
{
    parts.iter().join(sep)
}

impl ResultSet {
    /// The set that `text` holds: its lines, each recorded once, in the order
    /// in which they first occur.
    pub fn from_text(text: &str) -> (set: ResultSet)
        ensures
            set@ == record_all(Seq::empty(), lines_of(text@)),
    {
        let lines = split_lines(text);
        let mut set = ResultSet::new();
        let mut i: usize = 0;
        while i < lines.len()
            invariant
                i <= lines.len(),
                set@ == record_all(Seq::empty(), names_of(lines@).take(i as int)),
            decreases lines.len() - i,
        {
            proof {
                let seen = names_of(lines@).take(i + 1);
                assert(seen.drop_last() =~= names_of(lines@).take(i as int));
            }
            set.insert(lines[i].clone());
            i += 1;
        }
        assert(names_of(lines@).take(i as int) =~= names_of(lines@));
        set
    }

    /// The text that holds the set: its names in their order, a line feed
    /// between each two.
    pub fn to_text(&self) -> (text: String)
        ensures
            text@ == joined(self@, seq!['\n']),
    {
        proof {
            reveal_strlit("\n");
            assert("\n"@ =~= seq!['\n']);
        }
        join(self.names(), "\n")
    }
}

/// Text gives names back as they were written where each of them is a name
/// that a line can hold.
pub proof fn lemma_lines_are_storable(names: Seq<Seq<char>>)
    requires
        all_lines(names),
    ensures
        storable(names),
    decreases names.len(),
{
    let text = joined(names, seq!['\n']);
    if names.len() == 1 {
        lemma_line_end(text, text.len() as int);
        assert(seq![text] =~= names);
    } else if names.len() > 1 {
        let first = names[0];
        let rest = names.drop_first();
        assert(all_lines(rest));
        lemma_lines_are_storable(rest);
        lemma_line_end(text, first.len() as int);
        assert(text.take(first.len() as int) =~= first);
        assert(text.skip(first.len() as int + 1) =~= joined(rest, seq!['\n']));
        assert(seq![first] + rest =~= names);
    } else {
        assert(lines_of(text) =~= names);
    }
}

} // verus!
