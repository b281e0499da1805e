//! Reading the bytes of a file as lines of text.

use vstd::prelude::*;
use crate::strings::{decode_line, decoded};

verus! {

/// The lines that a vector of lines stands for.
pub open spec fn text_of(lines: Seq<Vec<char>>) -> Seq<Seq<char>> {
    Seq::new(lines.len(), |i: int| lines[i]@)
}

/// The index of the first line feed at or after `i`; the length of `bytes`
/// where none follows.
pub open spec fn line_end(bytes: Seq<u8>, i: int) -> int
    decreases bytes.len() - i,
{
    if 0 <= i < bytes.len() && bytes[i] != 10 {
        line_end(bytes, i + 1)
    } else {
        i
    }
}

/// A line without the carriage return that ended it, if one did.
pub open spec fn without_return(line: Seq<u8>) -> Seq<u8> {
    if line.len() > 0 && line.last() == 13 {
        line.drop_last()
    } else {
        line
    }
}

/// The lines of `bytes` from index `from` on. A line ends at a line feed; the
/// line feed, and a carriage return right before it, are not part of the
/// line. What follows the last line feed is a line too, unless it is empty.
pub open spec fn raw_lines(bytes: Seq<u8>, from: int) -> Seq<Seq<u8>>
    decreases bytes.len() - from,
{
    if 0 <= from < bytes.len() {
        let end = line_end(bytes, from);
        if end < bytes.len() {
            proof {
                lemma_line_end(bytes, from);
            }
            seq![without_return(bytes.subrange(from, end))] + raw_lines(bytes, end + 1)
        } else {
            seq![bytes.subrange(from, bytes.len() as int)]
        }
    } else {
        Seq::empty()
    }
}

/// Each line decoded; a line that is not valid UTF-8 becomes an empty line.
pub open spec fn decoded_lines(raw: Seq<Seq<u8>>) -> Seq<Seq<char>> {
    Seq::new(raw.len(), |i: int| decoded(raw[i]))
}

/// The document that `bytes` hold: their lines, decoded; one empty line where
/// there are no bytes.
pub open spec fn loaded(bytes: Seq<u8>) -> Seq<Seq<char>> {
    if bytes.len() == 0 {
        seq![Seq::<char>::empty()]
    } else {
        decoded_lines(raw_lines(bytes, 0))
    }
}

/// `line_end` stops within the bytes, at a line feed or at the end, and
/// passes no line feed on its way.
pub proof fn lemma_line_end(bytes: Seq<u8>, i: int)
    requires
        0 <= i <= bytes.len(),
    ensures
        i <= line_end(bytes, i) <= bytes.len(),
        line_end(bytes, i) < bytes.len() ==> bytes[line_end(bytes, i)] == 10,
        forall|k: int| i <= k < line_end(bytes, i) ==> bytes[k] != 10,
    decreases bytes.len() - i,
{
    if i < bytes.len() && bytes[i] != 10 {
        lemma_line_end(bytes, i + 1);
    }
}

/// A document that was loaded has at least one line.
pub proof fn lemma_loaded_has_a_line(bytes: Seq<u8>)
    ensures
        loaded(bytes).len() >= 1,
{
    if bytes.len() > 0 {
        lemma_line_end(bytes, 0);
    }
}

/// The index of the first line feed at or after `from`.
fn find_line_end(text: &[u8], from: usize) -> (end: usize)
    requires
        from <= text@.len(),
    ensures
        end == line_end(text@, from as int),
        from <= end <= text@.len(),
{
    let mut i = from;
    while i < text.len() && text[i] != 10
        invariant
            from <= i <= text@.len(),
            line_end(text@, i as int) == line_end(text@, from as int),
        decreases text@.len() - i,
    {
        i += 1;
    }
    i
}

/// Splits `text` into lines and decodes each of them.
pub fn read_lines(text: &[u8]) -> (lines: Vec<Vec<char>>)
    ensures
        text_of(lines@) == loaded(text@),
        lines@.len() >= 1,
{
    let mut lines: Vec<Vec<char>> = Vec::new();
    let mut start: usize = 0;
    while start < text.len()
        invariant
            start <= text@.len(),
            text_of(lines@) + decoded_lines(raw_lines(text@, start as int)) == decoded_lines(
                raw_lines(text@, 0),
            ),
            start > 0 ==> lines@.len() >= 1,
        decreases text@.len() - start,
    {
        let end = find_line_end(text, start);
        let ghost before = text_of(lines@);
        let ghost rest = raw_lines(text@, start as int);
        if end < text.len() {
            let stop = if start < end && text[end - 1] == 13 {
                end - 1
            } else {
                end
            };
            let line = decode_line(&text[start..stop]);
            assert(text@.subrange(start as int, stop as int) == without_return(
                text@.subrange(start as int, end as int),
            ));
            lines.push(line);
            assert(text_of(lines@) + decoded_lines(raw_lines(text@, end + 1)) =~= before
                + decoded_lines(rest));
            start = end + 1;
        } else {
            let line = decode_line(&text[start..end]);
            lines.push(line);
            assert(text_of(lines@) + decoded_lines(raw_lines(text@, end as int)) =~= before
                + decoded_lines(rest));
            start = end;
        }
    }
    if lines.len() == 0 {
        lines.push(Vec::new());
        assert(text_of(lines@) =~= seq![Seq::<char>::empty()]);
    } else {
        assert(text_of(lines@) =~= text_of(lines@) + decoded_lines(
            raw_lines(text@, start as int),
        ));
    }
    lines
}

} // verus!
