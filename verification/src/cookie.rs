//! Cleaning a cookie string as it is taken in.
//!
//! The string is cut at its line feeds, each line loses the white space
//! at its two ends, the lines are put together again with nothing between
//! them, and every run of spaces shrinks to one space. What comes out
//! holds no line feed and no two spaces in a row.

use vstd::prelude::*;
use vstd::string::*;
use crate::text::{chars_of, push_char};

verus! {

/// The line feed.
pub const LINE_FEED: char = '\n';

/// The space.
pub const SPACE: char = ' ';

/// A character with the Unicode property `White_Space`.
pub open spec fn is_space(c: char) -> bool {
    let v = c as u32;
    (0x09 <= v <= 0x0d) || v == 0x20 || v == 0x85 || v == 0xa0 || v == 0x1680 || (0x2000 <= v
        <= 0x200a) || v == 0x2028 || v == 0x2029 || v == 0x202f || v == 0x205f || v == 0x3000
}

/// The lines of a text: the pieces between its line feeds.
pub open spec fn lines(text: Seq<char>) -> Seq<Seq<char>>
    decreases text.len(),
{
    if text.len() == 0 {
        seq![Seq::<char>::empty()]
    } else {
        let before = lines(text.drop_last());
        if text.last() == LINE_FEED {
            before.push(Seq::<char>::empty())
        } else {
            before.update(before.len() - 1, before.last().push(text.last()))
        }
    }
}

/// A line without the white space at its start.
pub open spec fn trim_start(line: Seq<char>) -> Seq<char>
    decreases line.len(),
{
    if line.len() > 0 && is_space(line[0]) {
        trim_start(line.drop_first())
    } else {
        line
    }
}

/// A line without the white space at its end.
pub open spec fn trim_end(line: Seq<char>) -> Seq<char>
    decreases line.len(),
{
    if line.len() > 0 && is_space(line.last()) {
        trim_end(line.drop_last())
    } else {
        line
    }
}

/// A line without the white space at its two ends.
pub open spec fn trim(line: Seq<char>) -> Seq<char> {
    trim_end(trim_start(line))
}

/// The trimmed lines, one after the other with nothing between them.
pub open spec fn joined(lines: Seq<Seq<char>>) -> Seq<char>
    decreases lines.len(),
{
    if lines.len() == 0 {
        Seq::<char>::empty()
    } else {
        joined(lines.drop_last()) + trim(lines.last())
    }
}

/// A text in which every run of spaces has shrunk to one space.
pub open spec fn squeeze(text: Seq<char>) -> Seq<char>
    decreases text.len(),
{
    if text.len() == 0 {
        Seq::<char>::empty()
    } else {
        let head = squeeze(text.drop_last());
        if text.last() == SPACE && head.len() > 0 && head.last() == SPACE {
            head
        } else {
            head.push(text.last())
        }
    }
}

/// The cookie string that is kept for the one that was given.
pub open spec fn sanitized(text: Seq<char>) -> Seq<char> {
    squeeze(joined(lines(text)))
}

/// Whether a character has the property `White_Space`.
pub fn is_space_char(c: char) -> (r: bool)
    ensures
        r == is_space(c),
{
    let v: u32 = c as u32;
    (0x09 <= v && v <= 0x0d) || v == 0x20 || v == 0x85 || v == 0xa0 || v == 0x1680 || (0x2000 <= v
        && v <= 0x200a) || v == 0x2028 || v == 0x2029 || v == 0x202f || v == 0x205f || v == 0x3000
}

/// Adding a character to a line adds it to the line without its leading
/// white space, unless the line is white space so far and so is the character.
proof fn lemma_trim_start_push(line: Seq<char>, c: char)
    ensures
        trim_start(line.push(c)) == if is_space(c) && trim_start(line).len() == 0 {
            Seq::<char>::empty()
        } else {
            trim_start(line).push(c)
        },
    decreases line.len(),
{
    if line.len() == 0 {
        assert(line.push(c).drop_first() =~= Seq::<char>::empty());
        assert(trim_start(Seq::<char>::empty()) =~= Seq::<char>::empty());
        assert(line.push(c) =~= Seq::<char>::empty().push(c));
    } else if is_space(line[0]) {
        assert(line.push(c).drop_first() =~= line.drop_first().push(c));
        lemma_trim_start_push(line.drop_first(), c);
    }
}

/// Cuts a text at its line feeds, trims the lines and joins them.
pub fn join_trimmed_lines(text: &Vec<char>) -> (raw: Vec<char>)
    ensures
        raw@ == joined(lines(text@)),
{
    let mut raw: Vec<char> = Vec::new();
    let mut in_line = false;
    let mut pending: usize = 0;
    let mut at: usize = 0;
    proof {
        assert(text@.take(0) =~= Seq::<char>::empty());
        assert(lines(text@.take(0)).drop_last() =~= Seq::<Seq<char>>::empty());
    }
    while at < text.len()
        invariant
            at <= text@.len(),
            lines(text@.take(at as int)).len() > 0,
            raw@ == joined(lines(text@.take(at as int)).drop_last()) + trim(
                lines(text@.take(at as int)).last(),
            ),
            !in_line ==> trim_start(lines(text@.take(at as int)).last()).len() == 0,
            in_line ==> trim(lines(text@.take(at as int)).last()).len() > 0,
            in_line ==> pending <= at && trim_start(lines(text@.take(at as int)).last()) == trim(
                lines(text@.take(at as int)).last(),
            ) + text@.subrange(pending as int, at as int),
        decreases text@.len() - at,
    {
        let c = text[at];
        let ghost before = lines(text@.take(at as int));
        let ghost after = lines(text@.take(at + 1));
        let ghost line = before.last();
        proof {
            assert(text@.take(at + 1).drop_last() =~= text@.take(at as int));
            assert(text@.take(at + 1).last() == c);
            lemma_trim_start_push(line, c);
        }
        if c == LINE_FEED {
            proof {
                assert(after.drop_last() =~= before);
                assert(before =~= before.drop_last().push(line));
                assert(trim(Seq::<char>::empty()) =~= Seq::<char>::empty());
            }
            in_line = false;
        } else {
            proof {
                assert(after.drop_last() =~= before.drop_last());
                assert(after.last() == line.push(c));
            }
            if is_space_char(c) {
                proof {
                    if in_line {
                        assert(trim_start(line).push(c).drop_last() =~= trim_start(line));
                        assert(text@.subrange(pending as int, at as int).push(c) =~= text@.subrange(
                            pending as int,
                            at + 1,
                        ));
                        assert((trim(line) + text@.subrange(pending as int, at as int)).push(c)
                            =~= trim(line) + text@.subrange(pending as int, at + 1));
                    }
                }
            } else {
                let ghost start = raw@;
                if in_line {
                    let mut k: usize = pending;
                    while k < at
                        invariant
                            pending <= k <= at,
                            at < text@.len(),
                            raw@ == start + text@.subrange(pending as int, k as int),
                        decreases at - k,
                    {
                        raw.push(text[k]);
                        proof {
                            assert(raw@ =~= start + text@.subrange(pending as int, k + 1));
                        }
                        k = k + 1;
                    }
                }
                raw.push(c);
                proof {
                    let kept = trim_start(line).push(c);
                    assert(kept.last() == c);
                    assert(trim_end(kept) == kept);
                    if in_line {
                        assert(raw@ =~= joined(before.drop_last()) + kept);
                    } else {
                        assert(trim(line) =~= Seq::<char>::empty());
                        assert(raw@ =~= joined(before.drop_last()) + kept);
                    }
                    assert(text@.subrange(at + 1, at + 1) =~= Seq::<char>::empty());
                    assert(kept =~= kept + text@.subrange(at + 1, at + 1));
                }
                in_line = true;
                pending = at + 1;
            }
        }
        at = at + 1;
    }
    proof {
        assert(text@.take(text@.len() as int) =~= text@);
        let all = lines(text@);
        assert(all =~= all.drop_last().push(all.last()));
    }
    raw
}

/// Shrinks every run of spaces to one space.
pub fn squeeze_spaces(raw: &Vec<char>) -> (text: String)
    ensures
        text@ == squeeze(raw@),
{
    let mut text = String::new();
    let mut after_space = false;
    let mut at: usize = 0;
    proof {
        assert(raw@.take(0) =~= Seq::<char>::empty());
    }
    while at < raw.len()
        invariant
            at <= raw@.len(),
            text@ == squeeze(raw@.take(at as int)),
            after_space == (text@.len() > 0 && text@.last() == SPACE),
        decreases raw@.len() - at,
    {
        let c = raw[at];
        proof {
            assert(raw@.take(at + 1).drop_last() =~= raw@.take(at as int));
        }
        if !(c == SPACE && after_space) {
            push_char(&mut text, c);
            after_space = c == SPACE;
        }
        at = at + 1;
    }
    proof {
        assert(raw@.take(raw@.len() as int) =~= raw@);
    }
    text
}

/// Cleans a cookie string.
pub fn sanitize(cookies: &str) -> (clean: String)
    ensures
        clean@ == sanitized(cookies@),
{
    let chars = chars_of(cookies);
    let raw = join_trimmed_lines(&chars);
    squeeze_spaces(&raw)
}

/// The character occurs nowhere in the text.
pub open spec fn free_of(text: Seq<char>, c: char) -> bool {
    forall|i: int| 0 <= i < text.len() ==> text[i] != c
}

/// No line of a text holds a line feed.
proof fn lemma_lines_hold_no_line_feed(text: Seq<char>)
    ensures
        lines(text).len() > 0,
        forall|k: int| 0 <= k < lines(text).len() ==> free_of(#[trigger] lines(text)[k], LINE_FEED),
    decreases text.len(),
{
    if text.len() > 0 {
        lemma_lines_hold_no_line_feed(text.drop_last());
    }
}

/// Trimming a line brings in no character.
proof fn lemma_trim_keeps_free(line: Seq<char>, c: char)
    requires
        free_of(line, c),
    ensures
        free_of(trim_start(line), c),
        free_of(trim_end(line), c),
        free_of(trim(line), c),
{
    lemma_trim_start_keeps_free(line, c);
    lemma_trim_end_keeps_free(line, c);
    lemma_trim_end_keeps_free(trim_start(line), c);
}

proof fn lemma_trim_start_keeps_free(line: Seq<char>, c: char)
    requires
        free_of(line, c),
    ensures
        free_of(trim_start(line), c),
    decreases line.len(),
{
    if line.len() > 0 && is_space(line[0]) {
        let rest = line.drop_first();
        assert forall|i: int| 0 <= i < rest.len() implies rest[i] != c by {
            assert(rest[i] == line[i + 1]);
        }
        lemma_trim_start_keeps_free(rest, c);
    }
}

proof fn lemma_trim_end_keeps_free(line: Seq<char>, c: char)
    requires
        free_of(line, c),
    ensures
        free_of(trim_end(line), c),
    decreases line.len(),
{
    if line.len() > 0 && is_space(line.last()) {
        let rest = line.drop_last();
        assert forall|i: int| 0 <= i < rest.len() implies rest[i] != c by {
            assert(rest[i] == line[i]);
        }
        lemma_trim_end_keeps_free(rest, c);
    }
}

/// Joining lines brings in no character.
proof fn lemma_joined_keeps_free(lines: Seq<Seq<char>>, c: char)
    requires
        forall|k: int| 0 <= k < lines.len() ==> free_of(#[trigger] lines[k], c),
    ensures
        free_of(joined(lines), c),
    decreases lines.len(),
{
    if lines.len() > 0 {
        let head = lines.drop_last();
        assert forall|k: int| 0 <= k < head.len() implies free_of(#[trigger] head[k], c) by {
            assert(head[k] == lines[k]);
        }
        lemma_joined_keeps_free(head, c);
        lemma_trim_keeps_free(lines.last(), c);
    }
}

/// Shrinking the runs of spaces brings in no character.
proof fn lemma_squeeze_keeps_free(text: Seq<char>, c: char)
    requires
        free_of(text, c),
    ensures
        free_of(squeeze(text), c),
    decreases text.len(),
{
    if text.len() > 0 {
        let head = text.drop_last();
        assert forall|i: int| 0 <= i < head.len() implies head[i] != c by {
            assert(head[i] == text[i]);
        }
        lemma_squeeze_keeps_free(head, c);
    }
}

/// A cleaned cookie string holds no line feed.
pub proof fn lemma_sanitized_holds_no_line_feed(text: Seq<char>)
    ensures
        free_of(sanitized(text), LINE_FEED),
{
    lemma_lines_hold_no_line_feed(text);
    lemma_joined_keeps_free(lines(text), LINE_FEED);
    lemma_squeeze_keeps_free(joined(lines(text)), LINE_FEED);
}

/// Two spaces stand at `at` and just after it.
pub open spec fn doubled_space_at(text: Seq<char>, at: int) -> bool {
    0 <= at && at + 1 < text.len() && text[at] == SPACE && text[at + 1] == SPACE
}

/// No two spaces stand side by side in the text.
pub open spec fn no_doubled_space(text: Seq<char>) -> bool {
    forall|at: int| !#[trigger] doubled_space_at(text, at)
}

/// No two spaces stand side by side in a text whose runs of spaces were shrunk.
pub proof fn lemma_squeeze_leaves_no_doubled_space(text: Seq<char>)
    ensures
        no_doubled_space(squeeze(text)),
    decreases text.len(),
{
    if text.len() > 0 {
        let head = squeeze(text.drop_last());
        lemma_squeeze_leaves_no_doubled_space(text.drop_last());
        assert forall|at: int| !#[trigger] doubled_space_at(squeeze(text), at) by {
            if doubled_space_at(squeeze(text), at) {
                if at + 1 < head.len() {
                    assert(doubled_space_at(head, at));
                }
            }
        }
    } else {
        assert forall|at: int| !#[trigger] doubled_space_at(squeeze(text), at) by {}
    }
}

/// A cleaned cookie string holds no two spaces side by side.
pub proof fn lemma_sanitized_holds_no_doubled_space(text: Seq<char>)
    ensures
        no_doubled_space(sanitized(text)),
{
    lemma_squeeze_leaves_no_doubled_space(joined(lines(text)));
}

} // verus!
