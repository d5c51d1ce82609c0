//! Lines of a text, as the input format counts them.

use vstd::prelude::*;
use vstd::std_specs::iter::IteratorSpec;
use vstd::string::*;

verus! {

/// Number of characters before the first line feed of `s`; `s.len()` when it
/// holds none.
pub open spec fn line_end(s: Seq<char>) -> int
    decreases s.len(),
{
    if s.len() == 0 || s[0] == '\n' {
        0
    } else {
        1 + line_end(s.drop_first())
    }
}

/// A line without the carriage return that stood directly before its line
/// feed.
pub open spec fn strip_cr(line: Seq<char>) -> Seq<char> {
    if line.len() > 0 && line.last() == '\r' {
        line.drop_last()
    } else {
        line
    }
}

/// The lines of `s`. A line ends at a line feed or at a carriage return
/// directly followed by one; the terminator is no part of the line. The last
/// line needs no terminator, and without one it keeps a trailing carriage
/// return.
pub open spec fn lines(s: Seq<char>) -> Seq<Seq<char>>
    decreases s.len(),
{
    let k = line_end(s);
    if s.len() == 0 {
        Seq::empty()
    } else if k >= s.len() {
        seq![s]
    } else {
        proof {
            lemma_line_end_in_range(s);
        }
        seq![strip_cr(s.take(k))] + lines(s.skip(k + 1))
    }
}

/// Whether a line holds at least one character.
pub open spec fn is_non_empty(line: Seq<char>) -> bool {
    line.len() > 0
}

/// The lines of `s` that hold at least one character, in their order.
pub open spec fn non_empty_lines(s: Seq<char>) -> Seq<Seq<char>> {
    lines(s).filter(|line: Seq<char>| is_non_empty(line))
}

/// `line_end` lies within the text, on a line feed or at the end, with no
/// line feed before it.
pub proof fn lemma_line_end_in_range(s: Seq<char>)
    ensures
        0 <= line_end(s) <= s.len(),
        line_end(s) < s.len() ==> s[line_end(s)] == '\n',
        forall|j: int| 0 <= j < line_end(s) ==> s[j] != '\n',
    decreases s.len(),
{
    if s.len() == 0 || s[0] == '\n' {
    } else {
        let t = s.drop_first();
        lemma_line_end_in_range(t);
        assert forall|j: int| 0 <= j < line_end(s) implies s[j] != '\n' by {
            if j > 0 {
                assert(s[j] == t[j - 1]);
            }
        }
    }
}

/// `line_end` is the one position that has no line feed before it and either
/// a line feed at it or the end of the text.
pub proof fn lemma_line_end_is(s: Seq<char>, k: int)
    requires
        0 <= k <= s.len(),
        forall|j: int| 0 <= j < k ==> s[j] != '\n',
        k < s.len() ==> s[k] == '\n',
    ensures
        line_end(s) == k,
    decreases s.len(),
{
    if s.len() == 0 || s[0] == '\n' {
    } else {
        let t = s.drop_first();
        assert forall|j: int| 0 <= j < k - 1 implies t[j] != '\n' by {
            assert(t[j] == s[j + 1]);
        }
        lemma_line_end_is(t, k - 1);
    }
}

/// What one line contributes to the non-empty lines: itself, or nothing.
pub open spec fn kept(line: Seq<char>) -> Seq<Seq<char>> {
    if is_non_empty(line) {
        seq![line]
    } else {
        Seq::empty()
    }
}

/// A text whose first line feed stands at `k` has the line before it first,
/// and then the lines of what follows the line feed.
pub proof fn lemma_lines_at_line_feed(s: Seq<char>, k: int)
    requires
        0 <= k < s.len(),
        s[k] == '\n',
        forall|j: int| 0 <= j < k ==> s[j] != '\n',
    ensures
        non_empty_lines(s) == kept(strip_cr(s.take(k))) + non_empty_lines(s.skip(k + 1)),
{
    lemma_line_end_is(s, k);
    let pred = |line: Seq<char>| is_non_empty(line);
    let head = seq![strip_cr(s.take(k))];
    let tail = lines(s.skip(k + 1));
    assert(lines(s) == head + tail);
    Seq::filter_distributes_over_add(head, tail, pred);
    assert(head.filter(pred) == kept(strip_cr(s.take(k)))) by {
        reveal_with_fuel(Seq::filter, 2);
        assert(head.drop_last() == Seq::<Seq<char>>::empty());
    }
}

/// A text without a line feed is one line, or none if it is empty.
pub proof fn lemma_lines_without_line_feed(s: Seq<char>)
    requires
        forall|j: int| 0 <= j < s.len() ==> s[j] != '\n',
    ensures
        non_empty_lines(s) == kept(s),
{
    lemma_line_end_is(s, s.len() as int);
    let pred = |line: Seq<char>| is_non_empty(line);
    reveal_with_fuel(Seq::filter, 2);
    if s.len() > 0 {
        assert(lines(s) == seq![s]);
        assert(seq![s].drop_last() == Seq::<Seq<char>>::empty());
    }
}

/// No line holds a line feed.
pub proof fn lemma_lines_hold_no_line_feed(s: Seq<char>)
    ensures
        forall|i: int, j: int|
            0 <= i < lines(s).len() && 0 <= j < lines(s)[i].len() ==> lines(s)[i][j] != '\n',
    decreases s.len(),
{
    lemma_line_end_in_range(s);
    let k = line_end(s);
    if s.len() > 0 && k < s.len() {
        let first = strip_cr(s.take(k));
        let rest = lines(s.skip(k + 1));
        lemma_lines_hold_no_line_feed(s.skip(k + 1));
        assert forall|i: int, j: int|
            0 <= i < lines(s).len() && 0 <= j < lines(s)[i].len() implies lines(s)[i][j]
            != '\n' by {
            if i == 0 {
                assert(first[j] == s[j]);
            } else {
                assert(lines(s)[i] == rest[i - 1]);
            }
        }
    }
}

/// Every one of the non-empty lines holds a character.
pub proof fn lemma_non_empty_lines_hold_a_character(s: Seq<char>)
    ensures
        forall|i: int| 0 <= i < non_empty_lines(s).len() ==> non_empty_lines(s)[i].len() > 0,
{
    let pred = |line: Seq<char>| is_non_empty(line);
    assert forall|i: int| 0 <= i < non_empty_lines(s).len() implies non_empty_lines(s)[i].len()
        > 0 by {
        lines(s).lemma_filter_pred(pred, i);
    }
}

/// Behind a text that is complete, that is empty or ends in a line feed,
/// the lines of what follows are counted anew.
pub proof fn lemma_lines_of_parts(head: Seq<char>, tail: Seq<char>)
    requires
        head.len() == 0 || head.last() == '\n',
    ensures
        lines(head + tail) == lines(head) + lines(tail),
    decreases head.len(),
{
    if head.len() == 0 {
        assert(head + tail == tail);
        assert(lines(head) + lines(tail) == lines(tail));
    } else {
        let whole = head + tail;
        let k = line_end(head);
        lemma_line_end_in_range(head);
        assert(k < head.len()) by {
            if k >= head.len() {
                assert(head[head.len() - 1] != '\n');
            }
        }
        assert forall|j: int| 0 <= j < k implies whole[j] != '\n' by {
            assert(whole[j] == head[j]);
        }
        assert(whole[k] == head[k]);
        lemma_line_end_is(whole, k);
        let rest = head.skip(k + 1);
        assert(whole.take(k) == head.take(k));
        assert(whole.skip(k + 1) == rest + tail);
        assert(rest.len() == 0 || rest.last() == '\n') by {
            if rest.len() > 0 {
                assert(rest.last() == head.last());
            }
        }
        lemma_lines_of_parts(rest, tail);
        assert(lines(whole) == seq![strip_cr(head.take(k))] + (lines(rest) + lines(tail)));
        assert(lines(head) == seq![strip_cr(head.take(k))] + lines(rest));
    }
}

/// A blank line, ended by a line feed alone or with a carriage return
/// before it, does not count: the non-empty lines are those of the text
/// without it.
pub proof fn lemma_blank_line_is_skipped(head: Seq<char>, tail: Seq<char>)
    requires
        head.len() == 0 || head.last() == '\n',
    ensures
        non_empty_lines(head + seq!['\n'] + tail) == non_empty_lines(head + tail),
        non_empty_lines(head + seq!['\r', '\n'] + tail) == non_empty_lines(head + tail),
{
    let pred = |line: Seq<char>| is_non_empty(line);
    let blank = seq![Seq::<char>::empty()];
    assert(blank.filter(pred) == Seq::<Seq<char>>::empty()) by {
        reveal_with_fuel(Seq::filter, 2);
        assert(blank.drop_last() == Seq::<Seq<char>>::empty());
    }
    lemma_lines_of_parts(head, tail);
    Seq::filter_distributes_over_add(lines(head), lines(tail), pred);

    let lf = seq!['\n'];
    assert(lines(lf + tail) == blank + lines(tail)) by {
        lemma_line_end_is(lf + tail, 0);
        assert((lf + tail).take(0) == Seq::<char>::empty());
        assert((lf + tail).skip(1) == tail);
    }
    assert(head + lf + tail == head + (lf + tail));
    lemma_lines_of_parts(head, lf + tail);
    Seq::filter_distributes_over_add(lines(head), blank + lines(tail), pred);
    Seq::filter_distributes_over_add(blank, lines(tail), pred);
    assert(blank.filter(pred) + lines(tail).filter(pred) == lines(tail).filter(pred));

    let crlf = seq!['\r', '\n'];
    assert(lines(crlf + tail) == blank + lines(tail)) by {
        lemma_line_end_is(crlf + tail, 1);
        assert((crlf + tail).take(1) == seq!['\r']);
        assert(seq!['\r'].drop_last() == Seq::<char>::empty());
        assert((crlf + tail).skip(2) == tail);
    }
    assert(head + crlf + tail == head + (crlf + tail));
    lemma_lines_of_parts(head, crlf + tail);
}

/// The non-empty lines of `text`, in their order.
pub fn split_non_empty_lines(text: &str) -> (out: Vec<String>)
    ensures
        out.deep_view() == non_empty_lines(text@),
{
    let total = text.unicode_len();
    let mut out: Vec<String> = Vec::new();
    let mut it = text.chars();
    let mut start: usize = 0;
    let mut pos: usize = 0;
    let mut after_cr = false;
    proof {
        assert(text@.skip(0) == text@);
        assert(out.deep_view() + non_empty_lines(text@) == non_empty_lines(text@));
    }
    loop
        invariant
            total == text@.len(),
            start <= pos <= total,
            it.remaining() == text@.skip(pos as int),
            forall|j: int| start <= j < pos ==> text@[j] != '\n',
            after_cr <==> (pos > start && text@[pos - 1] == '\r'),
            non_empty_lines(text@) == out.deep_view() + non_empty_lines(text@.skip(start as int)),
        ensures
            pos == total,
        decreases total - pos,
    {
        match it.next() {
            None => {
                assert(text@.skip(pos as int).len() == 0);
                break ;
            },
            Some(c) => {
                assert(c == text@[pos as int]);
                if c == '\n' {
                    let end = if after_cr {
                        pos - 1
                    } else {
                        pos
                    };
                    let ghost before = out.deep_view();
                    let ghost rest = text@.skip(start as int);
                    let ghost line = text@.subrange(start as int, end as int);
                    proof {
                        lemma_lines_at_line_feed(rest, pos - start);
                        assert(rest.take(pos - start) == text@.subrange(start as int, pos as int));
                        assert(strip_cr(text@.subrange(start as int, pos as int)) == line);
                        assert(rest.skip(pos - start + 1) == text@.skip(pos + 1));
                    }
                    if end > start {
                        out.push(text.substring_char(start, end).to_owned());
                        assert(out.deep_view() == before + seq![line]);
                    }
                    assert(out.deep_view() == before + kept(line));
                    start = pos + 1;
                    after_cr = false;
                } else {
                    after_cr = c == '\r';
                }
                pos = pos + 1;
            },
        }
    }
    let ghost before = out.deep_view();
    let ghost rest = text@.skip(start as int);
    proof {
        assert forall|j: int| 0 <= j < rest.len() implies rest[j] != '\n' by {
            assert(rest[j] == text@[start + j]);
        }
        lemma_lines_without_line_feed(rest);
    }
    if pos > start {
        out.push(text.substring_char(start, pos).to_owned());
        assert(text@.subrange(start as int, pos as int) == rest);
        assert(out.deep_view() == before + seq![rest]);
    }
    assert(out.deep_view() == before + kept(rest));
    out
}

} // verus!
