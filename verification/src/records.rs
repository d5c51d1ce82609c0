//! The input file: keys and their translations on alternating lines.

use crate::lines::{lemma_blank_line_is_skipped, non_empty_lines, split_non_empty_lines};
use vstd::prelude::*;

verus! {

/// A key and its translation, read from the input and not yet uploaded.
#[derive(Debug, PartialEq, Eq)]
pub struct NewKey {
    pub key: String,
    pub string: String,
}

/// What a `NewKey` stands for.
pub ghost struct Record {
    pub key: Seq<char>,
    pub value: Seq<char>,
}

impl View for NewKey {
    type V = Record;

    open spec fn view(&self) -> Record {
        Record { key: self.key@, value: self.string@ }
    }
}

impl DeepView for NewKey {
    type V = Record;

    open spec fn deep_view(&self) -> Record {
        self@
    }
}

/// The input could not be read as keys and translations.
#[derive(Debug, PartialEq, Eq)]
pub struct ParseError {
    pub file: String,
}

/// Whether every key line of `text` is followed by a translation line.
pub open spec fn is_paired(text: Seq<char>) -> bool {
    non_empty_lines(text).len() % 2 == 0
}

/// Lines taken two by two: the first of each pair is the key, the second
/// its translation. A last line without a partner is left out.
pub open spec fn pair_up(lines: Seq<Seq<char>>) -> Seq<Record> {
    Seq::new(
        (lines.len() / 2) as nat,
        |i: int| Record { key: lines[2 * i], value: lines[2 * i + 1] },
    )
}

/// The records that `text` holds: its non-empty lines, taken two by two.
pub open spec fn records_of(text: Seq<char>) -> Seq<Record> {
    pair_up(non_empty_lines(text))
}

/// A text of `2n` non-empty lines holds `n` records: the `i`-th has the
/// line at `2i` for its key and the line at `2i + 1` for its translation.
pub proof fn lemma_records_follow_the_lines(text: Seq<char>, n: nat)
    requires
        non_empty_lines(text).len() == 2 * n,
    ensures
        is_paired(text),
        records_of(text).len() == n,
        forall|i: int|
            0 <= i < n ==> (#[trigger] records_of(text)[i]) == (Record {
                key: non_empty_lines(text)[2 * i],
                value: non_empty_lines(text)[2 * i + 1],
            }),
{
}

/// A text with an odd number of non-empty lines leaves a key without its
/// translation.
pub proof fn lemma_odd_lines_are_unpaired(text: Seq<char>, n: nat)
    requires
        non_empty_lines(text).len() == 2 * n + 1,
    ensures
        !is_paired(text),
{
}

/// Blank lines change nothing about the records of a text.
pub proof fn lemma_blank_lines_do_not_count(head: Seq<char>, tail: Seq<char>)
    requires
        head.len() == 0 || head.last() == '\n',
    ensures
        records_of(head + seq!['\n'] + tail) == records_of(head + tail),
        is_paired(head + seq!['\n'] + tail) == is_paired(head + tail),
{
    lemma_blank_line_is_skipped(head, tail);
}

/// Reads the records out of the contents of the file at `path`.
///
/// Blank lines do not count. The input is refused, with the file's path,
/// when a key is left without a translation.
pub fn parse_keys(path: &str, contents: &str) -> (parsed: Result<Vec<NewKey>, ParseError>)
    ensures
        parsed is Ok <==> is_paired(contents@),
        parsed matches Ok(keys) ==> keys.deep_view() == records_of(contents@),
        parsed matches Err(e) ==> e.file@ == path@,
{
    let lines = split_non_empty_lines(contents);
    let ghost all = lines.deep_view();
    let ghost raw = lines@;
    let mut keys: Vec<NewKey> = Vec::new();
    let mut pending: Option<String> = None;
    proof {
        assert(keys.deep_view() == pair_up(all.take(0)));
    }
    for line in it: lines
        invariant
            it.seq() == raw,
            all.len() == raw.len(),
            forall|j: int| 0 <= j < raw.len() ==> all[j] == (#[trigger] raw[j])@,
            keys.deep_view() == pair_up(all.take(it.index())),
            pending is Some <==> it.index() % 2 == 1,
            pending matches Some(key) ==> key@ == all[it.index() - 1],
    {
        let ghost seen = it.index();
        match pending {
            None => {
                pending = Some(line);
                proof {
                    assert(pair_up(all.take(seen + 1)) == pair_up(all.take(seen)));
                }
            },
            Some(key) => {
                let ghost before = keys.deep_view();
                let record = NewKey { key, string: line };
                keys.push(record);
                pending = None;
                proof {
                    assert(keys.deep_view() == before.push(record@));
                    assert(pair_up(all.take(seen + 1)) == pair_up(all.take(seen)).push(record@));
                }
            },
        }
    }
    proof {
        assert(all.take(raw.len() as int) == all);
    }
    match pending {
        None => Ok(keys),
        Some(_) => Err(ParseError { file: path.to_owned() }),
    }
}

} // verus!
