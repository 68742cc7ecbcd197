use vstd::prelude::*;
use vstd::string::*;
use crate::operation::{symbol_of, Operator};

verus! {

/// A history entry: `<first> <operator> <second> = <result>`, where a square
/// root leaves out the second operand.
pub open spec fn entry_of(first: Seq<char>, op: Operator, second: Seq<char>, result: Seq<char>) -> Seq<
    char,
> {
    if op == Operator::SquareRoot {
        first + " "@ + symbol_of(op) + " = "@ + result
    } else {
        first + " "@ + symbol_of(op) + " "@ + second + " = "@ + result
    }
}

/// The text that one entry adds to the history file.
pub open spec fn line_of(entry: Seq<char>) -> Seq<char> {
    entry + seq!['\n']
}

/// The history file after each of `entries` was appended in turn to an
/// empty file.
pub open spec fn file_of(entries: Seq<Seq<char>>) -> Seq<char>
    decreases entries.len(),
{
    if entries.len() == 0 {
        Seq::empty()
    } else {
        file_of(entries.drop_last()) + line_of(entries.last())
    }
}

/// The number of characters before the first line feed of `t` (all of
/// them if there is none).
pub open spec fn line_len(t: Seq<char>) -> nat
    decreases t.len(),
{
    if t.len() == 0 || t[0] == '\n' {
        0
    } else {
        1 + line_len(t.drop_first())
    }
}

/// A line ended by a line feed loses one carriage return before it.
pub open spec fn strip_cr(line: Seq<char>) -> Seq<char> {
    if line.len() > 0 && line.last() == '\r' {
        line.drop_last()
    } else {
        line
    }
}

/// The lines of a text: each ends at a line feed (`\n` or `\r\n`, which is
/// not part of it) or at the end of a non-empty remainder.
pub open spec fn lines_of(t: Seq<char>) -> Seq<Seq<char>>
    decreases t.len(),
{
    if t.len() == 0 {
        Seq::empty()
    } else if line_len(t) < t.len() {
        seq![strip_cr(t.subrange(0, line_len(t) as int))] + lines_of(
            t.subrange(line_len(t) + 1int, t.len() as int),
        )
    } else {
        seq![t]
    }
}

/// An entry that reads back as itself from its own line: it holds no line
/// feed and does not end in a carriage return.
pub open spec fn is_storable(entry: Seq<char>) -> bool {
    !entry.contains('\n') && !(entry.len() > 0 && entry.last() == '\r')
}

/// The texts held by a sequence of strings.
pub open spec fn texts_of(v: Seq<String>) -> Seq<Seq<char>> {
    v.map_values(|s: String| s@)
}

proof fn lemma_line_len(t: Seq<char>, k: int)
    requires
        0 <= k <= t.len(),
        k < t.len() ==> t[k] == '\n',
        forall|j: int| 0 <= j < k ==> t[j] != '\n',
    ensures
        line_len(t) == k,
    decreases t.len(),
{
    if t.len() > 0 && t[0] != '\n' {
        lemma_line_len(t.drop_first(), k - 1);
    }
}

proof fn lemma_file_front(entries: Seq<Seq<char>>)
    requires
        entries.len() > 0,
    ensures
        file_of(entries) == line_of(entries[0]) + file_of(entries.drop_first()),
    decreases entries.len(),
{
    if entries.len() == 1 {
        assert(entries.drop_last() =~= Seq::<Seq<char>>::empty());
        assert(entries.drop_first() =~= Seq::<Seq<char>>::empty());
        assert(file_of(entries.drop_last()) == Seq::<char>::empty());
        assert(file_of(entries.drop_first()) == Seq::<char>::empty());
        assert(file_of(entries) =~= line_of(entries[0]));
    } else {
        let front = entries.drop_last();
        lemma_file_front(front);
        assert(front.drop_first() =~= entries.drop_first().drop_last());
        assert(entries.drop_first().last() == entries.last());
        assert(file_of(entries) =~= line_of(entries[0]) + file_of(entries.drop_first()));
    }
}

proof fn lemma_lines_after_entry(entry: Seq<char>, rest: Seq<char>)
    requires
        is_storable(entry),
    ensures
        lines_of(line_of(entry) + rest) == seq![entry] + lines_of(rest),
{
    let t = line_of(entry) + rest;
    let k = entry.len() as int;
    assert forall|j: int| 0 <= j < k implies t[j] != '\n' by {
        if t[j] == '\n' {
            assert(entry[j] == '\n');
            assert(entry.contains('\n'));
        }
    }
    lemma_line_len(t, k);
    assert(t.subrange(0, k) =~= entry);
    assert(t.subrange(k + 1, t.len() as int) =~= rest);
}

/// Appending entries one line at a time to an empty history file and then
/// reading the file back yields exactly those entries, in the same order.
pub proof fn lemma_history_round_trip(entries: Seq<Seq<char>>)
    requires
        forall|i: int| 0 <= i < entries.len() ==> is_storable(#[trigger] entries[i]),
    ensures
        lines_of(file_of(entries)) == entries,
    decreases entries.len(),
{
    if entries.len() > 0 {
        let rest = entries.drop_first();
        lemma_file_front(entries);
        lemma_lines_after_entry(entries[0], file_of(rest));
        assert forall|i: int| 0 <= i < rest.len() implies is_storable(#[trigger] rest[i]) by {
            assert(rest[i] == entries[i + 1]);
        }
        lemma_history_round_trip(rest);
        assert(seq![entries[0]] + rest =~= entries);
    } else {
        assert(file_of(entries) =~= Seq::<char>::empty());
    }
}

/// Formats the history entry of an evaluation whose value reads `result`.
pub fn history_entry(first: &str, op: Operator, second: &str, result: &str) -> (r: String)
    ensures
        r@ == entry_of(first@, op, second@, result@),
{
    let mut text = String::from_str(first);
    text.append(" ");
    let symbol = op.symbol();
    text.append(symbol.as_str());
    if op != Operator::SquareRoot {
        text.append(" ");
        text.append(second);
    }
    text.append(" = ");
    text.append(result);
    text
}

/// The text to append to the history file for one entry.
pub fn history_line(entry: &str) -> (r: String)
    ensures
        r@ == line_of(entry@),
{
    let mut text = String::from_str(entry);
    proof {
        reveal_strlit("\n");
    }
    text.append("\n");
    text
}

/// Reads a history file's text into its entries, one per line, in order.
pub fn parse_history(text: &str) -> (r: Vec<String>)
    ensures
        texts_of(r@) == lines_of(text@),
{
    let n = text.unicode_len();
    let mut entries: Vec<String> = Vec::new();
    let mut start: usize = 0;
    let mut i: usize = 0;
    proof {
        assert(text@.subrange(0, n as int) =~= text@);
        assert(texts_of(entries@) =~= Seq::<Seq<char>>::empty());
        assert(Seq::<Seq<char>>::empty() + lines_of(text@) =~= lines_of(text@));
    }
    while i < n
        invariant
            n == text@.len(),
            start <= i <= n,
            forall|j: int| start <= j < i ==> text@[j] != '\n',
            texts_of(entries@) + lines_of(text@.subrange(start as int, n as int)) == lines_of(
                text@,
            ),
        decreases n - i,
    {
        let c = text.get_char(i);
        if c == '\n' {
            let ghost t = text@.subrange(start as int, n as int);
            proof {
                lemma_line_len(t, (i - start) as int);
                assert(t.subrange(0, (i - start) as int) =~= text@.subrange(
                    start as int,
                    i as int,
                ));
                assert(t.subrange((i - start) + 1, t.len() as int) =~= text@.subrange(
                    i + 1,
                    n as int,
                ));
            }
            let end = if i > start && text.get_char(i - 1) == '\r' {
                i - 1
            } else {
                i
            };
            let line = text.substring_char(start, end);
            let ghost before = entries@;
            entries.push(String::from_str(line));
            proof {
                assert(line@ =~= strip_cr(text@.subrange(start as int, i as int)));
                assert(texts_of(entries@) =~= texts_of(before) + seq![line@]);
            }
            start = i + 1;
        }
        i = i + 1;
    }
    if start < n {
        let ghost t = text@.subrange(start as int, n as int);
        proof {
            lemma_line_len(t, (n - start) as int);
        }
        let line = text.substring_char(start, n);
        let ghost before = entries@;
        entries.push(String::from_str(line));
        proof {
            assert(texts_of(entries@) =~= texts_of(before) + seq![line@]);
        }
    } else {
        proof {
            assert(text@.subrange(start as int, n as int) =~= Seq::<char>::empty());
            assert(texts_of(entries@) + Seq::<Seq<char>>::empty() =~= texts_of(entries@));
        }
    }
    entries
}

} // verus!
