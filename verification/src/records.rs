//! Commit records read from `git log --format=...` output: either one record
//! per line with fields separated by `|`, or records ended by the record
//! separator U+001E with fields separated by the unit separator U+001F.
use vstd::prelude::*;
use crate::flow::texts;
use crate::text::{find_char, line_at, line_end, lemma_line_end_bounds, next_line, string_of, to_chars, index_of_char, lemma_index_of_char};

verus! {

/// What `line.splitn(n, sep)` yields: at most `n` pieces, the last one the
/// rest of the line.
pub open spec fn fields(line: Seq<char>, sep: char, n: nat) -> Seq<Seq<char>>
    decreases n,
{
    if n <= 1 || index_of_char(line, sep) < 0 {
        seq![line]
    } else {
        let i = index_of_char(line, sep);
        seq![line.take(i)] + fields(line.skip(i + 1), sep, (n - 1) as nat)
    }
}

/// The records of the lines of `s` from `pos` on: each line that splits into
/// exactly `n` fields gives one record, other lines are passed over.
pub open spec fn records_from(s: Seq<char>, pos: int, n: nat) -> Seq<Seq<Seq<char>>>
    decreases s.len() + 1 - pos,
{
    if pos < 0 || pos >= s.len() {
        seq![]
    } else {
        proof {
            lemma_line_end_bounds(s, pos);
        }
        let f = fields(line_at(s, pos), '|', n);
        (if f.len() == n {
            seq![f]
        } else {
            seq![]
        }) + records_from(s, line_end(s, pos) + 1, n)
    }
}

/// The records of a whole text.
pub open spec fn records_of(s: Seq<char>, n: nat) -> Seq<Seq<Seq<char>>> {
    records_from(s, 0, n)
}

/// Records as sequences of field texts.
pub open spec fn record_texts(v: Seq<Vec<String>>) -> Seq<Seq<Seq<char>>> {
    v.map_values(|r: Vec<String>| texts(r@))
}

/// Every record has `n` fields.
pub proof fn lemma_records_width(s: Seq<char>, pos: int, n: nat)
    ensures
        forall|i: int| 0 <= i < records_from(s, pos, n).len() ==> #[trigger] records_from(s, pos, n)[i].len() == n,
    decreases s.len() + 1 - pos,
{
    if 0 <= pos < s.len() {
        lemma_line_end_bounds(s, pos);
        lemma_records_width(s, line_end(s, pos) + 1, n);
        let f = fields(line_at(s, pos), '|', n);
        let head: Seq<Seq<Seq<char>>> = if f.len() == n {
            seq![f]
        } else {
            seq![]
        };
        let rest = records_from(s, line_end(s, pos) + 1, n);
        assert forall|i: int| 0 <= i < records_from(s, pos, n).len() implies #[trigger] records_from(s, pos, n)[i].len() == n by {
            if i < head.len() {
                assert(records_from(s, pos, n)[i] == head[i]);
            } else {
                assert(records_from(s, pos, n)[i] == rest[i - head.len()]);
            }
        }
    }
}

/// A line that splits into two or more fields holds the separator.
proof fn lemma_fields_nonempty(line: Seq<char>, sep: char, n: nat)
    ensures
        fields(line, sep, n).len() >= 2 ==> line.len() >= 1,
{
    crate::text::lemma_index_of_char(line, sep);
}

/// Records of two or more fields take at least two characters each.
pub proof fn lemma_records_count(s: Seq<char>, pos: int, n: nat)
    requires
        n >= 2,
        0 <= pos <= s.len() + 1,
    ensures
        records_from(s, pos, n).len() * 2 <= s.len() + 2 - pos,
    decreases s.len() + 1 - pos,
{
    if pos < s.len() {
        lemma_line_end_bounds(s, pos);
        let e = line_end(s, pos);
        lemma_records_count(s, e + 1, n);
        lemma_fields_nonempty(line_at(s, pos), '|', n);
        assert(line_at(s, pos).len() <= e - pos);
    }
}

/// Appends the pieces of `v[lo..hi].splitn(n, sep)`.
fn push_fields(v: &Vec<char>, lo: usize, hi: usize, sep: char, n: usize, out: &mut Vec<String>)
    requires
        lo <= hi <= v@.len(),
    ensures
        texts(final(out)@) == texts(old(out)@) + fields(v@.subrange(lo as int, hi as int), sep, n as nat),
    decreases n,
{
    let ghost line = v@.subrange(lo as int, hi as int);
    if n <= 1 {
        out.push(string_of(v, lo, hi));
        assert(texts(out@) =~= texts(old(out)@) + fields(line, sep, n as nat));
        return;
    }
    match find_char(v, lo, hi, sep) {
        None => {
            out.push(string_of(v, lo, hi));
            assert(texts(out@) =~= texts(old(out)@) + fields(line, sep, n as nat));
        },
        Some(i) => {
            out.push(string_of(v, lo, i));
            let ghost mid = out@;
            assert(line.take(i - lo) =~= v@.subrange(lo as int, i as int));
            assert(line.skip(i - lo + 1) =~= v@.subrange(i + 1, hi as int));
            push_fields(v, i + 1, hi, sep, n - 1, out);
            assert(texts(mid) =~= texts(old(out)@) + seq![v@.subrange(lo as int, i as int)]);
            assert(texts(out@) =~= texts(old(out)@) + fields(line, sep, n as nat));
        },
    }
}

/// The records of `s` with `n` fields each: the lines of `s` split with
/// `splitn(n, '|')`, keeping the lines that give exactly `n` pieces.
pub fn records(s: &str, n: usize) -> (r: Vec<Vec<String>>)
    ensures
        record_texts(r@) == records_of(s@, n as nat),
        forall|i: int| 0 <= i < r@.len() ==> #[trigger] r@[i]@.len() == n,
        n >= 2 ==> r@.len() * 2 <= usize::MAX + 2,
{
    let v = to_chars(s);
    proof {
        if n >= 2 {
            lemma_records_count(v@, 0, n as nat);
        }
        assert(v@.len() == v.len());
    }
    let mut out: Vec<Vec<String>> = Vec::new();
    let mut pos: usize = 0;
    while pos < v.len()
        invariant
            v@ == s@,
            pos <= v@.len(),
            records_of(v@, n as nat) == record_texts(out@) + records_from(v@, pos as int, n as nat),
            forall|i: int| 0 <= i < out@.len() ==> #[trigger] out@[i]@.len() == n,
            n >= 2 ==> records_of(v@, n as nat).len() * 2 <= usize::MAX + 2,
        decreases v@.len() - pos,
    {
        let (hi, e) = next_line(&v, pos);
        let mut f: Vec<String> = Vec::new();
        push_fields(&v, pos, hi, '|', n, &mut f);
        assert(texts(f@) =~= fields(line_at(v@, pos as int), '|', n as nat));
        let ghost before = out@;
        if f.len() == n {
            out.push(f);
            assert(record_texts(out@) =~= record_texts(before) + seq![fields(line_at(v@, pos as int), '|', n as nat)]);
        }
        assert(records_of(v@, n as nat) =~= record_texts(out@) + records_from(v@, e + 1, n as nat));
        if e == v.len() {
            assert(records_from(v@, e + 1, n as nat) =~= Seq::<Seq<Seq<char>>>::empty());
            assert(record_texts(out@) =~= records_of(v@, n as nat));
            assert(record_texts(out@).len() == out@.len());
            return out;
        }
        pos = e + 1;
    }
    assert(record_texts(out@) =~= records_of(v@, n as nat));
    assert(record_texts(out@).len() == out@.len());
    out
}

/// A piece of log output without the line feed that `git log` writes after
/// the previous record.
pub open spec fn without_feed(p: Seq<char>) -> Seq<char> {
    if p.len() > 0 && p[0] == '\n' {
        p.drop_first()
    } else {
        p
    }
}

/// The records of log output written with `%x1e` after each commit and
/// `%x1f` between fields: the pieces of `s` between record separators, each
/// without a leading line feed, split with `splitn(n, '\u{1f}')`; pieces that
/// do not give exactly `n` fields are passed over. A field may span lines.
pub open spec fn entries_of(s: Seq<char>, n: nat) -> Seq<Seq<Seq<char>>>
    decreases s.len(),
{
    if s.len() == 0 {
        seq![]
    } else {
        proof {
            lemma_index_of_char(s, '\u{1e}');
        }
        let i = index_of_char(s, '\u{1e}');
        let piece = if i < 0 {
            s
        } else {
            s.take(i)
        };
        let rest = if i < 0 {
            Seq::empty()
        } else {
            s.skip(i + 1)
        };
        let f = fields(without_feed(piece), '\u{1f}', n);
        (if f.len() == n {
            seq![f]
        } else {
            seq![]
        }) + entries_of(rest, n)
    }
}

/// Records of two or more fields take at least two characters each.
pub proof fn lemma_entries_count(s: Seq<char>, n: nat)
    requires
        n >= 2,
    ensures
        entries_of(s, n).len() * 2 <= s.len() + 1,
    decreases s.len(),
{
    if s.len() > 0 {
        lemma_index_of_char(s, '\u{1e}');
        let i = index_of_char(s, '\u{1e}');
        let piece = if i < 0 {
            s
        } else {
            s.take(i)
        };
        let rest = if i < 0 {
            Seq::<char>::empty()
        } else {
            s.skip(i + 1)
        };
        lemma_entries_count(rest, n);
        lemma_fields_nonempty(without_feed(piece), '\u{1f}', n);
    }
}

/// The records of log output written with record and field separators (see
/// `entries_of`), `n` fields each.
pub fn entries(s: &str, n: usize) -> (r: Vec<Vec<String>>)
    ensures
        record_texts(r@) == entries_of(s@, n as nat),
        forall|i: int| 0 <= i < r@.len() ==> #[trigger] r@[i]@.len() == n,
        n >= 2 ==> r@.len() * 2 <= usize::MAX + 2,
{
    let v = to_chars(s);
    proof {
        if n >= 2 {
            lemma_entries_count(v@, n as nat);
        }
        assert(v@.len() == v.len());
        assert(v@.skip(0) =~= v@);
    }
    let mut out: Vec<Vec<String>> = Vec::new();
    let mut pos: usize = 0;
    while pos < v.len()
        invariant
            v@ == s@,
            pos <= v@.len(),
            entries_of(v@, n as nat) == record_texts(out@) + entries_of(v@.skip(pos as int), n as nat),
            forall|i: int| 0 <= i < out@.len() ==> #[trigger] out@[i]@.len() == n,
            n >= 2 ==> entries_of(v@, n as nat).len() * 2 <= usize::MAX + 2,
        decreases v@.len() - pos,
    {
        let ghost t = v@.skip(pos as int);
        assert(t =~= v@.subrange(pos as int, v@.len() as int));
        proof {
            lemma_index_of_char(t, '\u{1e}');
        }
        let found = find_char(&v, pos, v.len(), '\u{1e}');
        let (hi, next) = match found {
            Some(i) => (i, i + 1),
            None => (v.len(), v.len()),
        };
        let ghost piece = v@.subrange(pos as int, hi as int);
        proof {
            match found {
                Some(i) => {
                    assert(t.take(i - pos) =~= piece);
                    assert(t.skip(i - pos + 1) =~= v@.skip(next as int));
                },
                None => {
                    assert(t =~= piece);
                    assert(v@.skip(next as int) =~= Seq::<char>::empty());
                },
            }
        }
        let lo = if hi > pos && v[pos] == '\n' {
            pos + 1
        } else {
            pos
        };
        proof {
            if lo > pos {
                assert(piece[0] == v@[pos as int]);
                assert(piece.drop_first() =~= v@.subrange(lo as int, hi as int));
            } else {
                assert(piece =~= v@.subrange(lo as int, hi as int));
            }
        }
        let mut f: Vec<String> = Vec::new();
        push_fields(&v, lo, hi, '\u{1f}', n, &mut f);
        assert(texts(f@) =~= fields(without_feed(piece), '\u{1f}', n as nat));
        let ghost before = out@;
        if f.len() == n {
            out.push(f);
            assert(record_texts(out@) =~= record_texts(before) + seq![fields(without_feed(piece), '\u{1f}', n as nat)]);
        }
        assert(entries_of(v@, n as nat) =~= record_texts(out@) + entries_of(v@.skip(next as int), n as nat));
        pos = next;
    }
    assert(v@.skip(pos as int) =~= Seq::<char>::empty());
    assert(record_texts(out@) =~= entries_of(v@, n as nat));
    assert(record_texts(out@).len() == out@.len());
    out
}

} // verus!
