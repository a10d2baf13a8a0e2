//! CSV text: fields separated by commas, lines by newlines, and a field that
//! holds a comma, a quote or a line break quoted with its quotes doubled.
use vstd::prelude::*;
use vstd::string::*;

use crate::text::{push_str, string_from_chars};

verus! {

pub open spec fn is_special(c: char) -> bool {
    c == ',' || c == '"' || c == '\n' || c == '\r'
}

pub open spec fn needs_quotes(f: Seq<char>) -> bool {
    exists|i: int| 0 <= i < f.len() && is_special(#[trigger] f[i])
}

/// `f` with every `"` doubled.
pub open spec fn doubled_quotes(f: Seq<char>) -> Seq<char>
    decreases f.len(),
{
    if f.len() == 0 {
        f
    } else {
        doubled_quotes(f.drop_last()) + if f.last() == '"' {
            seq!['"', '"']
        } else {
            seq![f.last()]
        }
    }
}

/// One field as written.
pub open spec fn csv_field(f: Seq<char>) -> Seq<char> {
    if needs_quotes(f) {
        seq!['"'] + doubled_quotes(f) + seq!['"']
    } else {
        f
    }
}

/// The fields of one line, written and separated by commas.
pub open spec fn csv_row(fields: Seq<Seq<char>>) -> Seq<char>
    decreases fields.len(),
{
    if fields.len() == 0 {
        Seq::empty()
    } else if fields.len() == 1 {
        csv_field(fields[0])
    } else {
        csv_row(fields.drop_last()) + seq![','] + csv_field(fields.last())
    }
}

/// Lines joined by newlines.
pub open spec fn csv_text(rows: Seq<Seq<Seq<char>>>) -> Seq<char>
    decreases rows.len(),
{
    if rows.len() == 0 {
        Seq::empty()
    } else if rows.len() == 1 {
        csv_row(rows[0])
    } else {
        csv_text(rows.drop_last()) + seq!['\n'] + csv_row(rows.last())
    }
}

/// A field is written as it is unless it holds a comma, a double quote, a
/// line feed or a carriage return; then it is wrapped in double quotes with
/// each of its double quotes doubled.
pub proof fn lemma_field_quoting(f: Seq<char>)
    ensures
        (forall|i: int|
            0 <= i < f.len() ==> #[trigger] f[i] != ',' && f[i] != '"' && f[i] != '\n' && f[i]
                != '\r') ==> csv_field(f) == f,
        (exists|i: int|
            0 <= i < f.len() && (#[trigger] f[i] == ',' || f[i] == '"' || f[i] == '\n' || f[i]
                == '\r')) ==> csv_field(f) == seq!['"'] + doubled_quotes(f) + seq!['"'],
        doubled_quotes(Seq::<char>::empty()) == Seq::<char>::empty(),
        f.len() > 0 && f.last() == '"' ==> doubled_quotes(f) == doubled_quotes(f.drop_last()) + seq![
            '"',
            '"',
        ],
        f.len() > 0 && f.last() != '"' ==> doubled_quotes(f) == doubled_quotes(f.drop_last()) + seq![
            f.last(),
        ],
{
    if exists|i: int|
        0 <= i < f.len() && (#[trigger] f[i] == ',' || f[i] == '"' || f[i] == '\n' || f[i] == '\r') {
        let i = choose|i: int|
            0 <= i < f.len() && (#[trigger] f[i] == ',' || f[i] == '"' || f[i] == '\n' || f[i]
                == '\r');
        assert(is_special(f[i]));
    }
}

/// Fields are separated by commas and lines by line feeds, with nothing
/// added before the first or after the last.
pub proof fn lemma_lines_and_separators(fields: Seq<Seq<char>>, x: Seq<char>, rows: Seq<Seq<Seq<char>>>)
    ensures
        csv_row(seq![x]) == csv_field(x),
        fields.len() > 0 ==> csv_row(fields.push(x)) == csv_row(fields) + seq![','] + csv_field(x),
        csv_text(seq![fields]) == csv_row(fields),
        rows.len() > 0 ==> csv_text(rows.push(fields)) == csv_text(rows) + seq!['\n'] + csv_row(fields),
{
    assert(fields.push(x).drop_last() =~= fields);
    assert(rows.push(fields).drop_last() =~= rows);
}

fn needs_quoting(f: &str) -> (r: bool)
    ensures
        r == needs_quotes(f@),
{
    let n = f.unicode_len();
    let mut i: usize = 0;
    while i < n
        invariant
            n == f@.len(),
            i <= n,
            forall|j: int| 0 <= j < i ==> !is_special(#[trigger] f@[j]),
        decreases n - i,
    {
        let c = f.get_char(i);
        if c == ',' || c == '"' || c == '\n' || c == '\r' {
            return true;
        }
        i = i + 1;
    }
    false
}

/// Appends one field as written.
pub fn push_csv_field(out: &mut Vec<char>, f: &str)
    ensures
        final(out)@ == old(out)@ + csv_field(f@),
{
    if !needs_quoting(f) {
        push_str(out, f);
        return;
    }
    out.push('"');
    let ghost start = out@;
    let n = f.unicode_len();
    let mut i: usize = 0;
    while i < n
        invariant
            n == f@.len(),
            i <= n,
            out@ == start + doubled_quotes(f@.subrange(0, i as int)),
        decreases n - i,
    {
        let c = f.get_char(i);
        proof {
            let next = f@.subrange(0, i + 1);
            assert(next.drop_last() =~= f@.subrange(0, i as int));
            assert(next.last() == c);
        }
        if c == '"' {
            out.push('"');
            out.push('"');
        } else {
            out.push(c);
        }
        i = i + 1;
        proof {
            let next = f@.subrange(0, i as int);
            assert(out@ =~= start + doubled_quotes(next));
        }
    }
    out.push('"');
    proof {
        assert(f@.subrange(0, n as int) =~= f@);
        assert(out@ =~= old(out)@ + csv_field(f@));
    }
}

/// Appends `f` as the next field of a line that already holds `count` fields.
pub fn push_csv_next_field(out: &mut Vec<char>, f: &str, count: usize)
    ensures
        count > 0 ==> final(out)@ == old(out)@ + seq![','] + csv_field(f@),
        count == 0 ==> final(out)@ == old(out)@ + csv_field(f@),
{
    if count > 0 {
        out.push(',');
    }
    push_csv_field(out, f);
    proof {
        if count > 0 {
            assert(final(out)@ =~= old(out)@ + seq![','] + csv_field(f@));
        }
    }
}

/// One CSV line of `fields`.
pub fn csv_line(fields: &Vec<String>) -> (r: String)
    ensures
        r@ == csv_row(fields@.map_values(|f: String| f@)),
{
    let mut out: Vec<char> = Vec::new();
    let mut i: usize = 0;
    while i < fields.len()
        invariant
            i <= fields@.len(),
            out@ == csv_row(fields@.subrange(0, i as int).map_values(|f: String| f@)),
        decreases fields@.len() - i,
    {
        let ghost before = fields@.subrange(0, i as int).map_values(|f: String| f@);
        let ghost after = fields@.subrange(0, i + 1).map_values(|f: String| f@);
        assert(after.drop_last() =~= before);
        assert(after.last() == fields@[i as int]@);
        push_csv_next_field(&mut out, fields[i].as_str(), i);
        i = i + 1;
    }
    assert(fields@.subrange(0, i as int) =~= fields@);
    string_from_chars(&out)
}

} // verus!
