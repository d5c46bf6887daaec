//! Turning the provider's CSV history into the FNU flat file.
use vstd::prelude::*;
use crate::errors::ErrorKind;
use crate::options::{DataValue, col_name_of};
use crate::text::{chars_of, lines_chars, lines_of, push_str, split_chars, split_on, string_of};

verus! {

/// The first index at or after `i` where `parts` holds `x`.
pub open spec fn position_from(parts: Seq<Seq<char>>, x: Seq<char>, i: int) -> Option<int>
    decreases parts.len() - i,
{
    if i < 0 || i >= parts.len() {
        None
    } else if parts[i] == x {
        Some(i)
    } else {
        position_from(parts, x, i + 1)
    }
}

/// The index of the header field that is exactly `name`.
pub open spec fn column_of(header: Seq<char>, name: Seq<char>) -> Option<int> {
    position_from(split_on(header, ','), name, 0)
}

/// The output line for one data row, without its line feed: the date
/// `yyyy-mm-dd` of the first field as `mm/dd/yyyy`, the field at `col`,
/// and a constant `0`. `None` when the date is shorter than ten
/// characters or the row has no field at `col`.
pub open spec fn row_text(line: Seq<char>, col: int) -> Option<Seq<char>> {
    let f = split_on(line, ',');
    let d = f[0];
    if col < 0 || f.len() <= col || d.len() < 10 {
        None
    } else {
        Some(d.subrange(5, 7) + seq!['/'] + d.subrange(8, 10) + seq!['/'] + d.subrange(0, 4)
            + seq![','] + f[col] + ",0"@)
    }
}

/// The output lines for the data rows, each ended by a line feed, in
/// input order; `None` when any row is malformed.
pub open spec fn rows_text(rows: Seq<Seq<char>>, col: int) -> Option<Seq<char>>
    decreases rows.len(),
{
    if rows.len() == 0 {
        Some(Seq::<char>::empty())
    } else {
        match (rows_text(rows.drop_last(), col), row_text(rows.last(), col)) {
            (Some(a), Some(r)) => Some(a + r + seq!['\n']),
            _ => None,
        }
    }
}

/// A malformed row fails every longer run of rows that starts the same way.
proof fn lemma_rows_prefix_fails(rows: Seq<Seq<char>>, k: int, col: int)
    requires
        0 <= k <= rows.len(),
        rows_text(rows.subrange(0, k), col) is None,
    ensures
        rows_text(rows, col) is None,
    decreases rows.len(),
{
    if k == rows.len() {
        assert(rows.subrange(0, k) =~= rows);
    } else {
        assert(rows.drop_last().subrange(0, k) =~= rows.subrange(0, k));
        lemma_rows_prefix_fails(rows.drop_last(), k, col);
    }
}

/// The header of the output: the symbol, then the display name (symbol
/// and column), each on its own line.
pub open spec fn fnu_header(symbol: Seq<char>, v: DataValue) -> Seq<char> {
    symbol + seq!['\n'] + symbol + seq![' '] + col_name_of(v) + seq!['\n']
}

/// The whole output for a CSV text, or the failure.
pub open spec fn fnu_text(csv: Seq<char>, symbol: Seq<char>, v: DataValue) -> Result<Seq<char>, ErrorKind> {
    let ls = lines_of(csv);
    if ls.len() == 0 {
        Err(ErrorKind::MissingColumn)
    } else {
        match column_of(ls[0], col_name_of(v)) {
            None => Err(ErrorKind::MissingColumn),
            Some(col) => match rows_text(ls.skip(1), col) {
                None => Err(ErrorKind::MalformedRow),
                Some(body) => Ok(fnu_header(symbol, v) + body),
            },
        }
    }
}

fn position_in(parts: &Vec<Vec<char>>, x: &Vec<char>) -> (r: Option<usize>)
    ensures
        r matches Some(k) ==> position_from(parts.deep_view(), x@, 0) == Some(k as int),
        r is None ==> position_from(parts.deep_view(), x@, 0) is None,
{
    let mut i: usize = 0;
    while i < parts.len()
        invariant
            i <= parts@.len(),
            position_from(parts.deep_view(), x@, 0) == position_from(parts.deep_view(), x@, i as int),
        decreases parts@.len() - i,
    {
        let p = &parts[i];
        assert(p@ == parts.deep_view()[i as int]);
        let mut same = p.len() == x.len();
        let mut k: usize = 0;
        while same && k < p.len()
            invariant
                k <= p@.len(),
                same ==> p@.len() == x@.len(),
                same ==> forall|j: int| 0 <= j < k ==> p@[j] == x@[j],
                !same ==> p@ != x@,
            decreases p@.len() - k,
        {
            if p[k] != x[k] {
                same = false;
            }
            k = k + 1;
        }
        if same {
            assert(p@ =~= x@);
            return Some(i);
        }
        i = i + 1;
    }
    None
}

fn column_in(header: &[char], name: &str) -> (r: Option<usize>)
    ensures
        r matches Some(k) ==> column_of(header@, name@) == Some(k as int),
        r is None ==> column_of(header@, name@) is None,
{
    let fields = split_chars(header, ',');
    let n = chars_of(name);
    position_in(&fields, &n)
}

/// The index of the column whose header is the value's name; `None` when
/// there is none.
pub fn column_index(header: &str, value: DataValue) -> (r: Option<usize>)
    ensures
        r matches Some(k) ==> column_of(header@, col_name_of(value)) == Some(k as int),
        r is None ==> column_of(header@, col_name_of(value)) is None,
{
    let h = chars_of(header);
    column_in(h.as_slice(), value.col_name())
}

fn push_range(out: &mut Vec<char>, s: &Vec<char>, from: usize, to: usize)
    requires
        from <= to <= s@.len(),
    ensures
        final(out)@ == old(out)@ + s@.subrange(from as int, to as int),
{
    let mut i: usize = from;
    while i < to
        invariant
            from <= i <= to,
            to <= s@.len(),
            out@ == old(out)@ + s@.subrange(from as int, i as int),
        decreases to - i,
    {
        out.push(s[i]);
        assert(s@.subrange(from as int, i + 1) =~= s@.subrange(from as int, i as int).push(s@[i as int]));
        i = i + 1;
    }
}

/// Appends the output line for one row, and its line feed.
fn push_row(out: &mut Vec<char>, line: &[char], col: usize) -> (ok: bool)
    ensures
        ok <==> row_text(line@, col as int) is Some,
        ok ==> final(out)@ == old(out)@ + row_text(line@, col as int)->0 + seq!['\n'],
        !ok ==> final(out)@ == old(out)@,
{
    let fields = split_chars(line, ',');
    proof {
        crate::text::lemma_split_nonempty(line@, ',');
    }
    if fields.len() <= col || fields[0].len() < 10 {
        assert(fields.len() > col ==> fields[0]@ == fields.deep_view()[0]);
        return false;
    }
    let d = &fields[0];
    let v = &fields[col];
    assert(d@ == fields.deep_view()[0]);
    assert(v@ == fields.deep_view()[col as int]);
    let ghost before = out@;
    push_range(out, d, 5, 7);
    out.push('/');
    push_range(out, d, 8, 10);
    out.push('/');
    push_range(out, d, 0, 4);
    out.push(',');
    push_range(out, v, 0, v.len());
    push_str(out, ",0");
    out.push('\n');
    assert(v@.subrange(0, v@.len() as int) =~= v@);
    assert(out@ =~= before + row_text(line@, col as int)->0 + seq!['\n']);
    true
}

/// The output line for one data row, or `MalformedRow`.
pub fn format_row(line: &str, col: usize) -> (r: Result<String, ErrorKind>)
    ensures
        r matches Ok(t) ==> row_text(line@, col as int) == Some(t@),
        r is Err ==> row_text(line@, col as int) is None && r == Err::<String, ErrorKind>(
            ErrorKind::MalformedRow,
        ),
{
    let l = chars_of(line);
    let mut out: Vec<char> = Vec::new();
    if push_row(&mut out, l.as_slice(), col) {
        out.pop();
        assert(out@ =~= row_text(line@, col as int)->0);
        Ok(string_of(out.as_slice()))
    } else {
        Err(ErrorKind::MalformedRow)
    }
}

/// The FNU text for a CSV history: two header lines, then one line per
/// row in input order. Fails with `MissingColumn` when the header row
/// lacks the value's column (or there is no header row), and with
/// `MalformedRow` when any row lacks the date or the value; nothing is
/// produced then.
pub fn write_fnu(csv: &str, symbol: &str, value: DataValue) -> (r: Result<String, ErrorKind>)
    ensures
        match (r, fnu_text(csv@, symbol@, value)) {
            (Ok(t), Ok(u)) => t@ == u,
            (Err(e), Err(f)) => e == f,
            _ => false,
        },
{
    let c = chars_of(csv);
    let lines = lines_chars(c.as_slice());
    let ghost ls = lines.deep_view();
    if lines.len() == 0 {
        return Err(ErrorKind::MissingColumn);
    }
    assert(lines[0]@ == ls[0]);
    let col = match column_in(lines[0].as_slice(), value.col_name()) {
        None => return Err(ErrorKind::MissingColumn),
        Some(col) => col,
    };
    let mut out: Vec<char> = Vec::new();
    push_str(&mut out, symbol);
    out.push('\n');
    push_str(&mut out, symbol);
    out.push(' ');
    push_str(&mut out, value.col_name());
    out.push('\n');
    assert(out@ =~= fnu_header(symbol@, value));
    let mut i: usize = 1;
    while i < lines.len()
        invariant
            1 <= i <= lines@.len(),
            lines.deep_view() == ls,
            ls == lines_of(csv@),
            ls.len() > 0,
            column_of(ls[0], col_name_of(value)) == Some(col as int),
            rows_text(ls.subrange(1, i as int), col as int) == Some(
                out@.subrange(fnu_header(symbol@, value).len() as int, out@.len() as int),
            ),
            out@.subrange(0, fnu_header(symbol@, value).len() as int) == fnu_header(symbol@, value),
            fnu_header(symbol@, value).len() <= out@.len(),
        decreases lines@.len() - i,
    {
        let ghost before = out@;
        let ghost h = fnu_header(symbol@, value).len() as int;
        assert(lines[i as int]@ == ls[i as int]);
        assert(ls.subrange(1, i + 1).drop_last() =~= ls.subrange(1, i as int));
        assert(ls.subrange(1, i + 1).last() == ls[i as int]);
        if !push_row(&mut out, lines[i].as_slice(), col) {
            proof {
                assert(ls.skip(1).subrange(0, i as int) =~= ls.subrange(1, i + 1));
                assert(row_text(ls[i as int], col as int) is None);
                assert(rows_text(ls.subrange(1, i + 1), col as int) is None);
                lemma_rows_prefix_fails(ls.skip(1), i as int, col as int);
            }
            return Err(ErrorKind::MalformedRow);
        }
        assert(out@.subrange(h, out@.len() as int) =~= before.subrange(h, before.len() as int)
            + row_text(ls[i as int], col as int)->0 + seq!['\n']);
        assert(out@.subrange(0, h) =~= before.subrange(0, h));
        i = i + 1;
    }
    assert(ls.subrange(1, ls.len() as int) =~= ls.skip(1));
    assert(out@ =~= out@.subrange(0, fnu_header(symbol@, value).len() as int) + out@.subrange(
        fnu_header(symbol@, value).len() as int,
        out@.len() as int,
    ));
    Ok(string_of(out.as_slice()))
}

} // verus!
