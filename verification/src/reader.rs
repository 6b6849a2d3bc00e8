//! Reading a report back: the inverse of the report layout, as specification
//! functions, and the proofs that relate the two.

use vstd::prelude::*;
use crate::report::{
    ProvenanceText, index_name_rows, join_lines, name_index_line, name_index_rows,
    provenance_lines, report_lines, report_text,
};
use crate::text::{decimal, digit};

verus! {

/// The value of a decimal digit character; anything else counts as nine.
pub open spec fn digit_value(c: char) -> nat {
    if c == '0' {
        0
    } else if c == '1' {
        1
    } else if c == '2' {
        2
    } else if c == '3' {
        3
    } else if c == '4' {
        4
    } else if c == '5' {
        5
    } else if c == '6' {
        6
    } else if c == '7' {
        7
    } else if c == '8' {
        8
    } else {
        9
    }
}

/// The number that a decimal numeral denotes.
pub open spec fn numeral_value(s: Seq<char>) -> nat
    decreases s.len(),
{
    if s.len() == 0 {
        0
    } else {
        numeral_value(s.drop_last()) * 10 + digit_value(s.last())
    }
}

/// The position of the last `c` in `s`, or -1 when there is none.
pub open spec fn last_index(s: Seq<char>, c: char) -> int
    decreases s.len(),
{
    if s.len() == 0 {
        -1
    } else if s.last() == c {
        s.len() - 1
    } else {
        last_index(s.drop_last(), c)
    }
}

/// `c` does not occur in `s`.
pub open spec fn free_of(s: Seq<char>, c: char) -> bool {
    forall|k: int| 0 <= k < s.len() ==> s[k] != c
}

/// Reads a row of the first table: the name is what precedes the last tab,
/// the index is the numeral after it. A line without a tab is no row.
pub open spec fn read_name_index(line: Seq<char>) -> Option<(Seq<char>, nat)> {
    let tab = last_index(line, '\t');
    if tab < 0 {
        None
    } else {
        Some((line.take(tab), numeral_value(line.skip(tab + 1))))
    }
}

/// Cuts a text into its lines, each of which ends at a line feed.
pub open spec fn split_lines(text: Seq<char>) -> Seq<Seq<char>>
    decreases text.len(),
{
    if text.len() == 0 {
        Seq::empty()
    } else {
        let body = text.drop_last();
        let start = last_index(body, '\n') + 1;
        if 0 <= start <= body.len() {
            split_lines(body.take(start)).push(body.skip(start))
        } else {
            Seq::empty()
        }
    }
}

/// The rows of the first table of a report given as text: the report has
/// ten fixed lines and two tables of equal length, and the first table
/// starts at the ninth line.
pub open spec fn read_section_one(text: Seq<char>) -> Seq<Option<(Seq<char>, nat)>> {
    let lines = split_lines(text);
    let count = (lines.len() - 10) / 2;
    Seq::new(
        if count >= 0 {
            count as nat
        } else {
            0
        },
        |i: int| read_name_index(lines[8 + i]),
    )
}

/// A numeral holds only digits, and denotes the number it was written for.
pub proof fn decimal_reads_back(n: nat)
    ensures
        numeral_value(decimal(n)) == n,
        free_of(decimal(n), '\t'),
        free_of(decimal(n), '\n'),
    decreases n,
{
    if n < 10 {
        assert(decimal(n).drop_last() =~= Seq::<char>::empty());
        assert(numeral_value(decimal(n).drop_last()) == 0);
        assert(digit_value(digit(n)) == n);
    } else {
        decimal_reads_back(n / 10);
        assert(decimal(n).drop_last() =~= decimal(n / 10));
        assert(decimal(n).last() == digit(n % 10));
        assert(digit_value(digit(n % 10)) == n % 10);
        assert(numeral_value(decimal(n)) == numeral_value(decimal(n / 10)) * 10 + n % 10);
    }
}

proof fn last_index_skips(a: Seq<char>, b: Seq<char>, c: char)
    requires
        free_of(b, c),
    ensures
        last_index(a + b, c) == last_index(a, c),
    decreases b.len(),
{
    if b.len() == 0 {
        assert(a + b =~= a);
    } else {
        assert((a + b).last() == b.last());
        assert((a + b).drop_last() =~= a + b.drop_last());
        last_index_skips(a, b.drop_last(), c);
    }
}

/// Reading a row of the first table gives back the name and the index it
/// was written from, whatever characters the name holds.
pub proof fn row_reads_back(name: Seq<char>, index: nat)
    ensures
        read_name_index(name_index_line(name, index)) == Some((name, index)),
{
    let line = name_index_line(name, index);
    decimal_reads_back(index);
    last_index_skips(name.push('\t'), decimal(index), '\t');
    assert(last_index(name.push('\t'), '\t') == name.len());
    assert(line.take(name.len() as int) =~= name);
    assert(line.skip(name.len() as int + 1) =~= decimal(index));
}

/// Cutting joined lines gives back the lines, provided none of them holds a
/// line feed.
pub proof fn lines_read_back(lines: Seq<Seq<char>>)
    requires
        forall|i: int| 0 <= i < lines.len() ==> free_of(#[trigger] lines[i], '\n'),
    ensures
        split_lines(join_lines(lines)) == lines,
    decreases lines.len(),
{
    if lines.len() > 0 {
        let before = lines.drop_last();
        let joined = join_lines(before);
        let text = join_lines(lines);
        let body = text.drop_last();
        assert(body =~= joined + lines.last());
        last_index_skips(joined, lines.last(), '\n');
        if before.len() > 0 {
            assert(joined.last() == '\n');
        }
        assert(last_index(joined, '\n') == joined.len() - 1);
        assert(body.take(joined.len() as int) =~= joined);
        assert(body.skip(joined.len() as int) =~= lines.last());
        lines_read_back(before);
        assert(before.push(lines.last()) =~= lines);
    }
}

/// Reading the first table of a generated report recovers every header with
/// its index, in order. Line feeds inside a name or a provenance value would
/// break the report's lines apart, so they are excluded; tabs are not.
pub proof fn section_one_reads_back(p: ProvenanceText, headers: Seq<Seq<char>>)
    requires
        free_of(p.tool_path, '\n'),
        free_of(p.created_at, '\n'),
        free_of(p.user, '\n'),
        free_of(p.input_path, '\n'),
        free_of(p.report_path, '\n'),
        free_of(p.log_path, '\n'),
        forall|i: int| 0 <= i < headers.len() ==> free_of(#[trigger] headers[i], '\n'),
    ensures
        read_section_one(report_text(p, headers)) == Seq::new(
            headers.len(),
            |i: int| Some((headers[i], i as nat)),
        ),
{
    let lines = report_lines(p, headers);
    fixed_lines_are_single(p);
    assert forall|i: int| 0 <= i < lines.len() implies free_of(#[trigger] lines[i], '\n') by {
        let n = headers.len() as int;
        if 8 <= i < 8 + n {
            decimal_reads_back((i - 8) as nat);
            assert(lines[i] == name_index_line(headers[i - 8], (i - 8) as nat));
        } else if 10 + n <= i {
            decimal_reads_back((i - 10 - n) as nat);
            assert(lines[i] == index_name_rows(headers)[i - 10 - n]);
        } else if i < 7 {
            assert(lines[i] == provenance_lines(p)[i]);
        }
    }
    lines_read_back(lines);
    assert forall|i: int| 0 <= i < headers.len() implies read_name_index(#[trigger] lines[8 + i])
        == Some((headers[i], i as nat)) by {
        assert(lines[8 + i] == name_index_rows(headers)[i]);
        row_reads_back(headers[i], i as nat);
    }
    assert(read_section_one(report_text(p, headers)) =~= Seq::new(
        headers.len(),
        |i: int| Some((headers[i], i as nat)),
    ));
}

proof fn fixed_lines_are_single(p: ProvenanceText)
    requires
        free_of(p.tool_path, '\n'),
        free_of(p.created_at, '\n'),
        free_of(p.user, '\n'),
        free_of(p.input_path, '\n'),
        free_of(p.report_path, '\n'),
        free_of(p.log_path, '\n'),
    ensures
        forall|i: int| 0 <= i < 7 ==> free_of(#[trigger] provenance_lines(p)[i], '\n'),
        free_of("# Section 1: Column Name -> Index"@, '\n'),
        free_of("# Section 2: Index -> Column Name"@, '\n'),
{
    reveal_strlit("## method-created: ");
    reveal_strlit("## date-created: ");
    reveal_strlit("## created-by: ");
    reveal_strlit("## infile: ");
    reveal_strlit("## report-file: ");
    reveal_strlit("## logfile: ");
    reveal_strlit("# Section 1: Column Name -> Index");
    reveal_strlit("# Section 2: Index -> Column Name");
}

/// Two reports for the same headers whose provenance differs at most in the
/// timestamp have the same number of lines and agree on every line but the
/// second, which carries the timestamp; with equal timestamps the texts are
/// equal.
pub proof fn report_varies_only_in_timestamp(
    a: ProvenanceText,
    b: ProvenanceText,
    headers: Seq<Seq<char>>,
)
    requires
        a.tool_path == b.tool_path,
        a.user == b.user,
        a.input_path == b.input_path,
        a.report_path == b.report_path,
        a.log_path == b.log_path,
    ensures
        report_lines(a, headers).len() == report_lines(b, headers).len(),
        forall|i: int|
            0 <= i < report_lines(a, headers).len() && i != 1 ==> report_lines(a, headers)[i]
                == report_lines(b, headers)[i],
        a.created_at == b.created_at ==> report_text(a, headers) == report_text(b, headers),
{
    let la = report_lines(a, headers);
    let lb = report_lines(b, headers);
    assert forall|i: int| 0 <= i < la.len() && i != 1 implies la[i] == lb[i] by {
        if i < 7 {
            assert(la[i] == provenance_lines(a)[i]);
            assert(lb[i] == provenance_lines(b)[i]);
        }
    }
    if a.created_at == b.created_at {
        assert(la =~= lb);
    }
}

} // verus!
