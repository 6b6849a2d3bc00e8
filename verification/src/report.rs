//! The plain-text layout report: a provenance block followed by the two
//! lookup tables, one line per header.

use vstd::prelude::*;
use vstd::string::*;
use crate::text::{decimal, push_decimal, texts};

verus! {

/// Who produced a report, when, from what, and where the outputs went.
/// Every field is written to the report verbatim.
#[derive(Debug)]
pub struct RunProvenance {
    pub tool_path: String,
    pub created_at: String,
    pub user: String,
    pub input_path: String,
    pub report_path: String,
    pub log_path: String,
}

/// The provenance of a run as plain text values.
pub struct ProvenanceText {
    pub tool_path: Seq<char>,
    pub created_at: Seq<char>,
    pub user: Seq<char>,
    pub input_path: Seq<char>,
    pub report_path: Seq<char>,
    pub log_path: Seq<char>,
}

impl View for RunProvenance {
    type V = ProvenanceText;

    open spec fn view(&self) -> ProvenanceText {
        ProvenanceText {
            tool_path: self.tool_path@,
            created_at: self.created_at@,
            user: self.user@,
            input_path: self.input_path@,
            report_path: self.report_path@,
            log_path: self.log_path@,
        }
    }
}

/// The provenance block: six `## key: value` lines and a blank line.
pub open spec fn provenance_lines(p: ProvenanceText) -> Seq<Seq<char>> {
    seq![
        "## method-created: "@ + p.tool_path,
        "## date-created: "@ + p.created_at,
        "## created-by: "@ + p.user,
        "## infile: "@ + p.input_path,
        "## report-file: "@ + p.report_path,
        "## logfile: "@ + p.log_path,
        Seq::<char>::empty(),
    ]
}

/// A row of the first table: the name, a tab, the index.
pub open spec fn name_index_line(name: Seq<char>, index: nat) -> Seq<char> {
    name.push('\t') + decimal(index)
}

/// A row of the second table: the index, a tab, the name.
pub open spec fn index_name_line(index: nat, name: Seq<char>) -> Seq<char> {
    decimal(index).push('\t') + name
}

/// The rows of the first table, in header order.
pub open spec fn name_index_rows(headers: Seq<Seq<char>>) -> Seq<Seq<char>> {
    Seq::new(headers.len(), |i: int| name_index_line(headers[i], i as nat))
}

/// The rows of the second table, in header order.
pub open spec fn index_name_rows(headers: Seq<Seq<char>>) -> Seq<Seq<char>> {
    Seq::new(headers.len(), |i: int| index_name_line(i as nat, headers[i]))
}

/// Every line of the report, in order, without line terminators.
pub open spec fn report_lines(p: ProvenanceText, headers: Seq<Seq<char>>) -> Seq<Seq<char>> {
    provenance_lines(p) + seq!["# Section 1: Column Name -> Index"@] + name_index_rows(headers)
        + seq![Seq::<char>::empty(), "# Section 2: Index -> Column Name"@] + index_name_rows(
        headers,
    )
}

/// The lines one after another, each followed by a line feed.
pub open spec fn join_lines(lines: Seq<Seq<char>>) -> Seq<char>
    decreases lines.len(),
{
    if lines.len() == 0 {
        Seq::empty()
    } else {
        join_lines(lines.drop_last()) + lines.last().push('\n')
    }
}

/// The report as text.
pub open spec fn report_text(p: ProvenanceText, headers: Seq<Seq<char>>) -> Seq<char> {
    join_lines(report_lines(p, headers))
}

proof fn join_lines_push(lines: Seq<Seq<char>>, line: Seq<char>)
    ensures
        join_lines(lines.push(line)) == join_lines(lines) + line.push('\n'),
{
    assert(lines.push(line).drop_last() =~= lines);
}

fn put_line(
    out: &mut String,
    head: &str,
    tail: &str,
    Ghost(base): Ghost<Seq<char>>,
    Ghost(done): Ghost<Seq<Seq<char>>>,
)
    requires
        old(out)@ == base + join_lines(done),
    ensures
        final(out)@ == base + join_lines(done.push(head@ + tail@)),
{
    out.append(head);
    out.append(tail);
    out.append("\n");
    proof {
        reveal_strlit("\n");
        join_lines_push(done, head@ + tail@);
        assert(out@ =~= base + join_lines(done.push(head@ + tail@)));
    }
}

fn put_name_index(
    out: &mut String,
    name: &str,
    index: usize,
    Ghost(base): Ghost<Seq<char>>,
    Ghost(done): Ghost<Seq<Seq<char>>>,
)
    requires
        old(out)@ == base + join_lines(done),
    ensures
        final(out)@ == base + join_lines(done.push(name_index_line(name@, index as nat))),
{
    out.append(name);
    out.append("\t");
    push_decimal(out, index);
    out.append("\n");
    proof {
        reveal_strlit("\n");
        reveal_strlit("\t");
        join_lines_push(done, name_index_line(name@, index as nat));
        assert(out@ =~= base + join_lines(done.push(name_index_line(name@, index as nat))));
    }
}

fn put_index_name(
    out: &mut String,
    index: usize,
    name: &str,
    Ghost(base): Ghost<Seq<char>>,
    Ghost(done): Ghost<Seq<Seq<char>>>,
)
    requires
        old(out)@ == base + join_lines(done),
    ensures
        final(out)@ == base + join_lines(done.push(index_name_line(index as nat, name@))),
{
    push_decimal(out, index);
    out.append("\t");
    out.append(name);
    out.append("\n");
    proof {
        reveal_strlit("\n");
        reveal_strlit("\t");
        join_lines_push(done, index_name_line(index as nat, name@));
        assert(out@ =~= base + join_lines(done.push(index_name_line(index as nat, name@))));
    }
}

/// Appends the report for `headers` to `out`: the provenance block, then the
/// name-to-index table, a blank line, and the index-to-name table.
pub fn write_report(out: &mut String, provenance: &RunProvenance, headers: &Vec<String>)
    ensures
        final(out)@ == old(out)@ + report_text(provenance@, texts(headers@)),
{
    let ghost base = out@;
    let ghost names = texts(headers@);
    let ghost mut done: Seq<Seq<char>> = Seq::empty();
    proof {
        reveal_strlit("");
        assert(out@ =~= base + join_lines(done));
    }
    put_line(out, "## method-created: ", provenance.tool_path.as_str(), Ghost(base), Ghost(done));
    proof {
        done = done.push("## method-created: "@ + provenance.tool_path@);
    }
    put_line(out, "## date-created: ", provenance.created_at.as_str(), Ghost(base), Ghost(done));
    proof {
        done = done.push("## date-created: "@ + provenance.created_at@);
    }
    put_line(out, "## created-by: ", provenance.user.as_str(), Ghost(base), Ghost(done));
    proof {
        done = done.push("## created-by: "@ + provenance.user@);
    }
    put_line(out, "## infile: ", provenance.input_path.as_str(), Ghost(base), Ghost(done));
    proof {
        done = done.push("## infile: "@ + provenance.input_path@);
    }
    put_line(out, "## report-file: ", provenance.report_path.as_str(), Ghost(base), Ghost(done));
    proof {
        done = done.push("## report-file: "@ + provenance.report_path@);
    }
    put_line(out, "## logfile: ", provenance.log_path.as_str(), Ghost(base), Ghost(done));
    proof {
        done = done.push("## logfile: "@ + provenance.log_path@);
    }
    put_line(out, "", "", Ghost(base), Ghost(done));
    proof {
        assert(""@ + ""@ =~= Seq::<char>::empty());
        done = done.push(""@ + ""@);
        assert(done =~= provenance_lines(provenance@));
    }
    put_line(out, "# Section 1: Column Name -> Index", "", Ghost(base), Ghost(done));
    proof {
        done = done.push("# Section 1: Column Name -> Index"@ + ""@);
        assert("# Section 1: Column Name -> Index"@ + ""@ =~= "# Section 1: Column Name -> Index"@);
    }
    let ghost head = provenance_lines(provenance@) + seq!["# Section 1: Column Name -> Index"@];
    assert(done =~= head + name_index_rows(names).take(0));
    let mut i: usize = 0;
    while i < headers.len()
        invariant
            i <= headers@.len(),
            names == texts(headers@),
            out@ == base + join_lines(done),
            done == head + name_index_rows(names).take(i as int),
        decreases headers@.len() - i,
    {
        put_name_index(out, headers[i].as_str(), i, Ghost(base), Ghost(done));
        proof {
            done = done.push(name_index_line(headers@[i as int]@, i as nat));
            assert(done =~= head + name_index_rows(names).take(i + 1));
        }
        i += 1;
    }
    assert(name_index_rows(names).take(i as int) =~= name_index_rows(names));
    put_line(out, "", "", Ghost(base), Ghost(done));
    proof {
        assert(""@ + ""@ =~= Seq::<char>::empty());
        done = done.push(""@ + ""@);
    }
    put_line(out, "# Section 2: Index -> Column Name", "", Ghost(base), Ghost(done));
    proof {
        done = done.push("# Section 2: Index -> Column Name"@ + ""@);
        assert("# Section 2: Index -> Column Name"@ + ""@ =~= "# Section 2: Index -> Column Name"@);
    }
    let ghost upper = head + name_index_rows(names) + seq![
        Seq::<char>::empty(),
        "# Section 2: Index -> Column Name"@,
    ];
    assert(done =~= upper + index_name_rows(names).take(0));
    let mut k: usize = 0;
    while k < headers.len()
        invariant
            k <= headers@.len(),
            names == texts(headers@),
            out@ == base + join_lines(done),
            done == upper + index_name_rows(names).take(k as int),
        decreases headers@.len() - k,
    {
        put_index_name(out, k, headers[k].as_str(), Ghost(base), Ghost(done));
        proof {
            done = done.push(index_name_line(k as nat, headers@[k as int]@));
            assert(done =~= upper + index_name_rows(names).take(k + 1));
        }
        k += 1;
    }
    assert(index_name_rows(names).take(k as int) =~= index_name_rows(names));
    assert(done =~= report_lines(provenance@, names));
}

} // verus!
