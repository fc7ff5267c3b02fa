//! The output formatter: combines the optional file name, the formatted
//! offset, the rendered text and the configured separator into emitted
//! records, and lays consecutive records out as one piece of output.

use vstd::prelude::*;
use vstd::string::StringExecFns;
use crate::config::{radix_base, Config};
use crate::radix::{digits_in_base, format_offset};
use crate::render::{render_run_text, render_text};
use crate::scan::Run;

verus! {

/// One emitted record: the final output unit for one confirmed run.
#[derive(Debug, Clone, PartialEq, Eq)]
pub struct EmittedRecord {
    /// The file name prefix, when printing file names is enabled and the
    /// source has a name.
    pub file_name: Option<String>,
    /// The start offset formatted in the configured radix; absent when no
    /// radix was configured.
    pub offset: Option<String>,
    /// The rendered text of the run.
    pub text: String,
    /// The configured separator carried along for emission; empty means
    /// newline-terminated records.
    pub separator: String,
}

/// The mathematical content of an emitted record.
pub ghost struct RecordModel {
    pub file_name: Option<Seq<char>>,
    pub offset: Option<Seq<char>>,
    pub text: Seq<char>,
    pub separator: Seq<char>,
}

impl View for EmittedRecord {
    type V = RecordModel;

    open spec fn view(&self) -> RecordModel {
        RecordModel {
            file_name: match self.file_name {
                Some(n) => Some(n@),
                None => None,
            },
            offset: match self.offset {
                Some(o) => Some(o@),
                None => None,
            },
            text: self.text@,
            separator: self.separator@,
        }
    }
}

/// The record produced for a run starting at byte offset `start` with the
/// given code-unit values, under a configuration and an optional source
/// name.
pub open spec fn record_model(
    start: int,
    values: Seq<u32>,
    source_name: Option<Seq<char>>,
    c: Config,
) -> RecordModel {
    RecordModel {
        file_name: if c.print_file_name {
            source_name
        } else {
            None
        },
        offset: match c.loc_radix {
            Some(r) => Some(digits_in_base(start as nat, radix_base(r) as nat)),
            None => None,
        },
        text: render_text(values, c.unicode_display),
        separator: c.separator@,
    }
}

/// The view of an optional borrowed source name.
pub open spec fn name_view(source_name: Option<&String>) -> Option<Seq<char>> {
    match source_name {
        Some(n) => Some(n@),
        None => None,
    }
}

/// Build the emitted record for one confirmed run: the file name when
/// enabled and present, the offset in the configured radix when one was
/// configured, the run's text rendered under the display mode, and the
/// configured separator.
pub fn make_record(run: &Run, source_name: Option<&String>, c: &Config) -> (rec: EmittedRecord)
    ensures
        rec@ == record_model(run.start as int, run.units@, name_view(source_name), *c),
{
    let file_name: Option<String> = if c.print_file_name {
        match source_name {
            Some(n) => Some(n.clone()),
            None => None,
        }
    } else {
        None
    };
    let offset: Option<String> = match c.loc_radix {
        Some(r) => Some(format_offset(run.start, r)),
        None => None,
    };
    let text = render_run_text(&run.units, c.unicode_display);
    EmittedRecord { file_name, offset, text, separator: c.separator.clone() }
}

/// One record as a single line body, the parts in output order: file name
/// (followed by `: `), formatted offset (followed by a space), rendered
/// text.
pub open spec fn line_model(r: RecordModel) -> Seq<char> {
    (match r.file_name {
        Some(n) => n + ": "@,
        None => Seq::<char>::empty(),
    }) + (match r.offset {
        Some(o) => o + " "@,
        None => Seq::<char>::empty(),
    }) + r.text
}

/// Lay out one record's parts in output order.
pub fn record_line(rec: &EmittedRecord) -> (s: String)
    ensures
        s@ == line_model(rec@),
{
    let mut s = String::new();
    match &rec.file_name {
        Some(n) => {
            s.append(n.as_str());
            s.append(": ");
        },
        None => {},
    }
    match &rec.offset {
        Some(o) => {
            s.append(o.as_str());
            s.append(" ");
        },
        None => {},
    }
    s.append(rec.text.as_str());
    proof {
        assert(s@ =~= line_model(rec@));
    }
    s
}

/// The output for the first `n` records: with the default empty separator
/// every record is terminated by a newline; a configured separator stands
/// between consecutive records instead, not within one.
pub open spec fn emit_prefix(rs: Seq<RecordModel>, n: int) -> Seq<char>
    decreases n,
{
    if n <= 0 {
        Seq::empty()
    } else {
        let r = rs[n - 1];
        emit_prefix(rs, n - 1) + (if r.separator.len() == 0 {
            line_model(r) + "\n"@
        } else if n == 1 {
            line_model(r)
        } else {
            r.separator + line_model(r)
        })
    }
}

/// The whole output for a sequence of records.
pub open spec fn emit_model(rs: Seq<RecordModel>) -> Seq<char> {
    emit_prefix(rs, rs.len() as int)
}

/// Lay a sequence of emitted records out as one piece of output, in the
/// order the runs were confirmed.
pub fn write_records(records: &Vec<EmittedRecord>) -> (out: String)
    ensures
        out@ == emit_model(records@.map_values(|r: EmittedRecord| r@)),
{
    let ghost models = records@.map_values(|r: EmittedRecord| r@);
    let mut out = String::new();
    let mut i: usize = 0;
    while i < records.len()
        invariant
            i <= records@.len(),
            models == records@.map_values(|r: EmittedRecord| r@),
            out@ == emit_prefix(models, i as int),
        decreases records@.len() - i,
    {
        let line = record_line(&records[i]);
        if records[i].separator.as_str().is_empty() {
            out.append(line.as_str());
            out.append("\n");
        } else {
            if i > 0 {
                out.append(records[i].separator.as_str());
            }
            out.append(line.as_str());
        }
        proof {
            assert(out@ =~= emit_prefix(models, i + 1));
        }
        i = i + 1;
    }
    out
}

} // verus!
