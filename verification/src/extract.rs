//! The whole pipeline over one byte source: decode, classify, accumulate,
//! render and format, yielding the finite sequence of emitted records in
//! input order, in a single forward pass.

use vstd::prelude::*;
use crate::config::{code_unit_width, Config};
use crate::decode::unit_values;
use crate::format::{emit_model, make_record, name_view, record_model, write_records,
    EmittedRecord, RecordModel};
use crate::scan::{run_models, scan_bytes};

verus! {

/// The records emitted when one byte source is scanned under a
/// configuration, given the source's optional name: one record per emitted
/// run, in the order the runs were confirmed.
pub open spec fn source_records_model(
    bytes: Seq<u8>,
    source_name: Option<Seq<char>>,
    c: Config,
) -> Seq<RecordModel> {
    run_models(bytes, c.char_encoding, c.whitespace, c.min_seq_len).map_values(
        |sk: (int, int)|
            record_model(
                sk.0 * code_unit_width(c.char_encoding),
                unit_values(bytes, c.char_encoding).subrange(sk.0, sk.0 + sk.1),
                source_name,
                c,
            ),
    )
}

/// Scan one byte source under the configuration and produce its emitted
/// records: one per maximal printable run of at least the configured
/// minimum length, carrying the optional file name, the offset in the
/// configured radix, the rendered text and the separator.
pub fn scan_source(bytes: &Vec<u8>, source_name: Option<&String>, c: &Config) -> (records: Vec<
    EmittedRecord,
>)
    ensures
        records@.map_values(|r: EmittedRecord| r@) == source_records_model(
            bytes@,
            name_view(source_name),
            *c,
        ),
{
    let runs = scan_bytes(bytes, c.char_encoding, c.whitespace, c.min_seq_len);
    let mut records: Vec<EmittedRecord> = Vec::new();
    let ghost model = source_records_model(bytes@, name_view(source_name), *c);
    let mut i: usize = 0;
    while i < runs.len()
        invariant
            i <= runs@.len(),
            model == source_records_model(bytes@, name_view(source_name), *c),
            runs@.len() == model.len(),
            records@.len() == i,
            forall|j: int| 0 <= j < i ==> (#[trigger] records@[j])@ == model[j],
            ({
                let rm = run_models(bytes@, c.char_encoding, c.whitespace, c.min_seq_len);
                forall|j: int|
                    0 <= j < rm.len() ==> (#[trigger] runs@[j]).start == rm[j].0
                        * code_unit_width(c.char_encoding) && runs@[j].units@ == unit_values(
                        bytes@,
                        c.char_encoding,
                    ).subrange(rm[j].0, rm[j].0 + rm[j].1)
            }),
        decreases runs@.len() - i,
    {
        let rec = make_record(&runs[i], source_name, c);
        records.push(rec);
        i = i + 1;
    }
    proof {
        assert(records@.map_values(|r: EmittedRecord| r@) =~= model);
    }
    records
}

/// Scan one byte source and lay its records out as one piece of output.
pub fn scan_source_output(bytes: &Vec<u8>, source_name: Option<&String>, c: &Config) -> (out:
    String)
    ensures
        out@ == emit_model(source_records_model(bytes@, name_view(source_name), *c)),
{
    let records = scan_source(bytes, source_name, c);
    write_records(&records)
}

/// The data-only flag is a pass-through for the external file-format
/// layer: two configurations that differ in nothing else yield identical
/// records for every source.
pub proof fn lemma_data_only_immaterial(
    bytes: Seq<u8>,
    source_name: Option<Seq<char>>,
    c_whole: Config,
    c_data: Config,
)
    requires
        c_whole.print_file_name == c_data.print_file_name,
        c_whole.min_seq_len == c_data.min_seq_len,
        c_whole.loc_radix == c_data.loc_radix,
        c_whole.whitespace == c_data.whitespace,
        c_whole.char_encoding == c_data.char_encoding,
        c_whole.unicode_display == c_data.unicode_display,
        c_whole.separator == c_data.separator,
    ensures
        source_records_model(bytes, source_name, c_whole) == source_records_model(
            bytes,
            source_name,
            c_data,
        ),
{
    assert(source_records_model(bytes, source_name, c_whole) =~= source_records_model(
        bytes,
        source_name,
        c_data,
    ));
}

/// LAW - idempotence: re-scanning the same byte source with the same
/// configuration and the same source name yields an identical sequence of
/// emitted records.
pub proof fn lemma_rescan_identical(
    bytes_first: Seq<u8>,
    bytes_again: Seq<u8>,
    name_first: Option<Seq<char>>,
    name_again: Option<Seq<char>>,
    c_first: Config,
    c_again: Config,
)
    requires
        bytes_first == bytes_again,
        name_first == name_again,
        c_first == c_again,
    ensures
        source_records_model(bytes_first, name_first, c_first) == source_records_model(
            bytes_again,
            name_again,
            c_again,
        ),
{
}

} // verus!
