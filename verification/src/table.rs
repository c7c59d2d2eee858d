//! The table-variant output: a CSV table with a fixed three-column header
//! and one record per entry. This mode has no merge-with-base support and is
//! the alternative to the pipe-delimited text mode.

use vstd::prelude::*;

use crate::model::Entry;
use crate::model::EntryView;
use crate::model::Overrides;
use crate::rows::flag;
use crate::rows::spec_flag;

verus! {

/// The fixed CSV header line, newline-terminated.
pub open spec fn spec_header() -> Seq<char> {
    "ModId,Enable Dynamic Download,Allow non-dataonly blueprints"@ + seq!['\n']
}

/// The newline-terminated CSV record for one entry:
/// `<mod_id>,<dynamic-download flag>,<non-dataonly-blueprints flag>`.
pub open spec fn spec_record(e: EntryView) -> Seq<char> {
    e.mod_id + seq![','] + spec_flag(e.enable_dynamic_download) + seq![','] + spec_flag(
        e.allow_non_dataonly_blueprints,
    ) + seq!['\n']
}

/// The records of all entries, concatenated in input order.
pub open spec fn spec_records(entries: Seq<EntryView>) -> Seq<char>
    decreases entries.len(),
{
    if entries.len() == 0 {
        Seq::<char>::empty()
    } else {
        spec_records(entries.drop_last()) + spec_record(entries.last())
    }
}

/// The whole CSV table: the header followed by one record per entry.
pub open spec fn spec_table(entries: Seq<EntryView>) -> Seq<char> {
    spec_header() + spec_records(entries)
}

/// Renders the newline-terminated CSV record for one entry.
pub fn format_record(entry: &Entry) -> (r: String)
    ensures
        r@ == spec_record(entry@),
{
    let mut r = String::from_str(entry.mod_id.as_str());
    r.append(",");
    r.append(flag(entry.enable_dynamic_download));
    r.append(",");
    r.append(flag(entry.allow_non_dataonly_blueprints));
    r.append("\n");
    proof {
        reveal_strlit(",");
        reveal_strlit("\n");
        assert(","@ =~= seq![',']);
        assert("\n"@ =~= seq!['\n']);
        assert(r@ =~= spec_record(entry@));
    }
    r
}

/// Renders the whole CSV table: the header row, then one record per entry in
/// input order.
pub fn render_table(overrides: &Overrides) -> (r: String)
    ensures
        r@ == spec_table(overrides@),
{
    let mut acc = String::from_str("ModId,Enable Dynamic Download,Allow non-dataonly blueprints");
    acc.append("\n");
    proof {
        reveal_strlit("\n");
        assert("\n"@ =~= seq!['\n']);
        assert(acc@ =~= spec_header());
    }
    let mut i: usize = 0;
    while i < overrides.entries.len()
        invariant
            0 <= i <= overrides.entries.len(),
            acc@ == spec_header() + spec_records(overrides@.take(i as int)),
        decreases overrides.entries.len() - i,
    {
        let record = format_record(&overrides.entries[i]);
        acc.append(record.as_str());
        proof {
            assert(overrides@.take(i + 1).drop_last() =~= overrides@.take(i as int));
            assert(overrides@.take(i + 1).last() == overrides@[i as int]);
            assert(acc@ =~= spec_header() + spec_records(overrides@.take(i + 1)));
        }
        i = i + 1;
    }
    proof {
        assert(overrides@.take(overrides@.len() as int) =~= overrides@);
    }
    acc
}

} // verus!
