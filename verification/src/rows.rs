//! Row formatting: a boolean flag digit and the pipe-delimited row for one
//! entry.

use vstd::prelude::*;

use crate::model::Entry;
use crate::model::EntryView;
use crate::model::Overrides;

verus! {

/// The single digit a boolean flag is rendered as.
pub open spec fn spec_flag(value: bool) -> Seq<char> {
    if value {
        seq!['1']
    } else {
        seq!['0']
    }
}

/// Renders a boolean flag: `"1"` for true, `"0"` for false.
pub fn flag(value: bool) -> (r: &'static str)
    ensures
        r@ == spec_flag(value),
{
    proof {
        reveal_strlit("1");
        reveal_strlit("0");
        assert("1"@ =~= seq!['1']);
        assert("0"@ =~= seq!['0']);
    }
    if value {
        "1"
    } else {
        "0"
    }
}

/// The pipe-delimited row an entry is rendered as:
/// `<mod_id>|<dynamic-download flag>|<non-dataonly-blueprints flag>`.
pub open spec fn spec_row(e: EntryView) -> Seq<char> {
    e.mod_id + seq!['|'] + spec_flag(e.enable_dynamic_download) + seq!['|'] + spec_flag(
        e.allow_non_dataonly_blueprints,
    )
}

/// Renders one entry as its pipe-delimited row. The `name` field does not
/// appear; the `mod_id` content is not validated (a `|` or `,` inside it
/// would corrupt the emitted format).
pub fn format_row(entry: &Entry) -> (r: String)
    ensures
        r@ == spec_row(entry@),
{
    let mut r = String::from_str(entry.mod_id.as_str());
    r.append("|");
    r.append(flag(entry.enable_dynamic_download));
    r.append("|");
    r.append(flag(entry.allow_non_dataonly_blueprints));
    proof {
        reveal_strlit("|");
        assert("|"@ =~= seq!['|']);
        assert(r@ =~= spec_row(entry@));
    }
    r
}

/// A sequence of segments joined with a comma. No comma is added for an
/// empty sequence, and a single segment stands alone.
pub open spec fn spec_join(segs: Seq<Seq<char>>) -> Seq<char>
    decreases segs.len(),
{
    if segs.len() == 0 {
        Seq::<char>::empty()
    } else if segs.len() == 1 {
        segs[0]
    } else {
        spec_join(segs.drop_last()) + seq![','] + segs.last()
    }
}

/// The rows of all entries, in input order.
pub open spec fn spec_rows(entries: Seq<EntryView>) -> Seq<Seq<char>> {
    entries.map(|i: int, e: EntryView| spec_row(e))
}

/// The custom payload: the comma-joined rows of all entries.
pub open spec fn spec_custom_payload(entries: Seq<EntryView>) -> Seq<char> {
    spec_join(spec_rows(entries))
}

/// Renders every entry as its row and joins the rows with commas, keeping
/// input order.
pub fn render_rows(overrides: &Overrides) -> (r: String)
    ensures
        r@ == spec_custom_payload(overrides@),
{
    let mut acc = String::new();
    let mut i: usize = 0;
    while i < overrides.entries.len()
        invariant
            0 <= i <= overrides.entries.len(),
            acc@ == spec_join(spec_rows(overrides@).take(i as int)),
        decreases overrides.entries.len() - i,
    {
        let row = format_row(&overrides.entries[i]);
        if i > 0 {
            acc.append(",");
        }
        acc.append(row.as_str());
        proof {
            reveal_strlit(",");
            assert(","@ =~= seq![',']);
            let rows = spec_rows(overrides@);
            assert(rows.take(i + 1).drop_last() =~= rows.take(i as int));
            assert(rows.take(i + 1).last() == spec_row(overrides@[i as int]));
            assert(acc@ =~= spec_join(rows.take(i + 1)));
        }
        i = i + 1;
    }
    proof {
        assert(spec_rows(overrides@).take(overrides@.len() as int) =~= spec_rows(overrides@));
    }
    acc
}

} // verus!
