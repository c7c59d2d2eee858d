//! The text-variant transformation: override list and optional base payload
//! content in, final whitelist payload out.

use vstd::prelude::*;

use crate::model::EntryView;
use crate::model::Overrides;
use crate::payload::build_payload;
use crate::payload::normalize_payload;
use crate::payload::spec_build;
use crate::payload::spec_normalize;
use crate::rows::render_rows;
use crate::rows::spec_custom_payload;

verus! {

/// The view of an optional borrowed string.
pub open spec fn opt_str_view(o: Option<&str>) -> Option<Seq<char>> {
    match o {
        Some(s) => Some(s@),
        None => None,
    }
}

/// The whole text-variant output for a given override list and the raw
/// content of an optional pre-existing base payload file.
pub open spec fn spec_convert(entries: Seq<EntryView>, base_content: Option<Seq<char>>) -> Seq<
    char,
> {
    let base = match base_content {
        Some(c) => spec_normalize(c),
        None => None,
    };
    spec_build(base, spec_custom_payload(entries))
}

/// Computes the text-variant output: renders every entry as a row, joins the
/// rows with commas, and prefixes the normalized base payload, if one is
/// present and non-empty, separated by a comma.
pub fn convert(overrides: &Overrides, base_content: Option<&str>) -> (r: String)
    ensures
        r@ == spec_convert(overrides@, opt_str_view(base_content)),
{
    let custom = render_rows(overrides);
    let base = match base_content {
        Some(content) => normalize_payload(content),
        None => None,
    };
    build_payload(base, custom)
}

/// Re-running the converter on identical input and no base payload produces
/// an identical payload: the transformation is a pure function of the parsed
/// entries, so two runs over equal entry lists agree byte for byte.
pub proof fn lemma_rerun_identical(first: Seq<EntryView>, second: Seq<EntryView>)
    requires
        first == second,
    ensures
        spec_convert(first, None) == spec_convert(second, None),
{
}

} // verus!
