//! Data model: one override entry and the parsed override list.

use vstd::prelude::*;

verus! {

/// Mathematical image of an [`Entry`]: the same fields over `Seq<char>`.
pub ghost struct EntryView {
    pub name: Seq<char>,
    pub mod_id: Seq<char>,
    pub enable_dynamic_download: bool,
    pub allow_non_dataonly_blueprints: bool,
}

/// One override record: a module identifier and two feature flags.
/// `name` is informational only and never appears in the output.
pub struct Entry {
    pub name: String,
    pub mod_id: String,
    pub enable_dynamic_download: bool,
    pub allow_non_dataonly_blueprints: bool,
}

impl View for Entry {
    type V = EntryView;

    open spec fn view(&self) -> EntryView {
        EntryView {
            name: self.name@,
            mod_id: self.mod_id@,
            enable_dynamic_download: self.enable_dynamic_download,
            allow_non_dataonly_blueprints: self.allow_non_dataonly_blueprints,
        }
    }
}

/// The full parsed input document: an ordered list of entries.
/// Input order is preserved and determines output row order.
pub struct Overrides {
    pub entries: Vec<Entry>,
}

impl View for Overrides {
    type V = Seq<EntryView>;

    open spec fn view(&self) -> Seq<EntryView> {
        self.entries@.map(|i: int, e: Entry| e@)
    }
}

} // verus!
