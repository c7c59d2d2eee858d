//! Turns a list of module override entries into a flat, delimited whitelist
//! payload: either one comma-separated line of `mod_id|flag|flag` rows
//! (optionally merged after a pre-existing base payload), or a CSV table with
//! a fixed header.

pub mod convert;
pub mod model;
pub mod payload;
pub mod rows;
pub mod table;

pub use convert::convert;
pub use model::Entry;
pub use model::Overrides;
pub use payload::build_payload;
pub use payload::normalize_payload;
pub use rows::flag;
pub use rows::format_row;
pub use rows::render_rows;
pub use table::format_record;
pub use table::render_table;
