use whitelist_gen::build_payload;
use whitelist_gen::convert;
use whitelist_gen::flag;
use whitelist_gen::format_record;
use whitelist_gen::format_row;
use whitelist_gen::normalize_payload;
use whitelist_gen::render_rows;
use whitelist_gen::render_table;
use whitelist_gen::Entry;
use whitelist_gen::Overrides;

fn sample_entry() -> Entry {
    Entry {
        name: String::from("Test"),
        mod_id: String::from("mod"),
        enable_dynamic_download: true,
        allow_non_dataonly_blueprints: false,
    }
}

#[test]
fn converts_bool_to_flag() {
    assert_eq!(flag(true), "1");
    assert_eq!(flag(false), "0");
}

#[test]
fn formats_row_with_pipe_delimiters() {
    let entry = sample_entry();

    assert_eq!(format_row(&entry), "mod|1|0");
}

#[test]
fn normalizes_payload() {
    assert_eq!(normalize_payload("row|1|1\n"), Some(String::from("row|1|1")));
    assert!(normalize_payload("\n\n").is_none());
}

#[test]
fn builds_payload_from_segments() {
    assert_eq!(build_payload(Some("a".into()), String::from("b")), "a,b");
    assert_eq!(build_payload(Some(String::new()), String::from("b")), "b");
    assert_eq!(build_payload(None, String::from("b")), "b");
    assert_eq!(build_payload(Some("a".into()), String::new()), "a");
}

#[test]
fn builds_empty_payload_from_absent_segments() {
    assert_eq!(build_payload(None, String::new()), "");
    assert_eq!(build_payload(Some(String::new()), String::new()), "");
}

#[test]
fn trims_mixed_whitespace() {
    assert_eq!(
        normalize_payload("\t  row|1|1 \t\r\n"),
        Some(String::from("row|1|1"))
    );
    assert!(normalize_payload("").is_none());
    assert!(normalize_payload(" \t ").is_none());
}

#[test]
fn joins_rows_in_input_order() {
    let overrides = Overrides {
        entries: vec![
            Entry {
                name: String::from("A"),
                mod_id: String::from("alpha"),
                enable_dynamic_download: true,
                allow_non_dataonly_blueprints: true,
            },
            Entry {
                name: String::from("B"),
                mod_id: String::from("beta"),
                enable_dynamic_download: false,
                allow_non_dataonly_blueprints: false,
            },
        ],
    };

    assert_eq!(render_rows(&overrides), "alpha|1|1,beta|0|0");
}

#[test]
fn converts_single_entry_without_base() {
    let overrides = Overrides {
        entries: vec![sample_entry()],
    };

    assert_eq!(convert(&overrides, None), "mod|1|0");
}

#[test]
fn converts_empty_list_to_empty_payload() {
    let overrides = Overrides { entries: vec![] };

    assert_eq!(convert(&overrides, None), "");
}

#[test]
fn rerun_on_identical_input_is_identical() {
    let overrides = Overrides {
        entries: vec![sample_entry()],
    };

    let first = convert(&overrides, None);
    let second = convert(&overrides, None);
    assert_eq!(first, second);
}

#[test]
fn merges_base_payload_before_custom_rows() {
    let overrides = Overrides {
        entries: vec![sample_entry()],
    };

    assert_eq!(convert(&overrides, Some("base|1|1\n")), "base|1|1,mod|1|0");
}

#[test]
fn whitespace_only_base_is_treated_as_absent() {
    let overrides = Overrides {
        entries: vec![sample_entry()],
    };

    assert_eq!(convert(&overrides, Some(" \n\t")), "mod|1|0");
}

#[test]
fn formats_csv_record_with_newline() {
    let entry = sample_entry();

    assert_eq!(format_record(&entry), "mod,1,0\n");
}

#[test]
fn renders_table_with_header_and_record() {
    let overrides = Overrides {
        entries: vec![sample_entry()],
    };

    assert_eq!(
        render_table(&overrides),
        "ModId,Enable Dynamic Download,Allow non-dataonly blueprints\nmod,1,0\n"
    );
}

#[test]
fn renders_table_of_empty_list_as_header_only() {
    let overrides = Overrides { entries: vec![] };

    assert_eq!(
        render_table(&overrides),
        "ModId,Enable Dynamic Download,Allow non-dataonly blueprints\n"
    );
}
