use satisfactory_map_tracker::localization::{
    format_count, format_number_text, format_resource_amount_text, text,
};
use satisfactory_map_tracker::status::{format_diff_status, format_playtime, format_time_ago};
use satisfactory_map_tracker::storage::{DiffSummary, Language};
use satisfactory_map_tracker::text_trim::trim;

#[test]
fn formats_numbers_using_each_locale() {
    assert_eq!(
        format_number_text(Language::English, false, "1234567", "89", 2),
        "1,234,567.89"
    );
    assert_eq!(
        format_number_text(Language::German, false, "1234567", "89", 2),
        "1.234.567,89"
    );
    assert_eq!(
        format_number_text(Language::Spanish, false, "1234567", "89", 2),
        "1.234.567,89"
    );
    assert_eq!(
        format_number_text(Language::French, false, "1234567", "89", 2),
        "1\u{202f}234\u{202f}567,89"
    );
}

#[test]
fn number_text_edges() {
    assert_eq!(format_number_text(Language::English, true, "1234", "5", 1), "-1,234.5");
    assert_eq!(format_number_text(Language::German, false, "999", "", 0), "999");
    assert_eq!(format_number_text(Language::English, false, "1000", "", 0), "1,000");
    assert_eq!(format_number_text(Language::English, false, "0", "00", 2), "0.00");
}

#[test]
fn counts_are_grouped_by_language() {
    assert_eq!(format_count(Language::English, 1_234_567), "1,234,567");
    assert_eq!(format_count(Language::German, 1_234_567), "1.234.567");
    assert_eq!(format_count(Language::French, 1_000), "1\u{202f}000");
    assert_eq!(format_count(Language::English, 0), "0");
    assert_eq!(format_count(Language::English, 999), "999");
    assert_eq!(format_resource_amount_text(1_234_567), "1.234.567");
    assert_eq!(format_resource_amount_text(780), "780");
}

#[test]
fn dictionary_texts() {
    assert_eq!(text(Language::English, "ready"), "Ready");
    assert_eq!(text(Language::German, "ready"), "Bereit");
    assert_eq!(text(Language::French, "ready"), "Prêt");
    assert_eq!(text(Language::Spanish, "ready"), "Listo");
    assert_eq!(text(Language::English, "no_such_key"), "");
}

#[test]
fn status_lines() {
    let diff = DiffSummary { changed_bytes: 1_500, first_changed_offset: Some(3), changed_ranges: 2 };
    assert_eq!(
        format_diff_status(Language::English, &diff),
        format!("{}: 1,500 bytes in 2 ranges changed", text(Language::English, "save_updated"))
    );
    assert_eq!(format_playtime(Language::English, 7_260), "2h 1min");
    assert_eq!(format_playtime(Language::German, 3_600 * 1_200), "1.200h 0min");
    assert_eq!(format_time_ago(Language::English, 42), "42s ago");
    assert_eq!(format_time_ago(Language::English, 125), "2m ago");
    assert_eq!(format_time_ago(Language::English, 7_200), "2h ago");
    assert_eq!(format_time_ago(Language::German, 42), "vor 42s");
    assert_eq!(format_time_ago(Language::French, 3_600), "il y a 1h");
    assert_eq!(format_time_ago(Language::Spanish, 90), "hace 1min");
}

#[test]
fn trimming_removes_white_space_at_both_ends() {
    assert_eq!(trim("  Iron mine \n"), "Iron mine");
    assert_eq!(trim("\u{3000}Kupfer\u{a0}"), "Kupfer");
    assert_eq!(trim(" \t "), "");
    assert_eq!(trim("a b"), "a b");
}
