use lmdb_helper::listing::{KEY_FLOOR, SIZE_FLOOR};
use lmdb_helper::{render_table, ListEntry};

fn entry(key: &str, size: usize) -> ListEntry {
    ListEntry { key: key.to_string(), size }
}

#[test]
fn empty_listing_has_headings_at_floor_widths() {
    let lines = render_table(&Vec::new());
    assert_eq!(lines, vec!["| Key | Size (bytes) |", "| --- | ------------ |"]);
    assert_eq!(KEY_FLOOR, 3);
    assert_eq!(SIZE_FLOOR, 12);
}

#[test]
fn listing_rows_follow_the_entries_in_order() {
    let lines = render_table(&vec![entry("alpha", 5), entry("beta", 6)]);
    assert_eq!(
        lines,
        vec![
            "| Key   | Size (bytes) |",
            "| ----- | ------------ |",
            "| alpha | 5            |",
            "| beta  | 6            |",
        ]
    );
    let lines = render_table(&vec![entry("beta", 6), entry("alpha", 5)]);
    assert_eq!(lines[2], "| beta  | 6            |");
    assert_eq!(lines[3], "| alpha | 5            |");
}

#[test]
fn short_keys_keep_the_floor_width() {
    let lines = render_table(&vec![entry("a", 0), entry("abc", 123456789012)]);
    assert_eq!(
        lines,
        vec![
            "| Key | Size (bytes) |",
            "| --- | ------------ |",
            "| a   | 0            |",
            "| abc | 123456789012 |",
        ]
    );
}

#[test]
fn a_long_size_widens_its_column() {
    let lines = render_table(&vec![entry("k", 1234567890123), entry("kk", 7)]);
    assert_eq!(
        lines,
        vec![
            "| Key | Size (bytes)  |",
            "| --- | ------------- |",
            "| k   | 1234567890123 |",
            "| kk  | 7             |",
        ]
    );
}

#[test]
fn the_key_column_is_as_wide_as_the_longest_key_in_bytes() {
    let lines = render_table(&vec![entry("né", 1), entry("plain", 2), entry("日本語", 3)]);
    assert_eq!(
        lines,
        vec![
            "| Key       | Size (bytes) |",
            "| --------- | ------------ |",
            "| né        | 1            |",
            "| plain     | 2            |",
            "| 日本語       | 3            |",
        ]
    );
    let width = lines[0].chars().count();
    for line in &lines {
        assert_eq!(line.chars().count(), width);
    }
}

#[test]
fn every_line_has_the_same_width() {
    let entries: Vec<ListEntry> =
        (0..40).map(|i| entry(&"k".repeat(i + 1), 10usize.pow((i % 15) as u32))).collect();
    let lines = render_table(&entries);
    assert_eq!(lines.len(), 42);
    for line in &lines {
        assert_eq!(line.len(), 2 + 40 + 3 + 15 + 2);
    }
}
