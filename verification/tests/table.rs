use gsheet::google_drive::DriveFile;
use gsheet::google_sheet::CellValue;
use gsheet::table::column_label_of;
use gsheet::table::holds_escape_sequence;
use gsheet::table::is_printable;
use gsheet::table::listing_rows;
use gsheet::table::listing_table;
use gsheet::table::table_from_rows;
use gsheet::table::try_table;
use gsheet::table::value_data_row;
use gsheet::table::value_header_row;
use gsheet::table::value_rows;
use gsheet::table::value_table;
use gsheet::text::decimal_string;
use gsheet::text::push_decimal;

fn text(s: &str) -> CellValue {
    CellValue::Text(String::from(s))
}

fn strings(row: &[&str]) -> Vec<String> {
    row.iter().map(|s| String::from(*s)).collect()
}

fn file(name: &str, id: &str) -> DriveFile {
    DriveFile { name: Some(String::from(name)), id: Some(String::from(id)) }
}

/// What the cells of a table hold, row by row.
fn contents(table: &prettytable::Table) -> Vec<Vec<String>> {
    table.row_iter().map(|row| row.iter().map(|cell| cell.get_content()).collect()).collect()
}

#[test]
fn decimal_numerals() {
    assert_eq!(decimal_string(0), "0");
    assert_eq!(decimal_string(7), "7");
    assert_eq!(decimal_string(9), "9");
    assert_eq!(decimal_string(10), "10");
    assert_eq!(decimal_string(99), "99");
    assert_eq!(decimal_string(100), "100");
    assert_eq!(decimal_string(12345), "12345");
    assert_eq!(decimal_string(1002003), "1002003");
    assert_eq!(decimal_string(usize::MAX), usize::MAX.to_string());
}

#[test]
fn decimal_is_appended() {
    let mut text = String::from("row ");
    push_decimal(&mut text, 42);
    assert_eq!(text, "row 42");
    push_decimal(&mut text, 0);
    assert_eq!(text, "row 420");
}

#[test]
fn column_labels() {
    assert_eq!(column_label_of(0), 'A');
    assert_eq!(column_label_of(1), 'B');
    assert_eq!(column_label_of(17), 'R');
    assert_eq!(column_label_of(25), 'Z');
    assert_eq!(column_label_of(26), '[');
    assert_eq!(column_label_of(190), '\u{ff}');
    assert_eq!(column_label_of(191), '\u{0}');
    assert_eq!(column_label_of(218), '\u{1b}');
    assert_eq!(column_label_of(256), 'A');
    assert_eq!(column_label_of(usize::MAX), '@');
}

#[test]
fn header_of_a_range() {
    assert_eq!(value_header_row(0), strings(&[""]));
    assert_eq!(value_header_row(2), strings(&["", "A", "B"]));
    assert_eq!(
        value_header_row(18),
        strings(&["", "A", "B", "C", "D", "E", "F", "G", "H", "I", "J", "K", "L", "M", "N", "O", "P", "Q", "R"])
    );
}

#[test]
fn row_of_a_range() {
    assert_eq!(value_data_row(1, &vec![text("a"), text("b")]), strings(&["1", "a", "b"]));
    assert_eq!(value_data_row(12, &vec![]), strings(&["12"]));
    assert_eq!(value_data_row(3, &vec![CellValue::Other, text("x"), CellValue::Other]), strings(&["3", "", "x", ""]));
}

#[test]
fn rows_of_a_two_by_two_range() {
    let data = vec![vec![text("a"), text("b")], vec![text("1"), text("2")]];
    assert_eq!(
        value_rows(&data),
        vec![strings(&["", "A", "B"]), strings(&["1", "a", "b"]), strings(&["2", "1", "2"])]
    );
}

#[test]
fn table_of_a_two_by_two_range() {
    let data = vec![vec![text("a"), text("b")], vec![text("1"), text("2")]];
    let table = value_table(&data).unwrap();
    assert_eq!(
        contents(&table),
        vec![strings(&["", "A", "B"]), strings(&["1", "a", "b"]), strings(&["2", "1", "2"])]
    );
    let printed = table.to_string();
    assert!(printed.starts_with('┌'));
    assert!(printed.contains("│ 1 │ a │ b │"));
}

#[test]
fn short_rows_are_not_padded() {
    let data = vec![vec![text("a"), text("b"), text("c")], vec![text("d")], vec![], vec![text("e"), text("f")]];
    assert_eq!(
        value_rows(&data),
        vec![
            strings(&["", "A", "B", "C"]),
            strings(&["1", "a", "b", "c"]),
            strings(&["2", "d"]),
            strings(&["3"]),
            strings(&["4", "e", "f"]),
        ]
    );
}

#[test]
fn header_follows_the_first_row() {
    let data = vec![vec![text("a")], vec![text("b"), text("c"), text("d")]];
    assert_eq!(value_rows(&data), vec![strings(&["", "A"]), strings(&["1", "a"]), strings(&["2", "b", "c", "d"])]);
}

#[test]
fn range_without_rows_has_only_the_corner() {
    assert_eq!(value_rows(&vec![]), vec![strings(&[""])]);
    let table = value_table(&vec![]).unwrap();
    assert_eq!(contents(&table), vec![strings(&[""])]);
}

#[test]
fn values_that_are_no_text_show_nothing() {
    let data = vec![vec![CellValue::Other, text("x")]];
    assert_eq!(value_rows(&data), vec![strings(&["", "A", "B"]), strings(&["1", "", "x"])]);
}

#[test]
fn rows_of_a_listing() {
    let files = vec![file("Budget 2024", "id-1"), file("Forecast", "id-2")];
    assert_eq!(
        listing_rows(&files),
        vec![
            strings(&["No.", "Title", "Spreadsheet ID"]),
            strings(&["1", "Budget 2024", "id-1"]),
            strings(&["2", "Forecast", "id-2"]),
        ]
    );
}

#[test]
fn rows_of_an_empty_listing() {
    assert_eq!(listing_rows(&vec![]), vec![strings(&["No.", "Title", "Spreadsheet ID"])]);
}

#[test]
fn files_without_name_or_id_have_no_row_but_a_number() {
    let files = vec![
        file("a", "1"),
        DriveFile { name: None, id: Some(String::from("2")) },
        DriveFile { name: Some(String::from("c")), id: None },
        DriveFile { name: None, id: None },
        file("e", "5"),
    ];
    assert_eq!(
        listing_rows(&files),
        vec![strings(&["No.", "Title", "Spreadsheet ID"]), strings(&["1", "a", "1"]), strings(&["5", "e", "5"])]
    );
}

#[test]
fn listing_numbers_go_past_nine() {
    let files: Vec<DriveFile> = (0..12).map(|i| file("n", &i.to_string())).collect();
    let rows = listing_rows(&files);
    assert_eq!(rows.len(), 13);
    assert_eq!(rows[9], strings(&["9", "n", "8"]));
    assert_eq!(rows[10], strings(&["10", "n", "9"]));
    assert_eq!(rows[12], strings(&["12", "n", "11"]));
}

#[test]
fn table_of_a_listing() {
    let files = vec![file("Budget 2024", "id-1"), file("Forecast", "id-2")];
    let table = listing_table(&files).unwrap();
    assert_eq!(
        contents(&table),
        vec![
            strings(&["No.", "Title", "Spreadsheet ID"]),
            strings(&["1", "Budget 2024", "id-1"]),
            strings(&["2", "Forecast", "id-2"]),
        ]
    );
    let printed = table.to_string();
    assert!(printed.starts_with('+'));
    assert!(printed.contains("| 1   | Budget 2024 | id-1           |"));
}

#[test]
fn escape_sequences_are_found() {
    assert!(holds_escape_sequence("\u{1b}["));
    assert!(holds_escape_sequence("a\u{1b}[31mred"));
    assert!(holds_escape_sequence("end\u{1b}["));
    assert!(holds_escape_sequence("\u{1b}\u{1b}["));
    assert!(holds_escape_sequence("\u{1b}x\u{1b}[0m"));
    assert!(!holds_escape_sequence(""));
    assert!(!holds_escape_sequence("\u{1b}"));
    assert!(!holds_escape_sequence("["));
    assert!(!holds_escape_sequence("[\u{1b}"));
    assert!(!holds_escape_sequence("\u{1b} ["));
    assert!(!holds_escape_sequence("\u{1b}\n["));
    assert!(!holds_escape_sequence("end\u{1b}"));
    assert!(!holds_escape_sequence("plain [31m text"));
    assert!(!holds_escape_sequence("ünï\tcode\n"));
}

#[test]
fn printable_rows() {
    assert!(is_printable(&vec![]));
    assert!(is_printable(&vec![vec![]]));
    assert!(is_printable(&vec![strings(&["a", "b"]), strings(&["c"])]));
    assert!(is_printable(&vec![strings(&["\u{1b}", "[", "\u{1b}x["])]));
    assert!(!is_printable(&vec![strings(&["a", "b"]), strings(&["c", "\u{1b}[0m"])]));
    assert!(!is_printable(&vec![strings(&["x\u{1b}["]), strings(&["c"])]));
}

#[test]
fn table_holds_the_rows() {
    let rows = vec![strings(&["a", "b"]), strings(&[]), strings(&["c"])];
    let table = table_from_rows(&rows, false);
    assert_eq!(contents(&table), rows);
    assert!(table.to_string().starts_with('+'));
    let table = table_from_rows(&rows, true);
    assert_eq!(contents(&table), rows);
    assert!(table.to_string().starts_with('┌'));
}

#[test]
fn no_table_for_rows_with_an_escape_sequence() {
    let rows = vec![strings(&["a", "\u{1b}[لالا"])];
    assert!(try_table(&rows, true).is_none());
    assert!(try_table(&rows, false).is_none());
    let fine = vec![strings(&["a", "[لالا", "\u{1b}لالا", "\u{1b}\u{1b}لا[لا", "\u{1b}m[لالا"])];
    assert_eq!(contents(&try_table(&fine, true).unwrap()), fine);
}

#[test]
fn no_table_for_a_listing_with_an_escape_sequence() {
    let files = vec![file("a", "1"), file("b\u{1b}[1m", "2")];
    assert!(listing_table(&files).is_none());
    let files = vec![file("a\u{1b}", "[1")];
    assert!(listing_table(&files).is_some());
}

#[test]
fn no_table_for_a_range_with_an_escape_sequence() {
    assert!(value_table(&vec![vec![text("\u{1b}[x")]]).is_none());
    assert!(value_table(&vec![vec![text("\u{1b}x")]]).is_some());
}

#[test]
fn wide_ranges_have_a_table() {
    let wide: Vec<CellValue> = (0..300).map(|_| text("x")).collect();
    let table = value_table(&vec![wide]).unwrap();
    let rows = contents(&table);
    assert_eq!(rows[0].len(), 301);
    assert_eq!(rows[0][219], "\u{1b}");
    assert_eq!(rows[0][220], "\u{1c}");
    assert_eq!(rows[0][257], "A");
}

#[test]
fn tables_have_no_titles() {
    let table = table_from_rows(&vec![strings(&["a", "b"]), strings(&["c", "d"])], false);
    assert_eq!(table.len(), 2);
    let printed = table.to_string();
    assert!(!printed.contains('='));
    assert_eq!(printed.lines().filter(|line| line.starts_with('|')).count(), 2);
}

#[test]
fn cells_hold_their_text_line_by_line() {
    let texts = strings(&[
        "one line", "two\nlines", "a\r\nb\n", "", "tail\r", "\n", "\r\n", "a\n\n", "a\r\r\n", "\r\r\n\n",
        "a\n\r\n", "x\r\n\r\n", "\r", "\rmid\rdle", "a\nb\r", "\n\n\n", "\r\n\r\nx",
    ]);
    let held = strings(&[
        "one line", "two\nlines", "a\nb", "", "tail\r", "", "", "a\n", "a\r", "\r\n",
        "a\n", "x\n", "\r", "\rmid\rdle", "a\nb\r", "\n\n", "\n\nx",
    ]);
    let table = table_from_rows(&vec![texts], false);
    assert_eq!(contents(&table), vec![held]);
}
