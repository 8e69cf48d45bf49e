use gsheet::error::GsheetError;
use gsheet::google_sheet::full_range;
use gsheet::google_sheet::get_sheet_id;
use gsheet::google_sheet::on_values;
use gsheet::google_sheet::CellValue;
use gsheet::google_sheet::Sheet;
use gsheet::google_sheet::SheetProperties;
use gsheet::google_sheet::SheetRead;
use gsheet::google_sheet::Spreadsheet;
use gsheet::google_sheet::ValueRange;
use gsheet::google_sheet::ValuesRequest;
use gsheet::google_sheet::DEFAULT_RANGE;
use gsheet::google_sheet::DEFAULT_SHEET_NAME;

fn sheet(title: &str, id: i32) -> Sheet {
    Sheet { properties: Some(SheetProperties { title: Some(String::from(title)), sheet_id: Some(id) }) }
}

fn book(sheets: Vec<Sheet>) -> Spreadsheet {
    Spreadsheet { sheets: Some(sheets) }
}

#[test]
fn sheet_defaults() {
    assert_eq!(DEFAULT_SHEET_NAME, "Sheet1");
    assert_eq!(DEFAULT_RANGE, "A1:R100");
}

#[test]
fn finds_the_sheet_by_title() {
    let spreadsheet = book(vec![sheet("Sheet1", 0), sheet("Data", 1234), sheet("Notes", 77)]);
    assert_eq!(get_sheet_id(&spreadsheet, "Data"), Some(1234));
    assert_eq!(get_sheet_id(&spreadsheet, "Sheet1"), Some(0));
    assert_eq!(get_sheet_id(&spreadsheet, "Notes"), Some(77));
}

#[test]
fn first_of_equal_titles_wins() {
    let spreadsheet = book(vec![sheet("A", 1), sheet("Data", 2), sheet("Data", 3)]);
    assert_eq!(get_sheet_id(&spreadsheet, "Data"), Some(2));
}

#[test]
fn title_match_is_exact() {
    let spreadsheet = book(vec![sheet("Data", 2)]);
    assert_eq!(get_sheet_id(&spreadsheet, "data"), None);
    assert_eq!(get_sheet_id(&spreadsheet, "Dat"), None);
    assert_eq!(get_sheet_id(&spreadsheet, "Data "), None);
    assert_eq!(get_sheet_id(&spreadsheet, ""), None);
}

#[test]
fn empty_sheet_list_has_no_sheet() {
    assert_eq!(get_sheet_id(&book(vec![]), "Sheet1"), None);
    assert_eq!(get_sheet_id(&Spreadsheet { sheets: None }, "Sheet1"), None);
}

#[test]
fn sheets_without_properties_or_title_are_passed_over() {
    let spreadsheet = book(vec![
        Sheet { properties: None },
        Sheet { properties: Some(SheetProperties { title: None, sheet_id: Some(5) }) },
        sheet("Data", 6),
    ]);
    assert_eq!(get_sheet_id(&spreadsheet, "Data"), Some(6));
}

#[test]
fn first_match_without_id_is_not_found() {
    let spreadsheet = book(vec![
        Sheet { properties: Some(SheetProperties { title: Some(String::from("Data")), sheet_id: None }) },
        sheet("Data", 6),
    ]);
    assert_eq!(get_sheet_id(&spreadsheet, "Data"), None);
}

#[test]
fn negative_and_extreme_ids_are_returned() {
    let spreadsheet = book(vec![sheet("a", -1), sheet("b", i32::MAX), sheet("c", i32::MIN)]);
    assert_eq!(get_sheet_id(&spreadsheet, "a"), Some(-1));
    assert_eq!(get_sheet_id(&spreadsheet, "b"), Some(i32::MAX));
    assert_eq!(get_sheet_id(&spreadsheet, "c"), Some(i32::MIN));
}

#[test]
fn range_address_joins_with_a_bang() {
    assert_eq!(full_range("Sheet1", "A1:R100"), "Sheet1!A1:R100");
    assert_eq!(full_range("My Data", "B2"), "My Data!B2");
    assert_eq!(full_range("", ""), "!");
}

#[test]
fn read_takes_what_is_given() {
    let read = SheetRead::new("S", Some("Data"), Some("A1:B2"));
    assert_eq!(
        read,
        SheetRead {
            spreadsheet_id: String::from("S"),
            sheet_name: String::from("Data"),
            range: String::from("A1:B2")
        }
    );
}

#[test]
fn read_falls_back_to_the_defaults() {
    let read = SheetRead::new("S", None, None);
    assert_eq!(read.sheet_name, "Sheet1");
    assert_eq!(read.range, "A1:R100");
    let read = SheetRead::new("S", None, Some("C3"));
    assert_eq!(read.sheet_name, "Sheet1");
    assert_eq!(read.range, "C3");
    let read = SheetRead::new("S", Some("Data"), None);
    assert_eq!(read.sheet_name, "Data");
    assert_eq!(read.range, "A1:R100");
}

#[test]
fn found_sheet_leads_to_the_values_request() {
    let read = SheetRead::new("S", None, Some("A1:B2"));
    let request = read.on_spreadsheet(Ok(book(vec![sheet("Other", 1), sheet("Sheet1", 2)])));
    assert_eq!(
        request,
        Ok(ValuesRequest { spreadsheet_id: String::from("S"), range: String::from("Sheet1!A1:B2") })
    );
}

#[test]
fn missing_sheet_ends_the_read() {
    let read = SheetRead::new("S", Some("Data"), None);
    let request = read.on_spreadsheet(Ok(book(vec![sheet("Sheet1", 2)])));
    assert_eq!(request, Err(GsheetError::SheetNotFound { sheet_name: String::from("Data") }));
    let request = read.on_spreadsheet(Ok(Spreadsheet { sheets: None }));
    assert_eq!(request, Err(GsheetError::SheetNotFound { sheet_name: String::from("Data") }));
}

#[test]
fn failed_metadata_request_is_access_failure() {
    let read = SheetRead::new("S", None, None);
    let request = read.on_spreadsheet(Err(String::from("404 Not Found")));
    assert_eq!(request, Err(GsheetError::SheetAccessFailed { reason: String::from("404 Not Found") }));
}

#[test]
fn values_are_handed_on() {
    let rows = vec![
        vec![CellValue::Text(String::from("a")), CellValue::Other],
        vec![CellValue::Text(String::from("1"))],
    ];
    assert_eq!(on_values(Ok(ValueRange { values: Some(rows.clone()) })), Ok(Some(rows)));
}

#[test]
fn range_without_data_is_no_failure() {
    assert_eq!(on_values(Ok(ValueRange { values: None })), Ok(None));
}

#[test]
fn failed_values_request_is_access_failure() {
    assert_eq!(
        on_values(Err(String::from("timeout"))),
        Err(GsheetError::SheetAccessFailed { reason: String::from("timeout") })
    );
}
