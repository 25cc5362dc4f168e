use patentupload::excel::{
    cell_to_string, convert_row, convert_rows, convert_workbook, remap_header, CellError,
    CellValue, ConvertedSheet, SourceSheet,
};
use patentupload::types::ColumnMapping;

fn rule(original: &str, mapped: &str) -> ColumnMapping {
    ColumnMapping { original: original.to_string(), mapped: mapped.to_string() }
}

fn text(s: &str) -> CellValue {
    CellValue::String(s.to_string())
}

fn strings(items: &[&str]) -> Vec<String> {
    items.iter().map(|s| s.to_string()).collect()
}

#[test]
fn every_kind_of_cell_becomes_text() {
    assert_eq!(cell_to_string(&CellValue::Int(42)), "42");
    assert_eq!(cell_to_string(&CellValue::Int(-7)), "-7");
    assert_eq!(cell_to_string(&CellValue::Int(0)), "0");
    assert_eq!(cell_to_string(&CellValue::Float("3.14".to_string())), "3.14");
    assert_eq!(cell_to_string(&text("hello")), "hello");
    assert_eq!(cell_to_string(&CellValue::Bool(true)), "true");
    assert_eq!(cell_to_string(&CellValue::Bool(false)), "false");
    assert_eq!(cell_to_string(&CellValue::DateTime("45000.5".to_string())), "45000.5");
    assert_eq!(
        cell_to_string(&CellValue::DateTimeIso("2024-01-02T03:04:05".to_string())),
        "2024-01-02T03:04:05"
    );
    assert_eq!(cell_to_string(&CellValue::DurationIso("PT1H".to_string())), "PT1H");
    assert_eq!(cell_to_string(&CellValue::Empty), "");
}

#[test]
fn an_error_cell_becomes_the_name_of_its_kind() {
    assert_eq!(cell_to_string(&CellValue::Error(CellError::Div0)), "ERROR: Div0");
    assert_eq!(cell_to_string(&CellValue::Error(CellError::NA)), "ERROR: NA");
    assert_eq!(cell_to_string(&CellValue::Error(CellError::Name)), "ERROR: Name");
    assert_eq!(cell_to_string(&CellValue::Error(CellError::Null)), "ERROR: Null");
    assert_eq!(cell_to_string(&CellValue::Error(CellError::Num)), "ERROR: Num");
    assert_eq!(cell_to_string(&CellValue::Error(CellError::Ref)), "ERROR: Ref");
    assert_eq!(cell_to_string(&CellValue::Error(CellError::Value)), "ERROR: Value");
    assert_eq!(cell_to_string(&CellValue::Error(CellError::GettingData)), "ERROR: GettingData");
}

#[test]
fn an_error_cell_prints_as_the_spreadsheet_reader_prints_it() {
    let kinds = [
        (CellError::Div0, calamine::CellErrorType::Div0),
        (CellError::NA, calamine::CellErrorType::NA),
        (CellError::Name, calamine::CellErrorType::Name),
        (CellError::Null, calamine::CellErrorType::Null),
        (CellError::Num, calamine::CellErrorType::Num),
        (CellError::Ref, calamine::CellErrorType::Ref),
        (CellError::Value, calamine::CellErrorType::Value),
        (CellError::GettingData, calamine::CellErrorType::GettingData),
    ];
    for (kind, outside) in kinds {
        assert_eq!(cell_to_string(&CellValue::Error(kind)), format!("ERROR: {:?}", outside));
    }
}

#[test]
fn a_header_that_is_a_key_is_rewritten() {
    let rules = vec![rule("A", "X"), rule("B", "Y")];
    assert_eq!(remap_header(&rules, "A".to_string()), "X");
    assert_eq!(remap_header(&rules, "B".to_string()), "Y");
}

#[test]
fn a_header_that_is_no_key_is_kept() {
    let rules = vec![rule("A", "X")];
    assert_eq!(remap_header(&rules, "C".to_string()), "C");
    assert_eq!(remap_header(&rules, "a".to_string()), "a");
    assert_eq!(remap_header(&rules, "A ".to_string()), "A ");
    assert_eq!(remap_header(&rules, "".to_string()), "");
    assert_eq!(remap_header(&vec![], "A".to_string()), "A");
}

#[test]
fn the_later_of_two_rules_for_one_header_wins() {
    let rules = vec![rule("A", "first"), rule("B", "Y"), rule("A", "second")];
    assert_eq!(remap_header(&rules, "A".to_string()), "second");
}

#[test]
fn a_header_is_rewritten_once() {
    // The result of a rule is not looked up again.
    let rules = vec![rule("A", "B"), rule("B", "C")];
    assert_eq!(remap_header(&rules, "A".to_string()), "B");
}

#[test]
fn only_a_header_row_is_looked_up() {
    let rules = vec![rule("A", "X")];
    let cells = vec![text("A"), CellValue::Int(1), CellValue::Empty];
    assert_eq!(convert_row(&cells, &rules, true), strings(&["X", "1", ""]));
    assert_eq!(convert_row(&cells, &rules, false), strings(&["A", "1", ""]));
}

#[test]
fn header_row_is_remapped_and_data_rows_are_copied_as_text() {
    let rules = vec![rule("A", "X")];
    let rows = vec![
        vec![text("A"), text("B")],
        vec![CellValue::Int(1), CellValue::Float("2.5".to_string())],
        vec![text("A"), CellValue::Bool(true)],
    ];
    let out = convert_rows(&rows, &rules);
    assert_eq!(out, vec![strings(&["X", "B"]), strings(&["1", "2.5"]), strings(&["A", "true"])]);
}

#[test]
fn a_header_cell_is_looked_up_by_its_text() {
    let rules = vec![rule("2024", "year"), rule("true", "flag"), rule("", "blank")];
    let rows = vec![vec![CellValue::Int(2024), CellValue::Bool(true), CellValue::Empty]];
    assert_eq!(convert_rows(&rows, &rules), vec![strings(&["year", "flag", "blank"])]);
}

#[test]
fn an_empty_mapping_table_keeps_the_header_row() {
    let rows = vec![
        vec![text("A"), CellValue::Int(7), CellValue::Error(CellError::Ref), CellValue::Empty],
        vec![text("x"), text("y")],
    ];
    let out = convert_rows(&rows, &vec![]);
    assert_eq!(out, vec![strings(&["A", "7", "ERROR: Ref", ""]), strings(&["x", "y"])]);
}

#[test]
fn rows_keep_their_own_widths() {
    let rows = vec![vec![text("A")], vec![], vec![text("1"), text("2"), text("3")]];
    let out = convert_rows(&rows, &vec![rule("A", "X")]);
    assert_eq!(out, vec![strings(&["X"]), strings(&[]), strings(&["1", "2", "3"])]);
    assert_eq!(convert_rows(&vec![], &vec![rule("A", "X")]), Vec::<Vec<String>>::new());
}

#[test]
fn every_sheet_is_converted_under_its_own_name() {
    let sheets = vec![
        SourceSheet { name: "First".to_string(), rows: vec![vec![text("A")], vec![text("A")]] },
        SourceSheet { name: "Empty".to_string(), rows: vec![] },
        SourceSheet { name: "第三".to_string(), rows: vec![vec![text("B"), text("A")]] },
    ];
    let out = convert_workbook(&sheets, &vec![rule("A", "X")]);
    assert_eq!(
        out,
        vec![
            ConvertedSheet {
                name: "First".to_string(),
                rows: vec![strings(&["X"]), strings(&["A"])]
            },
            ConvertedSheet { name: "Empty".to_string(), rows: vec![] },
            ConvertedSheet { name: "第三".to_string(), rows: vec![strings(&["B", "X"])] },
        ]
    );
}
