use climbsheet::error::MappingError;
use climbsheet::sheets::{
    append_row, color_from_hex, get_sheet_id, get_updated_row_from_update_values_response,
    memoized_get_sheet_id, parse_row_from_range, reset_row_format, row_number,
    set_cell_background_color, set_range_background_color, sort_sheet_by_column,
    AppendValuesResponse, Color, GridRange, RepeatCellRequest, Sheet, SheetIdCache,
    SheetProperties, SortRangeRequest, Spreadsheet, UpdateValuesResponse,
};

fn sheet(title: &str, id: i32) -> Sheet {
    Sheet { properties: Some(SheetProperties { title: Some(title.to_string()), sheet_id: Some(id) }) }
}

fn board() -> Spreadsheet {
    Spreadsheet {
        sheets: Some(vec![
            sheet("Ohjeet", 0),
            sheet("Ristikko - Reitit", 11),
            sheet("Ristikko - Boulderit", 12),
            sheet("Ristikko - Reitit", 13),
        ]),
    }
}

fn response(range: Option<&str>) -> AppendValuesResponse {
    AppendValuesResponse {
        updates: Some(UpdateValuesResponse { updated_range: range.map(|r| r.to_string()) }),
    }
}

#[test]
fn row_from_range_test() {
    let input = "'Ristikko - Reitit'!B12:F12";
    let expected = 12;
    let actual = parse_row_from_range(input);
    assert_eq!(Ok(expected), actual);
}

#[test]
fn row_from_range_takes_the_first_row() {
    assert_eq!(parse_row_from_range("'Ristikko - Reitit'!A7:F9"), Ok(7));
    assert_eq!(parse_row_from_range("Sheet1!AB1000:AC1000"), Ok(1000));
    assert_eq!(parse_row_from_range("x!A0012:B3"), Ok(12));
}

#[test]
fn row_from_range_refuses_other_texts() {
    assert_eq!(parse_row_from_range(""), Err(MappingError::UnparseableRange));
    assert_eq!(parse_row_from_range("B12:F12"), Err(MappingError::UnparseableRange));
    assert_eq!(parse_row_from_range("'Ristikko - Reitit'!B12"), Err(MappingError::UnparseableRange));
    assert_eq!(parse_row_from_range("'Ristikko - Reitit'!b12:f12"), Err(MappingError::UnparseableRange));
    assert_eq!(
        parse_row_from_range("s!A99999999999:B1"),
        Err(MappingError::UnparseableRange)
    );
}

#[test]
fn row_number_reads_digits_only() {
    assert_eq!(row_number("12"), Ok(12));
    assert_eq!(row_number("B12"), Err(MappingError::UnparseableRange));
    assert_eq!(row_number(""), Err(MappingError::UnparseableRange));
}

#[test]
fn updated_row_counts_from_zero() {
    assert_eq!(
        get_updated_row_from_update_values_response(&response(Some("'Ristikko - Reitit'!B12:F12"))),
        Ok(11)
    );
    assert_eq!(
        get_updated_row_from_update_values_response(&response(Some("'s'!A1:F1"))),
        Ok(0)
    );
}

#[test]
fn updated_row_needs_a_range() {
    assert_eq!(
        get_updated_row_from_update_values_response(&response(None)),
        Err(MappingError::UnparseableRange)
    );
    assert_eq!(
        get_updated_row_from_update_values_response(&AppendValuesResponse { updates: None }),
        Err(MappingError::UnparseableRange)
    );
    assert_eq!(
        get_updated_row_from_update_values_response(&response(Some("nonsense"))),
        Err(MappingError::UnparseableRange)
    );
}

#[test]
fn color_from_hex_reads_three_pairs() {
    assert_eq!(color_from_hex("#ff8800"), Ok(Color { red: 255, green: 136, blue: 0 }));
    assert_eq!(color_from_hex("#000000"), Ok(Color { red: 0, green: 0, blue: 0 }));
    assert_eq!(color_from_hex("#AbCdEf"), Ok(Color { red: 171, green: 205, blue: 239 }));
    assert_eq!(color_from_hex("#0a0B0c and more"), Ok(Color { red: 10, green: 11, blue: 12 }));
}

#[test]
fn color_from_hex_takes_a_plus_sign_for_a_digit() {
    assert_eq!(color_from_hex("#+f0000"), Ok(Color { red: 15, green: 0, blue: 0 }));
    assert_eq!(color_from_hex("x10+a+0"), Ok(Color { red: 16, green: 10, blue: 0 }));
}

#[test]
fn color_from_hex_refuses_malformed_colors() {
    assert_eq!(color_from_hex(""), Err(MappingError::MalformedColor));
    assert_eq!(color_from_hex("#ff880"), Err(MappingError::MalformedColor));
    assert_eq!(color_from_hex("#gg0000"), Err(MappingError::MalformedColor));
    assert_eq!(color_from_hex("#ff88-1"), Err(MappingError::MalformedColor));
    assert_eq!(color_from_hex("#++0000"), Err(MappingError::MalformedColor));
    assert_eq!(color_from_hex("#f+0000"), Err(MappingError::MalformedColor));
    assert_eq!(color_from_hex("äff8800"), Err(MappingError::MalformedColor));
    assert_eq!(color_from_hex("#ff88ä0"), Err(MappingError::MalformedColor));
}

#[test]
fn sort_request_covers_the_body() {
    assert_eq!(
        sort_sheet_by_column(11, 3),
        SortRangeRequest {
            range: GridRange {
                sheet_id: 11,
                start_row_index: Some(1),
                end_row_index: None,
                start_column_index: Some(0),
                end_column_index: None,
            },
            dimension_index: 3,
            descending: true,
        }
    );
}

#[test]
fn cell_background_covers_one_cell() {
    assert_eq!(
        set_cell_background_color(11, "#ff8800", 4, 0),
        Ok(RepeatCellRequest {
            range: GridRange {
                sheet_id: 11,
                start_row_index: Some(4),
                end_row_index: Some(5),
                start_column_index: Some(0),
                end_column_index: Some(1),
            },
            background_color: Some(Color { red: 255, green: 136, blue: 0 }),
        })
    );
}

#[test]
fn cell_background_errors_come_in_order() {
    assert_eq!(
        set_cell_background_color(11, "red", i32::MAX, i32::MAX),
        Err(MappingError::MalformedColor)
    );
    assert_eq!(
        set_cell_background_color(11, "#ff8800", i32::MAX, i32::MAX),
        Err(MappingError::ColumnOutOfRange)
    );
    assert_eq!(
        set_cell_background_color(11, "#ff8800", i32::MAX, 3),
        Err(MappingError::RowOutOfRange)
    );
}

#[test]
fn reset_row_format_covers_one_row() {
    assert_eq!(
        reset_row_format(11, 4),
        Ok(RepeatCellRequest {
            range: GridRange {
                sheet_id: 11,
                start_row_index: Some(4),
                end_row_index: Some(5),
                start_column_index: Some(0),
                end_column_index: None,
            },
            background_color: None,
        })
    );
    assert_eq!(reset_row_format(11, i32::MAX), Err(MappingError::RowOutOfRange));
}

#[test]
fn range_background_keeps_range_and_color() {
    let range = GridRange {
        sheet_id: 1,
        start_row_index: Some(1),
        end_row_index: None,
        start_column_index: Some(2),
        end_column_index: Some(3),
    };
    assert_eq!(
        set_range_background_color(None, range),
        RepeatCellRequest { range, background_color: None }
    );
    let color = Color { red: 1, green: 2, blue: 3 };
    assert_eq!(
        set_range_background_color(Some(color), range),
        RepeatCellRequest { range, background_color: Some(color) }
    );
}

#[test]
fn append_request_holds_name_and_row() {
    let request = append_row("Ristikko - Reitit", vec!["a".to_string(), "b".to_string()]);
    assert_eq!(request.sheet_name, "Ristikko - Reitit");
    assert_eq!(request.row, vec!["a".to_string(), "b".to_string()]);
}

#[test]
fn sheet_id_is_that_of_the_first_sheet_with_the_title() {
    assert_eq!(get_sheet_id(&board(), "Ristikko - Reitit"), Ok(11));
    assert_eq!(get_sheet_id(&board(), "Ristikko - Boulderit"), Ok(12));
    assert_eq!(get_sheet_id(&board(), "Ohjeet"), Ok(0));
}

#[test]
fn sheet_id_lookup_fails_fast() {
    assert_eq!(get_sheet_id(&board(), "Kalasatama - Reitit"), Err(MappingError::MissingSheet));
    assert_eq!(
        get_sheet_id(&Spreadsheet { sheets: None }, "Ristikko - Reitit"),
        Err(MappingError::MissingSheetList)
    );
    assert_eq!(
        get_sheet_id(&Spreadsheet { sheets: Some(vec![]) }, "Ristikko - Reitit"),
        Err(MappingError::MissingSheet)
    );
    let broken = Spreadsheet {
        sheets: Some(vec![Sheet { properties: None }, sheet("Ristikko - Reitit", 11)]),
    };
    assert_eq!(get_sheet_id(&broken, "Ristikko - Reitit"), Err(MappingError::MissingSheetProperties));
    let without_id = Spreadsheet {
        sheets: Some(vec![Sheet {
            properties: Some(SheetProperties {
                title: Some("Ristikko - Reitit".to_string()),
                sheet_id: None,
            }),
        }]),
    };
    assert_eq!(get_sheet_id(&without_id, "Ristikko - Reitit"), Err(MappingError::MissingSheetId));
    let untitled = Spreadsheet {
        sheets: Some(vec![
            Sheet { properties: Some(SheetProperties { title: None, sheet_id: Some(5) }) },
            sheet("Ristikko - Reitit", 11),
        ]),
    };
    assert_eq!(get_sheet_id(&untitled, "Ristikko - Reitit"), Ok(11));
}

#[test]
fn sheet_accessors_say_what_is_missing() {
    assert_eq!(sheet("a", 1).title(), Ok("a"));
    assert_eq!(sheet("a", 1).id(), Ok(1));
    let bare = Sheet { properties: None };
    assert_eq!(bare.title(), Err(MappingError::MissingSheetProperties));
    assert_eq!(bare.id(), Err(MappingError::MissingSheetProperties));
    let empty = Sheet { properties: Some(SheetProperties { title: None, sheet_id: None }) };
    assert_eq!(empty.title(), Err(MappingError::MissingSheetTitle));
    assert_eq!(empty.id(), Err(MappingError::MissingSheetId));
}

#[test]
fn cache_answers_what_it_was_told() {
    let mut cache = SheetIdCache::new();
    assert_eq!(cache.get("a"), None);
    cache.insert("a", 1);
    cache.insert("b", 2);
    assert_eq!(cache.get("a"), Some(1));
    assert_eq!(cache.get("b"), Some(2));
    cache.insert("a", 3);
    assert_eq!(cache.get("a"), Some(3));
    assert_eq!(cache.get("c"), None);
}

#[test]
fn memoized_lookup_remembers_the_first_answer() {
    let mut cache = SheetIdCache::new();
    assert_eq!(memoized_get_sheet_id(&mut cache, &board(), "Ristikko - Reitit"), Ok(11));
    assert_eq!(cache.get("Ristikko - Reitit"), Some(11));
    let moved = Spreadsheet { sheets: Some(vec![sheet("Ristikko - Reitit", 99)]) };
    assert_eq!(memoized_get_sheet_id(&mut cache, &moved, "Ristikko - Reitit"), Ok(11));
    assert_eq!(memoized_get_sheet_id(&mut cache, &Spreadsheet { sheets: None }, "Ristikko - Reitit"), Ok(11));
}

#[test]
fn memoized_lookup_forgets_failures() {
    let mut cache = SheetIdCache::new();
    assert_eq!(
        memoized_get_sheet_id(&mut cache, &board(), "Kalasatama - Reitit"),
        Err(MappingError::MissingSheet)
    );
    assert_eq!(cache.get("Kalasatama - Reitit"), None);
    let grown = Spreadsheet { sheets: Some(vec![sheet("Kalasatama - Reitit", 21)]) };
    assert_eq!(memoized_get_sheet_id(&mut cache, &grown, "Kalasatama - Reitit"), Ok(21));
}
