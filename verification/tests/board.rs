use chrono::Datelike;
use climbsheet::climb_sheet::{body_rows, copy_climb, find_last_new, ClimbSheet, Highlight};
use climbsheet::config::Config;
use climbsheet::error::{DateParseError, MappingError, SyncError};
use climbsheet::key_set::KeySet;
use climbsheet::sheet_row::ClimbSheetRow;
use climbsheet::sheets::{
    AppendRowRequest, AppendValuesResponse, Color, GridRange, RepeatCellRequest, Sheet,
    SheetProperties, SortRangeRequest, Spreadsheet, UpdateValuesResponse,
};
use climbsheet::vertical_life::{Climb, Gym, Wall};
use climbsheet::wall_sync::{copy_row, SheetAction, SyncStage};

fn config() -> Config {
    Config {
        sheet_id: "spreadsheet-1".to_string(),
        gyms: vec![2108],
        climb_color_column_idx: 0,
        grade_column_idx: 2,
        date_column_idx: 3,
        new_climb_background_color: "#fff2cc".to_string(),
    }
}

fn sheet(title: &str, id: i32) -> Sheet {
    Sheet { properties: Some(SheetProperties { title: Some(title.to_string()), sheet_id: Some(id) }) }
}

fn spreadsheet() -> Spreadsheet {
    Spreadsheet {
        sheets: Some(vec![
            sheet("Ohjeet", 0),
            sheet("Ristikko - Reitit", 11),
            Sheet { properties: None },
            sheet("Kalasatama - Reitit", 21),
            sheet("Ristikko - Boulderit", 12),
            Sheet { properties: Some(SheetProperties { title: None, sheet_id: Some(5) }) },
            sheet("Ristikko", 13),
        ]),
    }
}

fn tidy_spreadsheet() -> Spreadsheet {
    Spreadsheet {
        sheets: Some(vec![
            sheet("Ristikko - Reitit", 11),
            sheet("Ristikko - Boulderit", 12),
        ]),
    }
}

fn gym(name: &str) -> Gym {
    Gym { id: 2108, name: name.to_string(), boulder_count: 0, route_count: 0, gym_sectors: vec![] }
}

fn climb(label: &str, set_at: i64, color: &str) -> Climb {
    Climb {
        id: 1,
        difficulty: "6a+".to_string(),
        set_at,
        color: color.to_string(),
        sector_name: "Sektori 1".to_string(),
        parent_name: "Seinä 3".to_string(),
        route_card_label: label.to_string(),
        route_setter: "Matti".to_string(),
        item_type: "gym_route".to_string(),
        share_url: "https://example.com/r/1".to_string(),
    }
}

fn wall(category: &str, boulders: Vec<Climb>, routes: Vec<Climb>) -> Wall {
    Wall {
        id: 1,
        gym_sector_id: 2,
        height: 4,
        name: "Seinä 3".to_string(),
        category: category.to_string(),
        gym_boulders: Some(boulders),
        gym_routes: Some(routes),
    }
}

fn cells(texts: &[&str]) -> Vec<String> {
    texts.iter().map(|t| t.to_string()).collect()
}

fn dated(label: &str, date: &str) -> Vec<String> {
    cells(&["", label, "6a+", date, "Matti", "Seinä 3", "link"])
}

fn header() -> Vec<String> {
    cells(&["", "Nimi", "Greidi", "Päivä", "Tekijä", "Seinä", "Linkki"])
}

fn day(year: i32, month: u32, day: u32) -> i32 {
    chrono::NaiveDate::from_ymd_opt(year, month, day).unwrap().num_days_from_ce()
}

fn landed(row: i32) -> AppendValuesResponse {
    AppendValuesResponse {
        updates: Some(UpdateValuesResponse {
            updated_range: Some(format!("'Ristikko - Reitit'!A{}:F{}", row, row)),
        }),
    }
}

fn date_column(sheet_id: i32, end_row: Option<i32>) -> GridRange {
    GridRange {
        sheet_id,
        start_row_index: Some(1),
        end_row_index: end_row,
        start_column_index: Some(3),
        end_column_index: Some(4),
    }
}

const JAN_7: i64 = 1704635100;

#[test]
fn board_needs_columns_with_a_successor() {
    let config = config();
    assert!(ClimbSheet::new(&config, spreadsheet()).is_ok());
    let mut wide = config.clone();
    wide.date_column_idx = i32::MAX;
    assert_eq!(ClimbSheet::new(&wide, spreadsheet()).err(), Some(MappingError::ColumnOutOfRange));
    let mut wide = config.clone();
    wide.climb_color_column_idx = i32::MAX;
    assert_eq!(ClimbSheet::new(&wide, spreadsheet()).err(), Some(MappingError::ColumnOutOfRange));
    let mut wide = config.clone();
    wide.grade_column_idx = i32::MAX;
    wide.date_column_idx = i32::MAX - 1;
    let board = ClimbSheet::new(&wide, spreadsheet()).unwrap();
    assert_eq!(board.sheet_id(), "spreadsheet-1");
}

#[test]
fn gym_sheets_begin_with_the_location() {
    let config = config();
    let board = ClimbSheet::new(&config, spreadsheet()).unwrap();
    let sheets = board.get_gym_sheets(&gym("Kiipeilyareena Ristikko")).unwrap();
    let titles: Vec<&str> = sheets.iter().map(|s| s.title().unwrap()).collect();
    assert_eq!(titles, vec!["Ristikko - Reitit", "Ristikko - Boulderit", "Ristikko"]);
    let sheets = board.get_gym_sheets(&gym("Kiipeilyareena Kalasatama")).unwrap();
    let ids: Vec<i32> = sheets.iter().map(|s| s.id().unwrap()).collect();
    assert_eq!(ids, vec![21]);
    assert!(board.get_gym_sheets(&gym("Kiipeilyareena Pasila")).unwrap().is_empty());
}

#[test]
fn gym_sheets_of_a_spreadsheet_without_sheets_are_none() {
    let config = config();
    let board = ClimbSheet::new(&config, Spreadsheet { sheets: None }).unwrap();
    assert!(board.get_gym_sheets(&gym("Kiipeilyareena Ristikko")).unwrap().is_empty());
    assert_eq!(
        board.get_gym_sheets(&gym("Ristikko")).err(),
        Some(MappingError::MissingLocation)
    );
}

#[test]
fn sheet_for_gym_and_category_is_resolved() {
    let config = config();
    let board = ClimbSheet::new(&config, tidy_spreadsheet()).unwrap();
    assert_eq!(
        board.get_sheet_for_gym_name_and_wall_category("Kiipeilyareena Ristikko", "gym_bouldering"),
        Ok(("Ristikko - Boulderit".to_string(), 12))
    );
    assert_eq!(
        board.get_sheet_for_gym_name_and_wall_category("Kiipeilyareena Ristikko", "gym_sportclimbing"),
        Ok(("Ristikko - Reitit".to_string(), 11))
    );
}

#[test]
fn sheet_for_gym_and_category_fails_fast() {
    let config = config();
    let board = ClimbSheet::new(&config, tidy_spreadsheet()).unwrap();
    assert_eq!(
        board.get_sheet_for_gym_name_and_wall_category("Ristikko", "gym_speed"),
        Err(MappingError::MissingLocation)
    );
    assert_eq!(
        board.get_sheet_for_gym_name_and_wall_category("Kiipeilyareena Ristikko", "gym_speed"),
        Err(MappingError::UnknownWallCategory)
    );
    assert_eq!(
        board.get_sheet_for_gym_name_and_wall_category("Kiipeilyareena Pasila", "gym_bouldering"),
        Err(MappingError::MissingSheet)
    );
    let empty = ClimbSheet::new(&config, Spreadsheet { sheets: None }).unwrap();
    assert_eq!(
        empty.get_sheet_for_gym_name_and_wall_category("Ristikko", "gym_speed"),
        Err(MappingError::MissingSheetList)
    );
    let untidy = ClimbSheet::new(&config, spreadsheet()).unwrap();
    assert_eq!(
        untidy.get_sheet_for_gym_name_and_wall_category("Kiipeilyareena Ristikko", "gym_bouldering"),
        Err(MappingError::MissingSheetProperties)
    );
}

#[test]
fn route_sheets_are_boulders_then_routes() {
    let config = config();
    let board = ClimbSheet::new(&config, tidy_spreadsheet()).unwrap();
    assert_eq!(
        board.gym_route_sheets(&gym("Kiipeilyareena Ristikko")),
        Ok(vec!["Ristikko - Boulderit".to_string(), "Ristikko - Reitit".to_string()])
    );
    assert_eq!(
        board.gym_route_sheets(&gym("Kiipeilyareena Pasila")),
        Err(MappingError::MissingSheet)
    );
    let half = Spreadsheet { sheets: Some(vec![sheet("Ristikko - Boulderit", 12)]) };
    let board = ClimbSheet::new(&config, half).unwrap();
    assert_eq!(
        board.gym_route_sheets(&gym("Kiipeilyareena Ristikko")),
        Err(MappingError::MissingSheet)
    );
}

#[test]
fn body_rows_skip_the_header() {
    assert_eq!(body_rows(&vec![]), Ok(vec![]));
    assert_eq!(body_rows(&vec![cells(&["only", "a", "header"])]), Ok(vec![]));
    let rows = vec![header(), dated("A1", "7.1.2024"), dated("A2", "8.1.2024")];
    let body = body_rows(&rows).unwrap();
    assert_eq!(body.len(), 2);
    assert_eq!(body[0].route_card_label, "A1");
    assert_eq!(body[1].set_at_human_date, "8.1.2024");
    let rows = vec![header(), dated("A1", "7.1.2024"), cells(&["A2"])];
    assert_eq!(body_rows(&rows), Err(MappingError::MalformedRow));
}

#[test]
fn routes_are_read_from_all_sheets() {
    let config = config();
    let board = ClimbSheet::new(&config, tidy_spreadsheet()).unwrap();
    let sheets = vec![
        vec![header(), dated("B1", "7.1.2024")],
        vec![],
        vec![header(), dated("R1", "1.1.2024"), dated("R2", "2.1.2024")],
    ];
    let routes = board.get_gym_routes_from_sheet(&sheets).unwrap();
    let labels: Vec<&str> = routes.iter().map(|r| r.route_card_label.as_str()).collect();
    assert_eq!(labels, vec!["B1", "R1", "R2"]);
    assert_eq!(board.get_gym_routes_from_sheet(&vec![]), Ok(vec![]));
    let broken = vec![vec![header(), dated("B1", "7.1.2024")], vec![header(), cells(&["", ""])]];
    assert_eq!(board.get_gym_routes_from_sheet(&broken), Err(MappingError::MalformedRow));
}

#[test]
fn last_new_row_is_found_from_below() {
    let today = day(2024, 1, 10);
    let body = body_rows(&vec![
        header(),
        dated("A1", "9.1.2024"),
        dated("A2", "bad date"),
        dated("A3", "5.1.2024"),
        dated("A4", "1.1.2024"),
        dated("A5", "20.12.2023"),
    ])
    .unwrap();
    assert_eq!(find_last_new(&body, today, 7), Ok(Some(2)));
    assert_eq!(find_last_new(&body, today + 30, 7), Err(DateParseError));
    assert_eq!(find_last_new(&body[2..].to_vec(), today + 30, 7), Ok(None));
    assert_eq!(find_last_new(&vec![], today, 7), Ok(None));
}

#[test]
fn highlight_paints_down_to_the_last_new_row() {
    let config = config();
    let board = ClimbSheet::new(&config, tidy_spreadsheet()).unwrap();
    let rows = vec![
        header(),
        dated("A1", "9.1.2024"),
        dated("A2", "7.1.2024"),
        dated("A3", "3.1.2024"),
        dated("A4", "2.1.2024"),
        dated("A5", "20.12.2023"),
    ];
    assert_eq!(
        board.highlight_new_routes(&sheet("Ristikko - Reitit", 11), &rows, day(2024, 1, 10)),
        Ok(Highlight {
            reset: RepeatCellRequest { range: date_column(11, None), background_color: None },
            paint: Ok(Some(RepeatCellRequest {
                range: date_column(11, Some(4)),
                background_color: Some(Color { red: 255, green: 242, blue: 204 }),
            })),
        })
    );
}

#[test]
fn highlight_only_resets_when_nothing_is_new() {
    let config = config();
    let board = ClimbSheet::new(&config, tidy_spreadsheet()).unwrap();
    let rows = vec![header(), dated("A4", "2.1.2024"), dated("A5", "20.12.2023")];
    let today = day(2024, 1, 10);
    let reset = RepeatCellRequest { range: date_column(12, None), background_color: None };
    let only_reset = Ok(Highlight { reset, paint: Ok(None) });
    let boulders = sheet("Ristikko - Boulderit", 12);
    assert_eq!(board.highlight_new_routes(&boulders, &rows, today), only_reset);
    assert_eq!(board.highlight_new_routes(&boulders, &vec![header()], today), only_reset);
    assert_eq!(board.highlight_new_routes(&boulders, &vec![], today), only_reset);
    assert_eq!(board.reset_grade_column_background(12), reset);
}

#[test]
fn highlight_goes_by_the_given_number_of_days() {
    let config = config();
    let board = ClimbSheet::new(&config, tidy_spreadsheet()).unwrap();
    let rows = vec![
        header(),
        dated("A1", "9.1.2024"),
        dated("A2", "7.1.2024"),
        dated("A3", "3.1.2024"),
        dated("A4", "2.1.2024"),
        dated("A5", "20.12.2023"),
    ];
    let sheet = sheet("Ristikko - Reitit", 11);
    let today = day(2024, 1, 10);
    let reset = RepeatCellRequest { range: date_column(11, None), background_color: None };
    let painted = |end: i32| {
        Ok(Highlight {
            reset,
            paint: Ok(Some(RepeatCellRequest {
                range: date_column(11, Some(end)),
                background_color: Some(Color { red: 255, green: 242, blue: 204 }),
            })),
        })
    };
    assert_eq!(
        board.highlight_new_routes_within(&sheet, &rows, today, 0),
        Ok(Highlight { reset, paint: Ok(None) })
    );
    assert_eq!(board.highlight_new_routes_within(&sheet, &rows, today, 1), painted(2));
    assert_eq!(board.highlight_new_routes_within(&sheet, &rows, today, 8), painted(5));
    assert_eq!(board.highlight_new_routes_within(&sheet, &rows, today, 21), painted(6));
    assert_eq!(
        board.highlight_new_routes_within(&sheet, &rows, today, 7),
        board.highlight_new_routes(&sheet, &rows, today)
    );
}

#[test]
fn highlight_errors_come_in_order() {
    let mut config = config();
    config.new_climb_background_color = "yellow".to_string();
    let board = ClimbSheet::new(&config, tidy_spreadsheet()).unwrap();
    let today = day(2024, 1, 10);
    let bare = Sheet { properties: None };
    let untitled = Sheet { properties: Some(SheetProperties { title: None, sheet_id: None }) };
    let without_id = Sheet {
        properties: Some(SheetProperties { title: Some("Ristikko - Reitit".to_string()), sheet_id: None }),
    };
    let good = sheet("Ristikko - Reitit", 11);
    let malformed = vec![header(), cells(&["A1"]), dated("A2", "bad date")];
    let unreadable = vec![header(), dated("A1", "9.1.2024"), dated("A2", "bad date")];
    let new = vec![header(), dated("A1", "9.1.2024")];
    let old = vec![header(), dated("A1", "9.1.2023")];
    let reset = RepeatCellRequest { range: date_column(11, None), background_color: None };
    assert_eq!(
        board.highlight_new_routes(&bare, &malformed, today),
        Err(SyncError::Mapping(MappingError::MissingSheetProperties))
    );
    assert_eq!(
        board.highlight_new_routes(&untitled, &malformed, today),
        Err(SyncError::Mapping(MappingError::MissingSheetTitle))
    );
    assert_eq!(
        board.highlight_new_routes(&without_id, &malformed, today),
        Err(SyncError::Mapping(MappingError::MalformedRow))
    );
    assert_eq!(
        board.highlight_new_routes(&without_id, &unreadable, today),
        Err(SyncError::Mapping(MappingError::MissingSheetId))
    );
    assert_eq!(
        board.highlight_new_routes(&good, &unreadable, today),
        Ok(Highlight { reset, paint: Err(SyncError::Parse(DateParseError)) })
    );
    assert_eq!(
        board.highlight_new_routes(&good, &new, today),
        Ok(Highlight { reset, paint: Err(SyncError::Mapping(MappingError::MalformedColor)) })
    );
    assert_eq!(
        board.highlight_new_routes(&good, &old, today),
        Ok(Highlight { reset, paint: Ok(None) })
    );
}

#[test]
fn sync_appends_only_new_climbs() {
    let config = config();
    let board = ClimbSheet::new(&config, tidy_spreadsheet()).unwrap();
    let known = climb("R1", JAN_7, "#ff0000");
    let mut keys = KeySet::from_rows(vec![ClimbSheetRow::from_climb(&known).unwrap()]);
    let wall = wall(
        "gym_sportclimbing",
        vec![climb("B1", JAN_7, "#00ff00")],
        vec![known.clone(), climb("R2", JAN_7, "#0000ff"), climb("B1", JAN_7, "#123456")],
    );
    let sync = board.add_wall_to_sheet(&mut keys, &gym("Kiipeilyareena Ristikko"), &wall).unwrap();
    let labels: Vec<&str> = sync.new_climbs().iter().map(|c| c.route_card_label.as_str()).collect();
    assert_eq!(labels, vec!["B1", "R2"]);
    assert_eq!(sync.new_climbs()[0].color, "#00ff00");
    assert_eq!(sync.stage(), SyncStage::Start);
    for c in wall.climbs() {
        assert!(keys.contains(&ClimbSheetRow::from_climb(c).unwrap()));
    }
}

#[test]
fn sync_is_idempotent() {
    let config = config();
    let board = ClimbSheet::new(&config, tidy_spreadsheet()).unwrap();
    let wall = wall(
        "gym_sportclimbing",
        vec![],
        vec![climb("R1", JAN_7, "#ff0000"), climb("R2", 0, "#0000ff")],
    );
    let mut written = vec![header()];
    for c in wall.climbs() {
        let mut row = vec!["".to_string()];
        row.extend(c.to_sheet_row().unwrap());
        written.push(row);
    }
    let read_back = board.get_gym_routes_from_sheet(&vec![vec![header()], written]).unwrap();
    let mut keys = KeySet::from_rows(read_back);
    let mut sync = board.add_wall_to_sheet(&mut keys, &gym("Kiipeilyareena Ristikko"), &wall).unwrap();
    assert!(sync.new_climbs().is_empty());
    assert_eq!(
        sync.step(None),
        Ok(SheetAction::Sort(SortRangeRequest {
            range: GridRange {
                sheet_id: 11,
                start_row_index: Some(1),
                end_row_index: None,
                start_column_index: Some(0),
                end_column_index: None,
            },
            dimension_index: 3,
            descending: true,
        }))
    );
    assert_eq!(sync.step(None), Ok(SheetAction::Finished));
}

#[test]
fn appended_climb_is_present_for_the_rest_of_the_run() {
    let config = config();
    let board = ClimbSheet::new(&config, tidy_spreadsheet()).unwrap();
    let gym = gym("Kiipeilyareena Ristikko");
    let first = wall("gym_sportclimbing", vec![], vec![climb("R1", JAN_7, "#ff0000")]);
    let second = wall(
        "gym_sportclimbing",
        vec![],
        vec![climb("R1", JAN_7, "#ff0000"), climb("R3", JAN_7, "#ff0000")],
    );
    let mut keys = KeySet::new();
    let sync = board.add_wall_to_sheet(&mut keys, &gym, &first).unwrap();
    assert_eq!(sync.new_climbs().len(), 1);
    assert!(keys.contains(&ClimbSheetRow::from_climb(&climb("R1", JAN_7, "#ff0000")).unwrap()));
    let sync = board.add_wall_to_sheet(&mut keys, &gym, &second).unwrap();
    let labels: Vec<&str> = sync.new_climbs().iter().map(|c| c.route_card_label.as_str()).collect();
    assert_eq!(labels, vec!["R3"]);
    let sync = board.add_wall_to_sheet(&mut keys, &gym, &second).unwrap();
    assert!(sync.new_climbs().is_empty());
}

#[test]
fn sync_errors_leave_the_keys_alone() {
    let config = config();
    let board = ClimbSheet::new(&config, tidy_spreadsheet()).unwrap();
    let gym = gym("Kiipeilyareena Ristikko");
    let mut keys = KeySet::new();
    let undated = wall(
        "gym_sportclimbing",
        vec![],
        vec![climb("R1", JAN_7, "#ff0000"), climb("R2", i64::MAX, "#ff0000")],
    );
    assert_eq!(
        board.add_wall_to_sheet(&mut keys, &gym, &undated).err(),
        Some(MappingError::DateOutOfRange)
    );
    assert!(!keys.contains(&ClimbSheetRow::from_climb(&climb("R1", JAN_7, "#ff0000")).unwrap()));
    let unknown = wall("gym_speed", vec![], vec![climb("R1", JAN_7, "#ff0000")]);
    assert_eq!(
        board.add_wall_to_sheet(&mut keys, &gym, &unknown).err(),
        Some(MappingError::UnknownWallCategory)
    );
    assert!(keys.rows.is_empty());
}

#[test]
fn sync_appends_settles_colors_and_sorts() {
    let config = config();
    let board = ClimbSheet::new(&config, tidy_spreadsheet()).unwrap();
    let wall = wall(
        "gym_bouldering",
        vec![climb("B1", JAN_7, "#00ff00"), climb("B2", 0, "#0000ff")],
        vec![],
    );
    let mut keys = KeySet::new();
    let mut sync = board.add_wall_to_sheet(&mut keys, &gym("Kiipeilyareena Ristikko"), &wall).unwrap();
    assert_eq!(
        sync.step(None),
        Ok(SheetAction::AppendRow(AppendRowRequest {
            sheet_name: "Ristikko - Boulderit".to_string(),
            row: wall.climbs()[0].to_sheet_row().unwrap(),
        }))
    );
    assert_eq!(sync.stage(), SyncStage::Appending);
    assert_eq!(sync.step(Some(&landed(8))), Ok(SheetAction::Settle));
    assert_eq!(sync.stage(), SyncStage::Settling);
    assert_eq!(
        sync.step(None),
        Ok(SheetAction::Format(RepeatCellRequest {
            range: GridRange {
                sheet_id: 12,
                start_row_index: Some(7),
                end_row_index: Some(8),
                start_column_index: Some(0),
                end_column_index: Some(1),
            },
            background_color: Some(Color { red: 0, green: 255, blue: 0 }),
        }))
    );
    assert_eq!(sync.stage(), SyncStage::Coloring);
    assert_eq!(
        sync.step(None),
        Ok(SheetAction::AppendRow(AppendRowRequest {
            sheet_name: "Ristikko - Boulderit".to_string(),
            row: cells(&[
                "B2",
                "6a+",
                "1.1.1970",
                "Matti",
                "Seinä 3",
                "=HYPERLINK(\"https://example.com/r/1\"; \"🔗\")",
            ]),
        }))
    );
    assert_eq!(sync.step(Some(&landed(9))), Ok(SheetAction::Settle));
    assert!(matches!(sync.step(None), Ok(SheetAction::Format(_))));
    assert!(matches!(sync.step(None), Ok(SheetAction::Sort(_))));
    assert_eq!(sync.stage(), SyncStage::Sorting);
    assert_eq!(sync.step(None), Ok(SheetAction::Finished));
    assert_eq!(sync.stage(), SyncStage::Finished);
    assert_eq!(sync.step(Some(&landed(9))), Ok(SheetAction::Finished));
}

#[test]
fn sync_stops_at_what_it_cannot_read() {
    let config = config();
    let board = ClimbSheet::new(&config, tidy_spreadsheet()).unwrap();
    let wall = wall("gym_bouldering", vec![climb("B1", JAN_7, "green")], vec![]);
    let mut keys = KeySet::new();
    let mut sync = board.add_wall_to_sheet(&mut keys, &gym("Kiipeilyareena Ristikko"), &wall).unwrap();
    assert!(matches!(sync.step(None), Ok(SheetAction::AppendRow(_))));
    assert_eq!(sync.step(None), Err(MappingError::UnparseableRange));
    assert_eq!(sync.stage(), SyncStage::Appending);
    assert_eq!(
        sync.step(Some(&AppendValuesResponse { updates: None })),
        Err(MappingError::UnparseableRange)
    );
    assert_eq!(sync.stage(), SyncStage::Appending);
    assert_eq!(sync.step(Some(&landed(3))), Ok(SheetAction::Settle));
    assert_eq!(sync.step(None), Err(MappingError::MalformedColor));
    assert_eq!(sync.stage(), SyncStage::Settling);
}

#[test]
fn copies_are_equal() {
    let climb = climb("B1", JAN_7, "#00ff00");
    assert_eq!(copy_climb(&climb), climb);
    let row = cells(&["a", "", "ä"]);
    assert_eq!(copy_row(&row), row);
}
