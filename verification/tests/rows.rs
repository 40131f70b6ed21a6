use chrono::Datelike;
use climbsheet::dates::{
    day_is_new, format_human_date, hour_of_day, parse_human_date, today, HUMAN_DATE_FORMAT,
    NEW_ROUTE_WITHIN_DAYS,
};
use climbsheet::error::{DateParseError, MappingError};
use climbsheet::key_set::KeySet;
use climbsheet::sheet_row::ClimbSheetRow;
use climbsheet::vertical_life::{Climb, Wall};

fn climb(label: &str, set_at: i64) -> Climb {
    Climb {
        id: 1,
        difficulty: "6a+".to_string(),
        set_at,
        color: "#ff8800".to_string(),
        sector_name: "Sektori 1".to_string(),
        parent_name: "Seinä 3".to_string(),
        route_card_label: label.to_string(),
        route_setter: "Matti".to_string(),
        item_type: "gym_route".to_string(),
        share_url: "https://example.com/r/1".to_string(),
    }
}

fn cells(texts: &[&str]) -> Vec<String> {
    texts.iter().map(|t| t.to_string()).collect()
}

fn row(label: &str, date: &str) -> ClimbSheetRow {
    ClimbSheetRow {
        route_card_label: label.to_string(),
        difficulty: "6a+".to_string(),
        set_at_human_date: date.to_string(),
        route_setter: "Matti".to_string(),
        parent_name: "Seinä 3".to_string(),
    }
}

fn day(year: i32, month: u32, day: u32) -> i32 {
    chrono::NaiveDate::from_ymd_opt(year, month, day).unwrap().num_days_from_ce()
}

#[test]
fn human_date_has_no_leading_zeros() {
    assert_eq!(HUMAN_DATE_FORMAT, "%-d.%-m.%Y");
    assert_eq!(format_human_date(1431648000), Ok("15.5.2015".to_string()));
    assert_eq!(format_human_date(1704635100), Ok("7.1.2024".to_string()));
    assert_eq!(format_human_date(1704067199), Ok("31.12.2023".to_string()));
    assert_eq!(format_human_date(0), Ok("1.1.1970".to_string()));
}

#[test]
fn human_date_of_a_time_beyond_the_calendar_is_refused() {
    assert_eq!(format_human_date(i64::MAX), Err(MappingError::DateOutOfRange));
    assert_eq!(format_human_date(i64::MIN), Err(MappingError::DateOutOfRange));
}

#[test]
fn human_date_is_read_back_as_a_day() {
    assert_eq!(parse_human_date("15.5.2015"), Ok(735733));
    assert_eq!(parse_human_date("10.1.2024"), Ok(738895));
    assert_eq!(parse_human_date("31.12.2023"), Ok(738885));
    assert_eq!(parse_human_date("31.12.2023"), Ok(day(2023, 12, 31)));
}

#[test]
fn human_date_that_is_no_date_is_refused() {
    assert_eq!(parse_human_date(""), Err(DateParseError));
    assert_eq!(parse_human_date("2024-01-10"), Err(DateParseError));
    assert_eq!(parse_human_date("31.2.2024"), Err(DateParseError));
    assert_eq!(parse_human_date("Päivä"), Err(DateParseError));
}

#[test]
fn hour_of_day_counts_from_midnight() {
    assert_eq!(hour_of_day(0), 0);
    assert_eq!(hour_of_day(3_599), 0);
    assert_eq!(hour_of_day(3_600), 1);
    assert_eq!(hour_of_day(86_399), 23);
    assert_eq!(hour_of_day(86_400), 0);
    assert_eq!(hour_of_day(1704635100), 13);
    assert_eq!(hour_of_day(-1), 23);
    assert_eq!(hour_of_day(-3_600), 23);
    assert_eq!(hour_of_day(-3_601), 22);
    assert_eq!(hour_of_day(-86_400), 0);
    assert_eq!(hour_of_day(i64::MAX), 15);
    assert_eq!(hour_of_day(i64::MIN), 8);
}

#[test]
fn newness_has_its_boundary_after_seven_days() {
    let today = day(2024, 1, 10);
    assert_eq!(NEW_ROUTE_WITHIN_DAYS, 7);
    assert!(day_is_new(today, today, NEW_ROUTE_WITHIN_DAYS));
    assert!(day_is_new(today, today - 3, NEW_ROUTE_WITHIN_DAYS));
    assert!(day_is_new(today, today - 7, NEW_ROUTE_WITHIN_DAYS));
    assert!(!day_is_new(today, today - 8, NEW_ROUTE_WITHIN_DAYS));
    assert!(!day_is_new(today, today - 10, NEW_ROUTE_WITHIN_DAYS));
    assert!(day_is_new(today, today + 5, NEW_ROUTE_WITHIN_DAYS));
}

#[test]
fn newness_does_not_overflow() {
    assert!(day_is_new(i32::MAX, i32::MIN, u32::MAX));
    assert!(!day_is_new(i32::MAX, i32::MIN, u32::MAX - 1));
    assert!(day_is_new(i32::MIN, i32::MAX, 0));
    assert!(day_is_new(0, 0, 0));
    assert!(!day_is_new(1, 0, 0));
}

#[test]
fn row_dated_three_days_ago_is_new() {
    let today = day(2024, 1, 10);
    assert_eq!(row("A1", "7.1.2024").is_new_on(today, 7), Ok(true));
}

#[test]
fn row_dated_ten_days_ago_is_not_new() {
    let today = day(2024, 1, 10);
    assert_eq!(row("A1", "31.12.2023").is_new_on(today, 7), Ok(false));
}

#[test]
fn row_dated_eight_days_ago_is_not_new() {
    let today = day(2024, 1, 10);
    assert_eq!(row("A1", "2.1.2024").is_new_on(today, 7), Ok(false));
    assert_eq!(row("A1", "3.1.2024").is_new_on(today, 7), Ok(true));
}

#[test]
fn row_without_a_date_cannot_be_judged() {
    assert_eq!(row("A1", "soon").is_new_on(day(2024, 1, 10), 7), Err(DateParseError));
    assert_eq!(row("A1", "soon").is_new(), Err(DateParseError));
}

#[test]
fn is_new_goes_by_the_clock() {
    let now = chrono::Utc::now().date_naive();
    let days = today();
    assert!((days - now.num_days_from_ce()).abs() <= 1);
    let fresh = format_human_date(chrono::Utc::now().timestamp()).unwrap();
    assert_eq!(row("A1", &fresh).is_new(), Ok(true));
    assert_eq!(row("A1", "1.1.2000").is_new(), Ok(false));
}

#[test]
fn sheet_row_has_six_cells() {
    assert_eq!(
        climb("A1", 1704635100).to_sheet_row(),
        Ok(cells(&[
            "A1",
            "6a+",
            "7.1.2024",
            "Matti",
            "Seinä 3",
            "=HYPERLINK(\"https://example.com/r/1\"; \"🔗\")",
        ]))
    );
}

#[test]
fn sheet_row_needs_a_date() {
    assert_eq!(climb("A1", i64::MAX).to_sheet_row(), Err(MappingError::DateOutOfRange));
    assert_eq!(ClimbSheetRow::from_climb(&climb("A1", i64::MAX)), Err(MappingError::DateOutOfRange));
}

#[test]
fn key_of_a_climb_has_five_fields() {
    assert_eq!(ClimbSheetRow::from_climb(&climb("A1", 1704635100)), Ok(row("A1", "7.1.2024")));
}

#[test]
fn key_of_a_row_skips_leading_empty_cells() {
    let expected = Ok(row("A1", "7.1.2024"));
    assert_eq!(
        ClimbSheetRow::from_row(&cells(&["A1", "6a+", "7.1.2024", "Matti", "Seinä 3"])),
        expected
    );
    assert_eq!(
        ClimbSheetRow::from_row(&cells(&["", "A1", "6a+", "7.1.2024", "Matti", "Seinä 3", "link"])),
        expected
    );
    assert_eq!(
        ClimbSheetRow::from_row(&cells(&["", "", "A1", "6a+", "7.1.2024", "Matti", "Seinä 3"])),
        expected
    );
}

#[test]
fn key_of_a_row_keeps_empty_cells_after_the_first_filled_one() {
    assert_eq!(
        ClimbSheetRow::from_row(&cells(&["A1", "", "", "", ""])),
        Ok(ClimbSheetRow {
            route_card_label: "A1".to_string(),
            difficulty: "".to_string(),
            set_at_human_date: "".to_string(),
            route_setter: "".to_string(),
            parent_name: "".to_string(),
        })
    );
}

#[test]
fn short_rows_are_malformed() {
    assert_eq!(ClimbSheetRow::from_row(&cells(&[])), Err(MappingError::MalformedRow));
    assert_eq!(ClimbSheetRow::from_row(&cells(&["", "", "", "", ""])), Err(MappingError::MalformedRow));
    assert_eq!(
        ClimbSheetRow::from_row(&cells(&["A1", "6a+", "7.1.2024", "Matti"])),
        Err(MappingError::MalformedRow)
    );
    assert_eq!(
        ClimbSheetRow::from_row(&cells(&["", "A1", "6a+", "7.1.2024", "Matti"])),
        Err(MappingError::MalformedRow)
    );
}

#[test]
fn key_round_trip() {
    for (label, set_at) in [("A1", 1704635100), ("Ö 12", 0), ("x", 1431648000)] {
        let climb = climb(label, set_at);
        let written = climb.to_sheet_row().unwrap();
        assert_eq!(ClimbSheetRow::from_row(&written), ClimbSheetRow::from_climb(&climb));
        let mut read_back = vec!["".to_string()];
        read_back.extend(written);
        assert_eq!(ClimbSheetRow::from_row(&read_back), ClimbSheetRow::from_climb(&climb));
    }
}

#[test]
fn key_round_trip_needs_a_label() {
    let climb = climb("", 1704635100);
    let written = climb.to_sheet_row().unwrap();
    assert_ne!(ClimbSheetRow::from_row(&written), ClimbSheetRow::from_climb(&climb));
}

#[test]
fn same_key_compares_all_five_fields() {
    let a = row("A1", "7.1.2024");
    assert!(a.same_key(&row("A1", "7.1.2024")));
    assert!(!a.same_key(&row("A2", "7.1.2024")));
    assert!(!a.same_key(&row("A1", "8.1.2024")));
    let mut other = row("A1", "7.1.2024");
    other.parent_name = "Seinä 4".to_string();
    assert!(!a.same_key(&other));
    let mut other = row("A1", "7.1.2024");
    other.route_setter = "Maija".to_string();
    assert!(!a.same_key(&other));
    let mut other = row("A1", "7.1.2024");
    other.difficulty = "6a".to_string();
    assert!(!a.same_key(&other));
}

#[test]
fn key_set_finds_what_was_inserted() {
    let mut keys = KeySet::new();
    assert!(!keys.contains(&row("A1", "7.1.2024")));
    keys.insert(row("A1", "7.1.2024"));
    assert!(keys.contains(&row("A1", "7.1.2024")));
    assert!(!keys.contains(&row("A2", "7.1.2024")));
    keys.insert(row("A1", "7.1.2024"));
    assert!(keys.contains(&row("A1", "7.1.2024")));
}

#[test]
fn key_set_is_made_from_rows() {
    let keys = KeySet::from_rows(vec![row("A1", "7.1.2024"), row("A2", "8.1.2024")]);
    assert!(keys.contains(&row("A1", "7.1.2024")));
    assert!(keys.contains(&row("A2", "8.1.2024")));
    assert!(!keys.contains(&row("A2", "7.1.2024")));
}

#[test]
fn wall_lists_boulders_before_routes() {
    let mut wall = Wall {
        id: 1,
        gym_sector_id: 2,
        height: 4,
        name: "Seinä 3".to_string(),
        category: "gym_bouldering".to_string(),
        gym_boulders: Some(vec![climb("B1", 0), climb("B2", 0)]),
        gym_routes: Some(vec![climb("R1", 0)]),
    };
    let labels: Vec<&str> = wall.climbs().iter().map(|c| c.route_card_label.as_str()).collect();
    assert_eq!(labels, vec!["B1", "B2", "R1"]);
    wall.gym_boulders = None;
    let labels: Vec<&str> = wall.climbs().iter().map(|c| c.route_card_label.as_str()).collect();
    assert_eq!(labels, vec!["R1"]);
    wall.gym_routes = None;
    assert!(wall.climbs().is_empty());
    wall.gym_boulders = Some(vec![]);
    assert!(wall.climbs().is_empty());
}
