//! The route board: which sheets belong to a gym, which rows they hold, and
//! which requests bring them up to date.

use vstd::prelude::*;
use vstd::string::*;
use crate::config::Config;
use crate::dates::{human_day_spec, is_new_day, NEW_ROUTE_WITHIN_DAYS};
use crate::error::{DateParseError, MappingError, SyncError};
use crate::key_set::{all_dated, keys_with, lemma_nothing_new, new_climbs, KeySet};
pub use crate::sheet_row::ClimbSheetRow;
use crate::sheet_row::{
    is_dated, key_of_climb, key_of_row, keys_of, lemma_key_round_trip, row_of_climb, table, texts,
    RowKey,
};
use crate::sheet_util::{
    format_sheet_name, parse_location_from_gym_name, plural_human_type_spec, sheet_name_spec,
    wall_category_to_plural_human_type,
};
use crate::sheets::{
    color_from_hex, color_spec, get_sheet_id, set_range_background_color, sheet_id_spec, Color,
    GridRange, RepeatCellRequest, Sheet, Spreadsheet,
};
use crate::text::{has_prefix, second_word};
use crate::vertical_life::types::{Climb, Gym, Wall, BOULDERING, SPORT_CLIMBING};
use crate::wall_sync::{copy_row, SyncStage, WallSync, WallSyncView};

verus! {

/// Whether a sheet belongs to a gym location: its title begins with the
/// location. A sheet without a title belongs to none.
pub open spec fn belongs_to(sheet: Sheet, location: Seq<char>) -> bool {
    sheet.title_spec() is Some && location.is_prefix_of(sheet.title_spec()->0)
}

/// The sheets of a gym location, in the order of the spreadsheet.
pub open spec fn gym_sheets_spec(spreadsheet: Spreadsheet, location: Seq<char>) -> Seq<Sheet> {
    match spreadsheet.sheets {
        Some(sheets) => sheets@.filter(|sheet: Sheet| belongs_to(sheet, location)),
        None => Seq::empty(),
    }
}

/// The sheets that a list of references points to.
pub open spec fn pointed_to(sheets: Seq<&Sheet>) -> Seq<Sheet> {
    Seq::new(sheets.len(), |i: int| *sheets[i])
}

/// The sheet for the climbs of one wall category of a gym: its title, made
/// of the gym's location and the plural noun of the category, and its
/// numeric id. It is an error, in this order, if the spreadsheet has no list
/// of sheets, the gym name no location, the category no noun, or the
/// spreadsheet no such sheet.
pub open spec fn sheet_for_spec(
    spreadsheet: Spreadsheet,
    gym_name: Seq<char>,
    wall_category: Seq<char>,
) -> Result<(Seq<char>, i32), MappingError> {
    if spreadsheet.sheets is None {
        Err(MappingError::MissingSheetList)
    } else {
        match second_word(gym_name) {
            None => Err(MappingError::MissingLocation),
            Some(location) => match plural_human_type_spec(wall_category) {
                None => Err(MappingError::UnknownWallCategory),
                Some(plural) => match sheet_id_spec(
                    spreadsheet,
                    sheet_name_spec(location, plural),
                ) {
                    Ok(id) => Ok((sheet_name_spec(location, plural), id)),
                    Err(e) => Err(e),
                },
            },
        }
    }
}

/// Whether every row below the header row holds a key.
pub open spec fn body_is_keyed(rows: Seq<Seq<Seq<char>>>) -> bool {
    forall|i: int| 1 <= i < rows.len() ==> key_of_row(#[trigger] rows[i]) is Some
}

/// The keys of the rows below the header row.
pub open spec fn body_keys(rows: Seq<Seq<Seq<char>>>) -> Seq<RowKey> {
    Seq::new(
        if rows.len() > 0 {
            (rows.len() - 1) as nat
        } else {
            0
        },
        |i: int| key_of_row(rows[i + 1])->0,
    )
}

/// The last of the first `upto` rows that is new on the day `today`, where
/// routes count as new for `within_days` days, found by reading the dates
/// from row `upto - 1` upwards. The search ends at the first new row: a date
/// above it is not read. A date that is read and cannot be parsed is an
/// error.
pub open spec fn last_new(keys: Seq<RowKey>, today: int, within_days: int, upto: int) -> Result<
    Option<int>,
    DateParseError,
>
    decreases upto,
{
    if upto <= 0 || upto > keys.len() {
        Ok(None)
    } else {
        match human_day_spec(keys[upto - 1].date) {
            None => Err(DateParseError),
            Some(day) => if is_new_day(today, day, within_days) {
                Ok(Some(upto - 1))
            } else {
                last_new(keys, today, within_days, upto - 1)
            },
        }
    }
}

/// Whether the date of a row can be read and is not new on the day `today`.
pub open spec fn is_old(key: RowKey, today: int, within_days: int) -> bool {
    human_day_spec(key.date) is Some && !is_new_day(
        today,
        human_day_spec(key.date)->0,
        within_days,
    )
}

/// What the search for the last new row finds: a new row below which every
/// row is old; nothing where every row is old; an error where the lowest row
/// that is not old has a date that cannot be read.
pub proof fn lemma_last_new(keys: Seq<RowKey>, today: int, within_days: int, upto: int)
    requires
        0 <= upto <= keys.len(),
    ensures
        last_new(keys, today, within_days, upto) matches Ok(Some(at)) ==> 0 <= at < upto
            && human_day_spec(keys[at].date) is Some && is_new_day(
            today,
            human_day_spec(keys[at].date)->0,
            within_days,
        ) && forall|i: int| at < i < upto ==> is_old(#[trigger] keys[i], today, within_days),
        last_new(keys, today, within_days, upto) == Ok::<Option<int>, DateParseError>(None)
            ==> forall|i: int| 0 <= i < upto ==> is_old(#[trigger] keys[i], today, within_days),
        last_new(keys, today, within_days, upto) is Err ==> exists|at: int|
            0 <= at < upto && human_day_spec((#[trigger] keys[at]).date) is None && forall|i: int|
                at < i < upto ==> is_old(#[trigger] keys[i], today, within_days),
    decreases upto,
{
    if upto > 0 {
        lemma_last_new(keys, today, within_days, upto - 1);
        match human_day_spec(keys[upto - 1].date) {
            None => {
                assert(human_day_spec(keys[upto - 1].date) is None);
            },
            Some(day) => {
                if !is_new_day(today, day, within_days) {
                    assert(is_old(keys[upto - 1], today, within_days));
                    if last_new(keys, today, within_days, upto - 1) is Err {
                        let at = choose|at: int|
                            0 <= at < upto - 1 && human_day_spec((#[trigger] keys[at]).date)
                                is None && forall|i: int|
                                at < i < upto - 1 ==> is_old(
                                    #[trigger] keys[i],
                                    today,
                                    within_days,
                                );
                        assert(forall|i: int|
                            at < i < upto ==> is_old(#[trigger] keys[i], today, within_days));
                    }
                }
            },
        }
    }
}

/// The body of the date column of a sheet.
pub open spec fn date_column_body(config: Config, sheet_id_num: i32) -> GridRange {
    GridRange {
        sheet_id: sheet_id_num,
        start_row_index: Some(1i32),
        end_row_index: None,
        start_column_index: Some(config.date_column_idx),
        end_column_index: Some((config.date_column_idx + 1) as i32),
    }
}

/// The request that clears the highlight of a whole sheet.
pub open spec fn reset_request(config: Config, sheet_id_num: i32) -> RepeatCellRequest {
    RepeatCellRequest { range: date_column_body(config, sheet_id_num), background_color: None }
}

/// The request that highlights the rows of the body up to the one at `at`,
/// counted from 0 below the header row.
pub open spec fn paint_request(
    config: Config,
    sheet_id_num: i32,
    at: int,
    color: Color,
) -> RepeatCellRequest {
    RepeatCellRequest {
        range: GridRange {
            sheet_id: sheet_id_num,
            start_row_index: Some(1i32),
            end_row_index: Some((at + 2) as i32),
            start_column_index: Some(config.date_column_idx),
            end_column_index: Some((config.date_column_idx + 1) as i32),
        },
        background_color: Some(color),
    }
}

/// What highlights the new routes of a sheet: the request that clears the
/// highlight of the whole body, which comes first, and then the request
/// that paints the new rows, where some row is new. The first request is
/// owed even where the second cannot be made.
#[derive(Debug, Clone, Copy, PartialEq, Eq)]
pub struct Highlight {
    pub reset: RepeatCellRequest,
    pub paint: Result<Option<RepeatCellRequest>, SyncError>,
}

/// The request that paints the new rows of a sheet on the day `today`: it
/// covers the body from its first row to the last new row, and there is none
/// where no row is new. It is an error if a date cannot be read, or else if
/// rows are to be painted and the color of the settings is malformed.
pub open spec fn paint_spec(
    config: Config,
    sheet_id_num: i32,
    keys: Seq<RowKey>,
    today: int,
    within_days: int,
) -> Result<Option<RepeatCellRequest>, SyncError> {
    match last_new(keys, today, within_days, keys.len() as int) {
        Err(e) => Err(SyncError::Parse(e)),
        Ok(None) => Ok(None),
        Ok(Some(at)) => match color_spec(config.new_climb_background_color@) {
            None => Err(SyncError::Mapping(MappingError::MalformedColor)),
            Some(color) => Ok(Some(paint_request(config, sheet_id_num, at, color))),
        },
    }
}

/// What highlights the new routes of one sheet on the day `today`, where
/// routes count as new for `within_days` days. Looked at in this order, it
/// is an error if there are more rows than the index type can name, the
/// sheet has no title, a row of the body holds no key, or the sheet has no
/// id. Only then are the dates read.
pub open spec fn highlight_spec(
    config: Config,
    sheet: Sheet,
    rows: Seq<Seq<Seq<char>>>,
    today: int,
    within_days: int,
) -> Result<Highlight, SyncError> {
    if rows.len() > i32::MAX {
        Err(SyncError::Mapping(MappingError::RowOutOfRange))
    } else if sheet.title_spec() is None {
        Err(SyncError::Mapping(sheet.lacks(MappingError::MissingSheetTitle)))
    } else if !body_is_keyed(rows) {
        Err(SyncError::Mapping(MappingError::MalformedRow))
    } else {
        match sheet.id_spec() {
            None => Err(SyncError::Mapping(MappingError::MissingSheetId)),
            Some(id) => Ok(
                Highlight {
                    reset: reset_request(config, id),
                    paint: paint_spec(config, id, body_keys(rows), today, within_days),
                },
            ),
        }
    }
}

/// The rows of several sheets, as texts.
pub open spec fn tables(sheets: Seq<Vec<Vec<String>>>) -> Seq<Seq<Seq<Seq<char>>>> {
    Seq::new(sheets.len(), |i: int| table(sheets[i]@))
}

/// The keys of the bodies of several sheets, one sheet after the other.
pub open spec fn routes_spec(sheets: Seq<Seq<Seq<Seq<char>>>>) -> Seq<RowKey>
    decreases sheets.len(),
{
    if sheets.len() == 0 {
        Seq::empty()
    } else {
        routes_spec(sheets.drop_last()) + body_keys(sheets.last())
    }
}

/// The sync of a wall and the keys that it leaves: the sheet of the wall's
/// category, the climbs of the wall that are new, and the existing keys
/// together with the keys of all climbs of the wall. It is an error if the
/// sheet cannot be found, or else if the creation time of a climb cannot be
/// written as a date.
pub open spec fn wall_sync_spec(
    config: Config,
    spreadsheet: Spreadsheet,
    existing: Set<RowKey>,
    gym_name: Seq<char>,
    wall: Wall,
) -> Result<(WallSyncView, Set<RowKey>), MappingError> {
    match sheet_for_spec(spreadsheet, gym_name, wall.category@) {
        Err(e) => Err(e),
        Ok((sheet_name, sheet_id_num)) => if !all_dated(wall.climbs_spec()) {
            Err(MappingError::DateOutOfRange)
        } else {
            Ok(
                (
                    WallSyncView {
                        sheet_name,
                        sheet_id_num,
                        climb_color_column_idx: config.climb_color_column_idx,
                        date_column_idx: config.date_column_idx,
                        new_climbs: new_climbs(existing, wall.climbs_spec()),
                        done: 0,
                        stage: SyncStage::Start,
                        landed_row: 0,
                    },
                    keys_with(existing, wall.climbs_spec()),
                ),
            )
        },
    }
}

/// Syncing is idempotent across runs: when the rows that were written for
/// some climbs are read back among the rows of a sheet, a sync of those
/// climbs against the keys of the sheet appends nothing. Each climb must
/// have a label, without which its row cannot be told from one that begins
/// with an empty cell.
pub proof fn lemma_sync_after_read_back(climbs: Seq<Climb>, rows: Seq<Seq<Seq<char>>>)
    requires
        forall|i: int|
            0 <= i < climbs.len() ==> (#[trigger] climbs[i]).route_card_label@.len() > 0 && exists|
                j: int,
            | 1 <= j < rows.len() && #[trigger] rows[j] == row_of_climb(climbs[i]),
    ensures
        new_climbs(body_keys(rows).to_set(), climbs) == Seq::<Climb>::empty(),
{
    let keys = body_keys(rows);
    assert forall|i: int| 0 <= i < climbs.len() implies keys.to_set().contains(
        key_of_climb(#[trigger] climbs[i]),
    ) by {
        let climb = climbs[i];
        let j = choose|j: int| 1 <= j < rows.len() && #[trigger] rows[j] == row_of_climb(climb);
        lemma_key_round_trip(climb, crate::dates::human_date_spec(climb.set_at)->0);
        assert(keys[j - 1] == key_of_climb(climb));
    }
    lemma_nothing_new(keys.to_set(), climbs);
}

/// A copy of a climb.
pub fn copy_climb(climb: &Climb) -> (copy: Climb)
    ensures
        copy == *climb,
{
    Climb {
        id: climb.id,
        difficulty: climb.difficulty.clone(),
        set_at: climb.set_at,
        color: climb.color.clone(),
        sector_name: climb.sector_name.clone(),
        parent_name: climb.parent_name.clone(),
        route_card_label: climb.route_card_label.clone(),
        route_setter: climb.route_setter.clone(),
        item_type: climb.item_type.clone(),
        share_url: climb.share_url.clone(),
    }
}

fn copy_key(row: &ClimbSheetRow) -> (copy: ClimbSheetRow)
    ensures
        copy@ == row@,
{
    ClimbSheetRow {
        route_card_label: row.route_card_label.clone(),
        difficulty: row.difficulty.clone(),
        set_at_human_date: row.set_at_human_date.clone(),
        route_setter: row.route_setter.clone(),
        parent_name: row.parent_name.clone(),
    }
}

/// Reads the rows below the header row of a sheet.
pub fn body_rows(rows: &Vec<Vec<String>>) -> (body: Result<Vec<ClimbSheetRow>, MappingError>)
    ensures
        body is Ok <==> body_is_keyed(table(rows@)),
        body is Ok ==> keys_of(body->Ok_0@) == body_keys(table(rows@)),
        body is Err ==> body->Err_0 == MappingError::MalformedRow,
{
    let mut body: Vec<ClimbSheetRow> = Vec::new();
    let mut i: usize = 1;
    while i < rows.len()
        invariant
            1 <= i,
            rows.len() > 0 ==> i <= rows.len(),
            rows.len() == 0 ==> i == 1,
            body@.len() == i - 1,
            forall|j: int| 1 <= j < i ==> key_of_row(#[trigger] table(rows@)[j]) is Some,
            forall|j: int| 0 <= j < body@.len() ==> body@[j]@ == key_of_row(table(rows@)[j + 1])->0,
        decreases rows.len() - i,
    {
        assert(table(rows@)[i as int] == texts(rows@[i as int]@));
        let row = ClimbSheetRow::from_row(&rows[i])?;
        body.push(row);
        i += 1;
    }
    assert(keys_of(body@) =~= body_keys(table(rows@)));
    Ok(body)
}

/// Finds the last row that is new on the day `today`, where routes count as
/// new for `within_days` days.
pub fn find_last_new(body: &Vec<ClimbSheetRow>, today: i32, within_days: u32) -> (found: Result<
    Option<usize>,
    DateParseError,
>)
    ensures
        found is Ok <==> last_new(
            keys_of(body@),
            today as int,
            within_days as int,
            body@.len() as int,
        ) is Ok,
        found is Ok ==> (found->Ok_0 is Some <==> last_new(
            keys_of(body@),
            today as int,
            within_days as int,
            body@.len() as int,
        )->Ok_0 is Some),
        found is Ok && found->Ok_0 is Some ==> found->Ok_0->0 == last_new(
            keys_of(body@),
            today as int,
            within_days as int,
            body@.len() as int,
        )->Ok_0->0 && found->Ok_0->0 < body@.len(),
{
    let mut i: usize = body.len();
    while i > 0
        invariant
            i <= body.len(),
            last_new(keys_of(body@), today as int, within_days as int, body@.len() as int)
                == last_new(keys_of(body@), today as int, within_days as int, i as int),
        decreases i,
    {
        i -= 1;
        assert(keys_of(body@)[i as int] == body@[i as int]@);
        if body[i].is_new_on(today, within_days)? {
            return Ok(Some(i));
        }
    }
    Ok(None)
}

/// The route board of one spreadsheet.
pub struct ClimbSheet<'a> {
    sheet_id: String,
    config: &'a Config,
    spreadsheet: Spreadsheet,
}

impl<'a> ClimbSheet<'a> {
    #[verifier::type_invariant]
    spec fn columns_have_successors(&self) -> bool {
        &&& self.sheet_id@ == self.config.sheet_id@
        &&& self.config.climb_color_column_idx < i32::MAX
        &&& self.config.date_column_idx < i32::MAX
    }

    /// The settings of the board.
    pub closed spec fn config_spec(&self) -> Config {
        *self.config
    }

    /// The sheets of the board.
    pub closed spec fn spreadsheet_spec(&self) -> Spreadsheet {
        self.spreadsheet
    }

    /// The board of a spreadsheet whose sheets are known. The color column
    /// and the date column must each have a column after them.
    pub fn new(config: &'a Config, spreadsheet: Spreadsheet) -> (board: Result<
        ClimbSheet<'a>,
        MappingError,
    >)
        ensures
            board is Ok <==> config.climb_color_column_idx < i32::MAX && config.date_column_idx
                < i32::MAX,
            board is Ok ==> board->Ok_0.config_spec() == *config
                && board->Ok_0.spreadsheet_spec() == spreadsheet,
            board is Err ==> board->Err_0 == MappingError::ColumnOutOfRange,
    {
        if config.climb_color_column_idx == i32::MAX || config.date_column_idx == i32::MAX {
            return Err(MappingError::ColumnOutOfRange);
        }
        Ok(ClimbSheet { sheet_id: config.sheet_id.clone(), config, spreadsheet })
    }

    /// The id of the spreadsheet.
    pub fn sheet_id(&self) -> (id: &str)
        ensures
            id@ == self.config_spec().sheet_id@,
    {
        proof {
            use_type_invariant(self);
        }
        self.sheet_id.as_str()
    }

    /// The sheets that belong to a gym: those whose title begins with the
    /// gym's location, for example `Ristikko - Reitit` and
    /// `Ristikko - Boulderit`.
    pub fn get_gym_sheets(&self, gym: &Gym) -> (sheets: Result<Vec<&Sheet>, MappingError>)
        ensures
            sheets is Ok <==> second_word(gym.name@) is Some,
            sheets is Ok ==> pointed_to(sheets->Ok_0@) == gym_sheets_spec(
                self.spreadsheet_spec(),
                second_word(gym.name@)->0,
            ),
            sheets is Err ==> sheets->Err_0 == MappingError::MissingLocation,
    {
        let location = parse_location_from_gym_name(gym.name.as_str())?;
        let mut found: Vec<&Sheet> = Vec::new();
        let ghost belongs = |sheet: Sheet| belongs_to(sheet, location@);
        if let Some(sheets) = &self.spreadsheet.sheets {
            let mut i: usize = 0;
            proof {
                reveal(Seq::filter);
                assert(sheets@.take(0) =~= Seq::<Sheet>::empty());
            }
            while i < sheets.len()
                invariant
                    i <= sheets.len(),
                    belongs == |sheet: Sheet| belongs_to(sheet, location@),
                    pointed_to(found@) == sheets@.take(i as int).filter(belongs),
                decreases sheets.len() - i,
            {
                let sheet = &sheets[i];
                let matches = match sheet.title() {
                    Ok(title) => has_prefix(title, location),
                    Err(_) => false,
                };
                proof {
                    reveal(Seq::filter);
                    assert(sheets@.take(i + 1).drop_last() =~= sheets@.take(i as int));
                    assert(sheets@.take(i + 1).last() == *sheet);
                    assert(matches == belongs(*sheet));
                }
                if matches {
                    found.push(sheet);
                    assert(pointed_to(found@) =~= sheets@.take(i as int).filter(belongs).push(
                        *sheet,
                    ));
                }
                i += 1;
            }
            assert(sheets@.take(i as int) =~= sheets@);
        } else {
            assert(pointed_to(found@) =~= Seq::<Sheet>::empty());
        }
        Ok(found)
    }

    /// Finds the sheet for the climbs of one wall category of a gym. For the
    /// gym `Kiipeilyareena Ristikko` and the category `gym_bouldering` it
    /// is the sheet `Ristikko - Boulderit`.
    pub fn get_sheet_for_gym_name_and_wall_category(
        &self,
        gym_name: &str,
        wall_category: &str,
    ) -> (sheet: Result<(String, i32), MappingError>)
        ensures
            sheet is Ok <==> sheet_for_spec(self.spreadsheet_spec(), gym_name@, wall_category@)
                is Ok,
            sheet is Ok ==> sheet->Ok_0.0@ == sheet_for_spec(
                self.spreadsheet_spec(),
                gym_name@,
                wall_category@,
            )->Ok_0.0 && sheet->Ok_0.1 == sheet_for_spec(
                self.spreadsheet_spec(),
                gym_name@,
                wall_category@,
            )->Ok_0.1,
            sheet is Err ==> sheet->Err_0 == sheet_for_spec(
                self.spreadsheet_spec(),
                gym_name@,
                wall_category@,
            )->Err_0,
    {
        if self.spreadsheet.sheets.is_none() {
            return Err(MappingError::MissingSheetList);
        }
        let location = parse_location_from_gym_name(gym_name)?;
        let plural = wall_category_to_plural_human_type(wall_category)?;
        let sheet_name = format_sheet_name(location, plural.as_str());
        let sheet_id_num = get_sheet_id(&self.spreadsheet, sheet_name.as_str())?;
        Ok((sheet_name, sheet_id_num))
    }

    /// The titles of the sheets that hold the routes of a gym: the sheet of
    /// the boulders, then the sheet of the routes. Both must exist.
    pub fn gym_route_sheets(&self, gym: &Gym) -> (titles: Result<Vec<String>, MappingError>)
        ensures
            titles is Ok <==> sheet_for_spec(self.spreadsheet_spec(), gym.name@, BOULDERING@)
                is Ok && sheet_for_spec(self.spreadsheet_spec(), gym.name@, SPORT_CLIMBING@)
                is Ok,
            titles is Ok ==> texts(titles->Ok_0@) == seq![
                sheet_for_spec(self.spreadsheet_spec(), gym.name@, BOULDERING@)->Ok_0.0,
                sheet_for_spec(self.spreadsheet_spec(), gym.name@, SPORT_CLIMBING@)->Ok_0.0,
            ],
            titles is Err && sheet_for_spec(self.spreadsheet_spec(), gym.name@, BOULDERING@)
                is Err ==> titles->Err_0 == sheet_for_spec(
                self.spreadsheet_spec(),
                gym.name@,
                BOULDERING@,
            )->Err_0,
            titles is Err && sheet_for_spec(self.spreadsheet_spec(), gym.name@, BOULDERING@)
                is Ok ==> titles->Err_0 == sheet_for_spec(
                self.spreadsheet_spec(),
                gym.name@,
                SPORT_CLIMBING@,
            )->Err_0,
    {
        let boulders = self.get_sheet_for_gym_name_and_wall_category(
            gym.name.as_str(),
            BOULDERING,
        )?;
        let routes = self.get_sheet_for_gym_name_and_wall_category(
            gym.name.as_str(),
            SPORT_CLIMBING,
        )?;
        let mut titles: Vec<String> = Vec::new();
        titles.push(boulders.0);
        titles.push(routes.0);
        assert(texts(titles@) =~= seq![boulders.0@, routes.0@]);
        Ok(titles)
    }

    /// The rows that the sheets of a gym hold, given what was read from
    /// each sheet: the rows below each header row, one sheet after the
    /// other.
    pub fn get_gym_routes_from_sheet(&self, sheets_rows: &Vec<Vec<Vec<String>>>) -> (routes: Result<
        Vec<ClimbSheetRow>,
        MappingError,
    >)
        ensures
            routes is Ok <==> forall|i: int|
                0 <= i < sheets_rows@.len() ==> body_is_keyed(#[trigger] tables(sheets_rows@)[i]),
            routes is Ok ==> keys_of(routes->Ok_0@) == routes_spec(tables(sheets_rows@)),
            routes is Err ==> routes->Err_0 == MappingError::MalformedRow,
    {
        let mut routes: Vec<ClimbSheetRow> = Vec::new();
        let mut i: usize = 0;
        assert(tables(sheets_rows@).take(0) =~= Seq::empty());
        while i < sheets_rows.len()
            invariant
                i <= sheets_rows.len(),
                forall|j: int| 0 <= j < i ==> body_is_keyed(#[trigger] tables(sheets_rows@)[j]),
                keys_of(routes@) == routes_spec(tables(sheets_rows@).take(i as int)),
            decreases sheets_rows.len() - i,
        {
            assert(tables(sheets_rows@)[i as int] == table(sheets_rows@[i as int]@));
            let body = body_rows(&sheets_rows[i])?;
            let ghost before = keys_of(routes@);
            let mut j: usize = 0;
            while j < body.len()
                invariant
                    j <= body.len(),
                    keys_of(routes@) == before + keys_of(body@).take(j as int),
                decreases body.len() - j,
            {
                let ghost prior = routes@;
                routes.push(copy_key(&body[j]));
                proof {
                    assert(keys_of(routes@) =~= keys_of(prior).push(body@[j as int]@));
                    assert(keys_of(body@).take(j + 1) =~= keys_of(body@).take(j as int).push(
                        body@[j as int]@,
                    ));
                }
                j += 1;
            }
            proof {
                assert(keys_of(body@).take(j as int) =~= keys_of(body@));
                let seen = tables(sheets_rows@).take(i + 1);
                assert(seen.drop_last() =~= tables(sheets_rows@).take(i as int));
                assert(seen.last() == table(sheets_rows@[i as int]@));
            }
            i += 1;
        }
        assert(tables(sheets_rows@).take(i as int) =~= tables(sheets_rows@));
        Ok(routes)
    }

    /// Begins the sync of one wall: finds the sheet of the wall, picks the
    /// climbs whose key is not among `gym_sheet_routes`, and adds the key of
    /// each of them to that set, so that no later wall of the run appends
    /// the same climb again. After an error the set is as it was.
    pub fn add_wall_to_sheet(&self, gym_sheet_routes: &mut KeySet, gym: &Gym, wall: &Wall) -> (sync:
        Result<WallSync, MappingError>)
        ensures
            sync is Ok ==> wall_sync_spec(
                self.config_spec(),
                self.spreadsheet_spec(),
                old(gym_sheet_routes)@,
                gym.name@,
                *wall,
            ) == Ok::<(WallSyncView, Set<RowKey>), MappingError>(
                (sync->Ok_0@, final(gym_sheet_routes)@),
            ),
            sync is Err ==> wall_sync_spec(
                self.config_spec(),
                self.spreadsheet_spec(),
                old(gym_sheet_routes)@,
                gym.name@,
                *wall,
            ) == Err::<(WallSyncView, Set<RowKey>), MappingError>(sync->Err_0),
            sync is Err ==> final(gym_sheet_routes)@ == old(gym_sheet_routes)@,
    {
        proof {
            use_type_invariant(self);
        }
        let (sheet_name, sheet_id_num) = self.get_sheet_for_gym_name_and_wall_category(
            gym.name.as_str(),
            wall.category.as_str(),
        )?;
        let climbs = wall.climbs();
        let ghost all = wall.climbs_spec();
        let ghost existing = gym_sheet_routes@;
        let mut keys: Vec<ClimbSheetRow> = Vec::new();
        let mut rows: Vec<Vec<String>> = Vec::new();
        let mut i: usize = 0;
        while i < climbs.len()
            invariant
                i <= climbs.len(),
                all == wall.climbs_spec(),
                *gym_sheet_routes == *old(gym_sheet_routes),
                sheet_for_spec(self.spreadsheet_spec(), gym.name@, wall.category@) is Ok,
                climbs@.len() == all.len(),
                forall|j: int| 0 <= j < climbs@.len() ==> *climbs@[j] == all[j],
                keys@.len() == i,
                rows@.len() == i,
                forall|j: int| 0 <= j < i ==> is_dated(#[trigger] all[j]),
                forall|j: int| 0 <= j < i ==> (#[trigger] keys@[j])@ == key_of_climb(all[j]),
                forall|j: int| 0 <= j < i ==> texts((#[trigger] rows@[j])@) == row_of_climb(all[j]),
            decreases climbs.len() - i,
        {
            assert(*climbs@[i as int] == all[i as int]);
            let key = ClimbSheetRow::from_climb(climbs[i])?;
            let row = climbs[i].to_sheet_row()?;
            keys.push(key);
            rows.push(row);
            i += 1;
        }
        let mut fresh_climbs: Vec<Climb> = Vec::new();
        let mut new_rows: Vec<Vec<String>> = Vec::new();
        let mut i: usize = 0;
        assert(all.skip(0) =~= all);
        while i < climbs.len()
            invariant
                i <= climbs.len(),
                climbs@.len() == all.len(),
                keys@.len() == all.len(),
                rows@.len() == all.len(),
                forall|j: int| 0 <= j < climbs@.len() ==> *climbs@[j] == all[j],
                forall|j: int| 0 <= j < all.len() ==> (#[trigger] keys@[j])@ == key_of_climb(all[j]),
                forall|j: int|
                    0 <= j < all.len() ==> texts((#[trigger] rows@[j])@) == row_of_climb(all[j]),
                new_rows@.len() == fresh_climbs@.len(),
                forall|j: int|
                    0 <= j < new_rows@.len() ==> texts((#[trigger] new_rows@[j])@) == row_of_climb(
                        fresh_climbs@[j],
                    ),
                new_climbs(existing, all) == fresh_climbs@ + new_climbs(
                    gym_sheet_routes@,
                    all.skip(i as int),
                ),
                keys_with(existing, all) == keys_with(gym_sheet_routes@, all.skip(i as int)),
            decreases climbs.len() - i,
        {
            proof {
                assert(all.skip(i as int)[0] == all[i as int]);
                assert(all.skip(i as int).drop_first() =~= all.skip(i + 1));
            }
            let ghost before = gym_sheet_routes@;
            let ghost fresh = fresh_climbs@;
            if gym_sheet_routes.contains(&keys[i]) {
                assert(before.insert(key_of_climb(all[i as int])) =~= before);
            } else {
                fresh_climbs.push(copy_climb(climbs[i]));
                new_rows.push(copy_row(&rows[i]));
                gym_sheet_routes.insert(copy_key(&keys[i]));
                assert(fresh_climbs@ + new_climbs(gym_sheet_routes@, all.skip(i + 1)) =~= fresh + (
                    seq![all[i as int]] + new_climbs(gym_sheet_routes@, all.skip(i + 1))));
            }
            i += 1;
        }
        proof {
            assert(all.skip(i as int) =~= Seq::<Climb>::empty());
            assert(fresh_climbs@ + Seq::<Climb>::empty() =~= fresh_climbs@);
            assert forall|j: int| 0 <= j < all.len() implies is_dated(#[trigger] all[j]) by {
                assert(keys@[j]@ == key_of_climb(all[j]));
            }
        }
        Ok(
            WallSync::new(
                sheet_name,
                sheet_id_num,
                self.config.climb_color_column_idx,
                self.config.date_column_idx,
                fresh_climbs,
                new_rows,
            ),
        )
    }

    /// The request that clears the highlight of a sheet: the background of
    /// its date column, below the header row.
    pub fn reset_grade_column_background(&self, sheet_id_num: i32) -> (request: RepeatCellRequest)
        ensures
            request == reset_request(self.config_spec(), sheet_id_num),
    {
        proof {
            use_type_invariant(self);
        }
        set_range_background_color(
            None,
            GridRange {
                sheet_id: sheet_id_num,
                start_row_index: Some(1),
                end_row_index: None,
                start_column_index: Some(self.config.date_column_idx),
                end_column_index: Some(self.config.date_column_idx + 1),
            },
        )
    }

    /// What highlights the new routes of one sheet of a gym, given the rows
    /// of the sheet and the current day. Routes count as new for
    /// [`NEW_ROUTE_WITHIN_DAYS`] days.
    pub fn highlight_new_routes(&self, sheet: &Sheet, rows: &Vec<Vec<String>>, today: i32) -> (highlight:
        Result<Highlight, SyncError>)
        ensures
            highlight == highlight_spec(
                self.config_spec(),
                *sheet,
                table(rows@),
                today as int,
                NEW_ROUTE_WITHIN_DAYS as int,
            ),
    {
        self.highlight_new_routes_within(sheet, rows, today, NEW_ROUTE_WITHIN_DAYS)
    }

    /// What highlights the new routes of one sheet of a gym, where routes
    /// count as new for `within_days` days.
    pub fn highlight_new_routes_within(
        &self,
        sheet: &Sheet,
        rows: &Vec<Vec<String>>,
        today: i32,
        within_days: u32,
    ) -> (highlight: Result<Highlight, SyncError>)
        ensures
            highlight == highlight_spec(
                self.config_spec(),
                *sheet,
                table(rows@),
                today as int,
                within_days as int,
            ),
    {
        if rows.len() > 0x7fff_ffff {
            return Err(SyncError::Mapping(MappingError::RowOutOfRange));
        }
        if let Err(e) = sheet.title() {
            return Err(SyncError::Mapping(e));
        }
        let body = match body_rows(rows) {
            Ok(body) => body,
            Err(e) => {
                return Err(SyncError::Mapping(e));
            },
        };
        let sheet_id_num = match sheet.id() {
            Ok(id) => id,
            Err(e) => {
                return Err(SyncError::Mapping(e));
            },
        };
        Ok(
            Highlight {
                reset: self.reset_grade_column_background(sheet_id_num),
                paint: self.paint_new_routes(sheet_id_num, &body, today, within_days),
            },
        )
    }

    fn paint_new_routes(
        &self,
        sheet_id_num: i32,
        body: &Vec<ClimbSheetRow>,
        today: i32,
        within_days: u32,
    ) -> (paint: Result<Option<RepeatCellRequest>, SyncError>)
        requires
            body@.len() < i32::MAX,
        ensures
            paint == paint_spec(
                self.config_spec(),
                sheet_id_num,
                keys_of(body@),
                today as int,
                within_days as int,
            ),
    {
        proof {
            use_type_invariant(self);
        }
        let last_new_route_idx = match find_last_new(body, today, within_days) {
            Ok(Some(found)) => found,
            Ok(None) => {
                return Ok(None);
            },
            Err(e) => {
                return Err(SyncError::Parse(e));
            },
        };
        let color = match color_from_hex(self.config.new_climb_background_color.as_str()) {
            Ok(color) => color,
            Err(e) => {
                return Err(SyncError::Mapping(e));
            },
        };
        Ok(
            Some(
                set_range_background_color(
                    Some(color),
                    GridRange {
                        sheet_id: sheet_id_num,
                        start_row_index: Some(1),
                        // The body begins below the header row, and the end is
                        // the first row that is left out.
                        end_row_index: Some(last_new_route_idx as i32 + 2),
                        start_column_index: Some(self.config.date_column_idx),
                        end_column_index: Some(self.config.date_column_idx + 1),
                    },
                ),
            ),
        )
    }
}

} // verus!
