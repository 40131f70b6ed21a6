//! The spreadsheet as the sync sees it: its sheets, and the requests that
//! change them.

use vstd::prelude::*;
use vstd::string::*;
use crate::error::MappingError;
use crate::text::{chars_of, decimal_value, is_decimal, parse_decimal, same_text};

verus! {

/// What a sheet is known by.
#[derive(Debug, Clone, PartialEq, Eq)]
pub struct SheetProperties {
    pub title: Option<String>,
    pub sheet_id: Option<i32>,
}

/// One sheet of a spreadsheet, as the backend lists it.
#[derive(Debug, Clone, PartialEq, Eq)]
pub struct Sheet {
    pub properties: Option<SheetProperties>,
}

/// The sheets of a spreadsheet, in their order.
#[derive(Debug, Clone, PartialEq, Eq)]
pub struct Spreadsheet {
    pub sheets: Option<Vec<Sheet>>,
}

/// A color, each part from 0 to 255.
#[derive(Debug, Clone, Copy, PartialEq, Eq, Structural)]
pub struct Color {
    pub red: u8,
    pub green: u8,
    pub blue: u8,
}

/// A rectangle of cells. An index that is absent leaves that side open.
/// Rows and columns count from 0; an end is the first index outside.
#[derive(Debug, Clone, Copy, PartialEq, Eq, Structural)]
pub struct GridRange {
    pub sheet_id: i32,
    pub start_row_index: Option<i32>,
    pub end_row_index: Option<i32>,
    pub start_column_index: Option<i32>,
    pub end_column_index: Option<i32>,
}

/// Gives every cell of a range one format: the background color, or the
/// default format where there is none.
#[derive(Debug, Clone, Copy, PartialEq, Eq, Structural)]
pub struct RepeatCellRequest {
    pub range: GridRange,
    pub background_color: Option<Color>,
}

/// Sorts the rows of a range by one column.
#[derive(Debug, Clone, Copy, PartialEq, Eq, Structural)]
pub struct SortRangeRequest {
    pub range: GridRange,
    pub dimension_index: i32,
    pub descending: bool,
}

/// Appends one row below the last row of a sheet, as if a user had entered it.
#[derive(Debug, Clone, PartialEq, Eq)]
pub struct AppendRowRequest {
    pub sheet_name: String,
    pub row: Vec<String>,
}

/// What the backend reports of the cells that a request wrote.
#[derive(Debug, Clone, PartialEq, Eq)]
pub struct UpdateValuesResponse {
    /// The range that was written, as `'<sheet title>'!<col><row>:<col><row>`.
    pub updated_range: Option<String>,
}

/// The backend's answer to an append.
#[derive(Debug, Clone, PartialEq, Eq)]
pub struct AppendValuesResponse {
    pub updates: Option<UpdateValuesResponse>,
}

impl Sheet {
    /// The title of the sheet, where it has one.
    pub open spec fn title_spec(&self) -> Option<Seq<char>> {
        match self.properties {
            Some(properties) => match properties.title {
                Some(title) => Some(title@),
                None => None,
            },
            None => None,
        }
    }

    /// The numeric id of the sheet, where it has one.
    pub open spec fn id_spec(&self) -> Option<i32> {
        match self.properties {
            Some(properties) => properties.sheet_id,
            None => None,
        }
    }

    /// What is wrong with a sheet that lacks a title or an id: it has no
    /// properties at all, or the properties lack `missing`.
    pub open spec fn lacks(&self, missing: MappingError) -> MappingError {
        if self.properties is None {
            MappingError::MissingSheetProperties
        } else {
            missing
        }
    }

    /// The title of the sheet.
    pub fn title(&self) -> (title: Result<&str, MappingError>)
        ensures
            title is Ok <==> self.title_spec() is Some,
            title is Ok ==> title->Ok_0@ == self.title_spec()->0,
            title is Err ==> title->Err_0 == self.lacks(MappingError::MissingSheetTitle),
    {
        match &self.properties {
            Some(properties) => match &properties.title {
                Some(title) => Ok(title.as_str()),
                None => Err(MappingError::MissingSheetTitle),
            },
            None => Err(MappingError::MissingSheetProperties),
        }
    }

    /// The numeric id of the sheet.
    pub fn id(&self) -> (id: Result<i32, MappingError>)
        ensures
            id is Ok <==> self.id_spec() is Some,
            id is Ok ==> id->Ok_0 == self.id_spec()->0,
            id is Err ==> id->Err_0 == self.lacks(MappingError::MissingSheetId),
    {
        match &self.properties {
            Some(properties) => match properties.sheet_id {
                Some(id) => Ok(id),
                None => Err(MappingError::MissingSheetId),
            },
            None => Err(MappingError::MissingSheetProperties),
        }
    }
}

/// Where the first sheet with a title stands at or after `from`. A sheet
/// without properties that comes before it is an error.
pub open spec fn find_sheet(sheets: Seq<Sheet>, title: Seq<char>, from: int) -> Result<
    int,
    MappingError,
>
    decreases sheets.len() - from,
{
    if from < 0 || from >= sheets.len() {
        Err(MappingError::MissingSheet)
    } else if sheets[from].properties is None {
        Err(MappingError::MissingSheetProperties)
    } else if sheets[from].title_spec() == Some(title) {
        Ok(from)
    } else {
        find_sheet(sheets, title, from + 1)
    }
}

/// The numeric id of the first sheet with a title.
pub open spec fn sheet_id_spec(spreadsheet: Spreadsheet, title: Seq<char>) -> Result<
    i32,
    MappingError,
> {
    match spreadsheet.sheets {
        None => Err(MappingError::MissingSheetList),
        Some(sheets) => match find_sheet(sheets@, title, 0) {
            Err(e) => Err(e),
            Ok(at) => match sheets@[at].id_spec() {
                Some(id) => Ok(id),
                None => Err(MappingError::MissingSheetId),
            },
        },
    }
}

/// Looks up the numeric id of the sheet with a title.
pub fn get_sheet_id(spreadsheet: &Spreadsheet, sheet_name: &str) -> (id: Result<i32, MappingError>)
    ensures
        id == sheet_id_spec(*spreadsheet, sheet_name@),
{
    let sheets = match &spreadsheet.sheets {
        Some(sheets) => sheets,
        None => {
            return Err(MappingError::MissingSheetList);
        },
    };
    let mut i: usize = 0;
    while i < sheets.len()
        invariant
            i <= sheets.len(),
            spreadsheet.sheets == Some(*sheets),
            find_sheet(sheets@, sheet_name@, 0) == find_sheet(sheets@, sheet_name@, i as int),
        decreases sheets.len() - i,
    {
        match &sheets[i].properties {
            None => {
                return Err(MappingError::MissingSheetProperties);
            },
            Some(properties) => {
                let found = match &properties.title {
                    Some(title) => same_text(title.as_str(), sheet_name),
                    None => false,
                };
                if found {
                    return match properties.sheet_id {
                        Some(id) => Ok(id),
                        None => Err(MappingError::MissingSheetId),
                    };
                }
            },
        }
        i += 1;
    }
    Err(MappingError::MissingSheet)
}

/// The request that appends a row to a sheet.
pub fn append_row(sheet_name: &str, row: Vec<String>) -> (request: AppendRowRequest)
    ensures
        request.sheet_name@ == sheet_name@,
        request.row == row,
{
    AppendRowRequest { sheet_name: String::from_str(sheet_name), row }
}

/// The body of a sheet: everything below the header row.
pub open spec fn body_range(sheet_id_num: i32) -> GridRange {
    GridRange {
        sheet_id: sheet_id_num,
        start_row_index: Some(1i32),
        end_row_index: None,
        start_column_index: Some(0i32),
        end_column_index: None,
    }
}

/// The request that sorts the body of a sheet by one column, largest first.
pub fn sort_sheet_by_column(sheet_id_num: i32, column_idx: i32) -> (request: SortRangeRequest)
    ensures
        request == (SortRangeRequest {
            range: body_range(sheet_id_num),
            dimension_index: column_idx,
            descending: true,
        }),
{
    SortRangeRequest {
        range: GridRange {
            sheet_id: sheet_id_num,
            start_row_index: Some(1),
            end_row_index: None,
            start_column_index: Some(0),
            end_column_index: None,
        },
        dimension_index: column_idx,
        descending: true,
    }
}

/// The request that gives a range one background color, or clears its format
/// where no color is given.
pub fn set_range_background_color(color: Option<Color>, range: GridRange) -> (request:
    RepeatCellRequest)
    ensures
        request == (RepeatCellRequest { range, background_color: color }),
{
    RepeatCellRequest { range, background_color: color }
}

/// The single cell in a row and a column of a sheet.
pub open spec fn cell_range(sheet_id_num: i32, row: i32, column: i32) -> GridRange {
    GridRange {
        sheet_id: sheet_id_num,
        start_row_index: Some(row),
        end_row_index: Some((row + 1) as i32),
        start_column_index: Some(column),
        end_column_index: Some((column + 1) as i32),
    }
}

/// One whole row of a sheet.
pub open spec fn row_range(sheet_id_num: i32, row: i32) -> GridRange {
    GridRange {
        sheet_id: sheet_id_num,
        start_row_index: Some(row),
        end_row_index: Some((row + 1) as i32),
        start_column_index: Some(0i32),
        end_column_index: None,
    }
}

/// What the request for the background of one cell is: the color must be
/// well formed, and the cell must have a successor in its row and in its
/// column. The color is looked at first, then the column, then the row.
pub open spec fn cell_background_spec(
    sheet_id_num: i32,
    hex_color: Seq<char>,
    row: i32,
    column: i32,
) -> Result<RepeatCellRequest, MappingError> {
    match color_spec(hex_color) {
        None => Err(MappingError::MalformedColor),
        Some(color) => if column == i32::MAX {
            Err(MappingError::ColumnOutOfRange)
        } else if row == i32::MAX {
            Err(MappingError::RowOutOfRange)
        } else {
            Ok(
                RepeatCellRequest {
                    range: cell_range(sheet_id_num, row, column),
                    background_color: Some(color),
                },
            )
        },
    }
}

/// The request that colors the background of one cell.
pub fn set_cell_background_color(sheet_id_num: i32, hex_color: &str, row: i32, column: i32) -> (request:
    Result<RepeatCellRequest, MappingError>)
    ensures
        request == cell_background_spec(sheet_id_num, hex_color@, row, column),
{
    let color = color_from_hex(hex_color)?;
    if column == i32::MAX {
        return Err(MappingError::ColumnOutOfRange);
    }
    if row == i32::MAX {
        return Err(MappingError::RowOutOfRange);
    }
    Ok(
        RepeatCellRequest {
            range: GridRange {
                sheet_id: sheet_id_num,
                start_row_index: Some(row),
                end_row_index: Some(row + 1),
                start_column_index: Some(column),
                end_column_index: Some(column + 1),
            },
            background_color: Some(color),
        },
    )
}

/// The request that gives one row back its default format. The last row
/// that the index type can name has no successor and is refused.
pub fn reset_row_format(sheet_id_num: i32, row: i32) -> (request: Result<
    RepeatCellRequest,
    MappingError,
>)
    ensures
        row < i32::MAX ==> request == Ok::<RepeatCellRequest, MappingError>(
            RepeatCellRequest { range: row_range(sheet_id_num, row), background_color: None },
        ),
        row == i32::MAX ==> request == Err::<RepeatCellRequest, MappingError>(
            MappingError::RowOutOfRange,
        ),
{
    if row == i32::MAX {
        return Err(MappingError::RowOutOfRange);
    }
    Ok(
        RepeatCellRequest {
            range: GridRange {
                sheet_id: sheet_id_num,
                start_row_index: Some(row),
                end_row_index: Some(row + 1),
                start_column_index: Some(0),
                end_column_index: None,
            },
            background_color: None,
        },
    )
}

/// The number that a hexadecimal digit stands for, in either case.
pub open spec fn hex_digit_value(c: char) -> Option<int> {
    if '0' <= c <= '9' {
        Some(c as int - '0' as int)
    } else if 'a' <= c <= 'f' {
        Some(c as int - 'a' as int + 10)
    } else if 'A' <= c <= 'F' {
        Some(c as int - 'A' as int + 10)
    } else {
        None
    }
}

/// The number that two characters write in base sixteen: two digits, or a
/// plus sign and one digit.
pub open spec fn hex_pair_value(high: char, low: char) -> Option<int> {
    if high == '+' {
        hex_digit_value(low)
    } else {
        match (hex_digit_value(high), hex_digit_value(low)) {
            (Some(h), Some(l)) => Some(16 * h + l),
            _ => None,
        }
    }
}

/// The color that a text names: a first character of one byte, by custom
/// `#`, then a pair of characters each for red, green and blue. What
/// follows the seventh character is not looked at.
pub open spec fn color_spec(hex: Seq<char>) -> Option<Color> {
    if hex.len() >= 7 && hex[0] <= '\u{7f}' {
        match (
            hex_pair_value(hex[1], hex[2]),
            hex_pair_value(hex[3], hex[4]),
            hex_pair_value(hex[5], hex[6]),
        ) {
            (Some(r), Some(g), Some(b)) => Some(
                Color { red: r as u8, green: g as u8, blue: b as u8 },
            ),
            _ => None,
        }
    } else {
        None
    }
}

fn hex_digit(c: char) -> (value: Option<u8>)
    ensures
        value is Some <==> hex_digit_value(c) is Some,
        value is Some ==> value->0 == hex_digit_value(c)->0 && value->0 < 16,
{
    if '0' <= c && c <= '9' {
        Some((c as u32 - '0' as u32) as u8)
    } else if 'a' <= c && c <= 'f' {
        Some((c as u32 - 'a' as u32 + 10) as u8)
    } else if 'A' <= c && c <= 'F' {
        Some((c as u32 - 'A' as u32 + 10) as u8)
    } else {
        None
    }
}

fn hex_pair(high: char, low: char) -> (value: Option<u8>)
    ensures
        value is Some <==> hex_pair_value(high, low) is Some,
        value is Some ==> value->0 == hex_pair_value(high, low)->0,
{
    let l = hex_digit(low);
    if high == '+' {
        return l;
    }
    match (hex_digit(high), l) {
        (Some(h), Some(l)) => Some(16 * h + l),
        _ => None,
    }
}

/// Reads a color such as `#ff8800`.
pub fn color_from_hex(hex: &str) -> (color: Result<Color, MappingError>)
    ensures
        color is Ok <==> color_spec(hex@) is Some,
        color is Ok ==> color->Ok_0 == color_spec(hex@)->0,
        color is Err ==> color->Err_0 == MappingError::MalformedColor,
{
    let chars = chars_of(hex);
    if chars.len() < 7 || chars[0] > '\u{7f}' {
        return Err(MappingError::MalformedColor);
    }
    match (
        hex_pair(chars[1], chars[2]),
        hex_pair(chars[3], chars[4]),
        hex_pair(chars[5], chars[6]),
    ) {
        (Some(red), Some(green), Some(blue)) => Ok(Color { red, green, blue }),
        _ => Err(MappingError::MalformedColor),
    }
}

/// The pattern of the range that an append reports:
/// `'<sheet title>'!<col><row>:<col><row>`. Its first group is the first
/// row.
pub const RANGE_PATTERN: &'static str = ".+![A-Z]+(\\d+):[A-Z]+\\d+";

/// What the `regex` crate finds for a group of a pattern at the leftmost
/// place where the pattern matches in a text; `None` where the pattern is no
/// regular expression, matches nowhere, or the group took no part in the
/// match.
pub uninterp spec fn captured_group(pattern: Seq<char>, text: Seq<char>, group: int) -> Option<
    Seq<char>,
>;

/// Calls `regex::Regex::new`, then `Regex::captures` and `Captures::get`.
/// Trusted: the result is the text of the group named by
/// [`captured_group`].
#[verifier::external_body]
fn capture_group(pattern: &str, text: &str, group: usize) -> (found: Option<String>)
    ensures
        found is Some <==> captured_group(pattern@, text@, group as int) is Some,
        found is Some ==> found->0@ == captured_group(pattern@, text@, group as int)->0,
{
    let expression = regex::Regex::new(pattern).ok()?;
    let groups = expression.captures(text)?;
    let found = groups.get(group)?;
    Some(found.as_str().to_string())
}

/// The row that a text of digits names: the number it writes in base ten,
/// where that fits the index type.
pub open spec fn row_number_spec(digits: Seq<char>) -> Result<i32, MappingError> {
    if is_decimal(digits) && decimal_value(digits) <= i32::MAX {
        Ok(decimal_value(digits) as i32)
    } else {
        Err(MappingError::UnparseableRange)
    }
}

/// The first row of a range that an append reported.
pub open spec fn row_from_range_spec(range: Seq<char>) -> Result<i32, MappingError> {
    match captured_group(RANGE_PATTERN@, range, 1) {
        Some(digits) => row_number_spec(digits),
        None => Err(MappingError::UnparseableRange),
    }
}

/// Reads a row number from its digits.
pub fn row_number(digits: &str) -> (row: Result<i32, MappingError>)
    ensures
        row == row_number_spec(digits@),
        row is Ok ==> row->Ok_0 >= 0,
{
    match parse_decimal(digits) {
        Some(row) => Ok(row),
        None => Err(MappingError::UnparseableRange),
    }
}

/// Reads the first row out of a range such as `'Ristikko - Reitit'!B12:F12`,
/// counted as the sheet counts it, from 1.
pub fn parse_row_from_range(range: &str) -> (row: Result<i32, MappingError>)
    ensures
        row == row_from_range_spec(range@),
        row is Ok ==> row->Ok_0 >= 0,
{
    match capture_group(RANGE_PATTERN, range, 1) {
        Some(digits) => row_number(digits.as_str()),
        None => Err(MappingError::UnparseableRange),
    }
}

/// The range that an append reported, where it reported one.
pub open spec fn updated_range_spec(response: AppendValuesResponse) -> Option<Seq<char>> {
    match response.updates {
        Some(updates) => match updates.updated_range {
            Some(range) => Some(range@),
            None => None,
        },
        None => None,
    }
}

/// The row on which an appended row landed, counted from 0.
pub open spec fn updated_row_spec(response: AppendValuesResponse) -> Result<i32, MappingError> {
    match updated_range_spec(response) {
        Some(range) => match row_from_range_spec(range) {
            Ok(row) => Ok((row - 1) as i32),
            Err(e) => Err(e),
        },
        None => Err(MappingError::UnparseableRange),
    }
}

/// Finds the row on which an appended row landed, counted from 0.
pub fn get_updated_row_from_update_values_response(append_values_res: &AppendValuesResponse) -> (row:
    Result<i32, MappingError>)
    ensures
        row == updated_row_spec(*append_values_res),
{
    let range = match &append_values_res.updates {
        Some(updates) => match &updates.updated_range {
            Some(range) => range,
            None => {
                return Err(MappingError::UnparseableRange);
            },
        },
        None => {
            return Err(MappingError::UnparseableRange);
        },
    };
    let row = parse_row_from_range(range.as_str())?;
    Ok(row - 1)
}

/// A sheet id that was looked up before.
#[derive(Debug, Clone, PartialEq, Eq)]
pub struct CachedSheetId {
    pub sheet_name: String,
    pub sheet_id: i32,
}

/// The sheet ids that were looked up so far, by title.
#[derive(Debug, Clone, PartialEq, Eq)]
pub struct SheetIdCache {
    pub entries: Vec<CachedSheetId>,
}

/// The ids that a list of entries remembers: a later entry replaces an
/// earlier one of the same title.
pub open spec fn cached_ids(entries: Seq<CachedSheetId>) -> Map<Seq<char>, i32>
    decreases entries.len(),
{
    if entries.len() == 0 {
        Map::empty()
    } else {
        cached_ids(entries.drop_last()).insert(
            entries.last().sheet_name@,
            entries.last().sheet_id,
        )
    }
}

impl View for SheetIdCache {
    type V = Map<Seq<char>, i32>;

    open spec fn view(&self) -> Map<Seq<char>, i32> {
        cached_ids(self.entries@)
    }
}

impl SheetIdCache {
    /// A cache that remembers nothing yet.
    pub fn new() -> (cache: SheetIdCache)
        ensures
            cache@ == Map::<Seq<char>, i32>::empty(),
    {
        SheetIdCache { entries: Vec::new() }
    }

    /// The id remembered for a title.
    pub fn get(&self, sheet_name: &str) -> (id: Option<i32>)
        ensures
            id is Some <==> self@.contains_key(sheet_name@),
            id is Some ==> id->0 == self@[sheet_name@],
    {
        let mut i: usize = self.entries.len();
        assert(self.entries@.take(i as int) =~= self.entries@);
        while i > 0
            invariant
                i <= self.entries.len(),
                self@.contains_key(sheet_name@) == cached_ids(
                    self.entries@.take(i as int),
                ).contains_key(sheet_name@),
                self@.contains_key(sheet_name@) ==> self@[sheet_name@] == cached_ids(
                    self.entries@.take(i as int),
                )[sheet_name@],
            decreases i,
        {
            i -= 1;
            assert(self.entries@.take(i + 1).drop_last() =~= self.entries@.take(i as int));
            assert(self.entries@.take(i + 1).last() == self.entries@[i as int]);
            if same_text(self.entries[i].sheet_name.as_str(), sheet_name) {
                return Some(self.entries[i].sheet_id);
            }
        }
        None
    }

    /// Remembers the id of a title, in place of what was remembered for it.
    pub fn insert(&mut self, sheet_name: &str, sheet_id: i32)
        ensures
            final(self)@ == old(self)@.insert(sheet_name@, sheet_id),
    {
        self.entries.push(CachedSheetId { sheet_name: String::from_str(sheet_name), sheet_id });
        assert(self.entries@.drop_last() =~= old(self).entries@);
    }
}

/// Looks up the numeric id of a sheet, and remembers it. A title that was
/// looked up before is answered from the cache, whatever the spreadsheet
/// holds by now; a failed lookup is not remembered.
pub fn memoized_get_sheet_id(
    cache: &mut SheetIdCache,
    spreadsheet: &Spreadsheet,
    sheet_name: &str,
) -> (id: Result<i32, MappingError>)
    ensures
        old(cache)@.contains_key(sheet_name@) ==> id == Ok::<i32, MappingError>(
            old(cache)@[sheet_name@],
        ) && final(cache)@ == old(cache)@,
        !old(cache)@.contains_key(sheet_name@) ==> id == sheet_id_spec(
            *spreadsheet,
            sheet_name@,
        ),
        !old(cache)@.contains_key(sheet_name@) && id is Ok ==> final(cache)@ == old(
            cache,
        )@.insert(sheet_name@, id->Ok_0),
        id is Err ==> final(cache)@ == old(cache)@,
{
    if let Some(id) = cache.get(sheet_name) {
        return Ok(id);
    }
    let id = get_sheet_id(spreadsheet, sheet_name)?;
    cache.insert(sheet_name, id);
    Ok(id)
}

} // verus!
