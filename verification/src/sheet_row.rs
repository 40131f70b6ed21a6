//! Rows of a route sheet, and the key by which a climb is found again.

use vstd::prelude::*;
use vstd::string::*;
use crate::dates::{
    day_is_new, format_human_date, human_date_spec, human_day_spec, is_new_day, parse_human_date,
    today, NEW_ROUTE_WITHIN_DAYS,
};
use crate::error::{DateParseError, MappingError};
use crate::vertical_life::types::Climb;

verus! {

/// What identifies a climb on a sheet. Two climbs are the same climb when
/// the five texts are the same.
pub struct RowKey {
    pub label: Seq<char>,
    pub difficulty: Seq<char>,
    pub date: Seq<char>,
    pub setter: Seq<char>,
    pub parent: Seq<char>,
}

/// A row of a route sheet, read back or about to be written.
#[derive(Debug, Clone, PartialEq, Eq, Hash)]
pub struct ClimbSheetRow {
    pub route_card_label: String,
    pub difficulty: String,
    pub set_at_human_date: String,
    pub route_setter: String,
    pub parent_name: String,
}

impl View for ClimbSheetRow {
    type V = RowKey;

    open spec fn view(&self) -> RowKey {
        RowKey {
            label: self.route_card_label@,
            difficulty: self.difficulty@,
            date: self.set_at_human_date@,
            setter: self.route_setter@,
            parent: self.parent_name@,
        }
    }
}

/// The texts of a list of cells.
pub open spec fn texts(cells: Seq<String>) -> Seq<Seq<char>> {
    Seq::new(cells.len(), |i: int| cells[i]@)
}

/// The texts of the rows of a sheet.
pub open spec fn table(rows: Seq<Vec<String>>) -> Seq<Seq<Seq<char>>> {
    Seq::new(rows.len(), |i: int| texts(rows[i]@))
}

/// The keys of a list of rows.
pub open spec fn keys_of(rows: Seq<ClimbSheetRow>) -> Seq<RowKey> {
    Seq::new(rows.len(), |i: int| rows[i]@)
}

/// Where the first cell that is not empty stands at or after `from`, or the
/// length of the row where every cell from there on is empty.
pub open spec fn first_filled(row: Seq<Seq<char>>, from: int) -> int
    decreases row.len() - from,
{
    if from < 0 || from >= row.len() {
        row.len() as int
    } else if row[from].len() > 0 {
        from
    } else {
        first_filled(row, from + 1)
    }
}

/// The key that a row holds: the five cells that begin with the first cell
/// that is not empty. A row with fewer cells from there on holds none.
pub open spec fn key_of_row(row: Seq<Seq<char>>) -> Option<RowKey> {
    let at = first_filled(row, 0);
    if at + 5 <= row.len() {
        Some(
            RowKey {
                label: row[at],
                difficulty: row[at + 1],
                date: row[at + 2],
                setter: row[at + 3],
                parent: row[at + 4],
            },
        )
    } else {
        None
    }
}

/// The formula that shows a link to an address.
pub open spec fn link_formula(url: Seq<char>) -> Seq<char> {
    "=HYPERLINK(\""@ + url + "\"; \"\u{1F517}\")"@
}

/// The row that is written for a climb, given its date as a sheet shows it:
/// label, difficulty, date, setter, wall and link.
pub open spec fn sheet_row_spec(climb: Climb, date: Seq<char>) -> Seq<Seq<char>> {
    seq![
        climb.route_card_label@,
        climb.difficulty@,
        date,
        climb.route_setter@,
        climb.parent_name@,
        link_formula(climb.share_url@),
    ]
}

/// The key of a climb, given its date as a sheet shows it.
pub open spec fn dated_key(climb: Climb, date: Seq<char>) -> RowKey {
    RowKey {
        label: climb.route_card_label@,
        difficulty: climb.difficulty@,
        date,
        setter: climb.route_setter@,
        parent: climb.parent_name@,
    }
}

/// Whether the creation time of a climb can be written as a date.
pub open spec fn is_dated(climb: Climb) -> bool {
    human_date_spec(climb.set_at) is Some
}

/// The key of a climb whose creation time can be written as a date.
pub open spec fn key_of_climb(climb: Climb) -> RowKey {
    dated_key(climb, human_date_spec(climb.set_at)->0)
}

/// The row that is written for a climb whose creation time can be written
/// as a date.
pub open spec fn row_of_climb(climb: Climb) -> Seq<Seq<char>> {
    sheet_row_spec(climb, human_date_spec(climb.set_at)->0)
}

/// Reading back the row that was written for a climb gives the key of the
/// climb, whatever its date looks like, as long as the climb has a label.
pub proof fn lemma_key_round_trip(climb: Climb, date: Seq<char>)
    requires
        climb.route_card_label@.len() > 0,
    ensures
        key_of_row(sheet_row_spec(climb, date)) == Some(dated_key(climb, date)),
{
    let row = sheet_row_spec(climb, date);
    assert(first_filled(row, 0) == 0);
}

impl Climb {
    /// The row that is appended for the climb. A creation time beyond the
    /// calendar is refused.
    pub fn to_sheet_row(&self) -> (row: Result<Vec<String>, MappingError>)
        ensures
            row is Ok <==> is_dated(*self),
            row is Ok ==> texts(row->Ok_0@) == row_of_climb(*self),
            row is Err ==> row->Err_0 == MappingError::DateOutOfRange,
    {
        let date = format_human_date(self.set_at)?;
        let mut link = String::from_str("=HYPERLINK(\"");
        link.append(self.share_url.as_str());
        link.append("\"; \"\u{1F517}\")");
        let mut row: Vec<String> = Vec::new();
        row.push(self.route_card_label.clone());
        row.push(self.difficulty.clone());
        row.push(date);
        row.push(self.route_setter.clone());
        row.push(self.parent_name.clone());
        row.push(link);
        assert(texts(row@) =~= row_of_climb(*self));
        Ok(row)
    }
}

fn find_filled(row: &Vec<String>) -> (at: usize)
    ensures
        at == first_filled(texts(row@), 0),
        at <= row.len(),
{
    let mut i: usize = 0;
    while i < row.len() && row[i].as_str().is_empty()
        invariant
            i <= row.len(),
            first_filled(texts(row@), 0) == first_filled(texts(row@), i as int),
        decreases row.len() - i,
    {
        i += 1;
    }
    i
}

impl ClimbSheetRow {
    /// Reads a row of a sheet. Leading empty cells are passed over: a cell
    /// that holds only a background color reads as empty.
    pub fn from_row(row: &Vec<String>) -> (parsed: Result<ClimbSheetRow, MappingError>)
        ensures
            parsed is Ok <==> key_of_row(texts(row@)) is Some,
            parsed is Ok ==> parsed->Ok_0@ == key_of_row(texts(row@))->0,
            parsed is Err ==> parsed->Err_0 == MappingError::MalformedRow,
    {
        let at = find_filled(row);
        if row.len() - at < 5 {
            return Err(MappingError::MalformedRow);
        }
        Ok(
            ClimbSheetRow {
                route_card_label: row[at].clone(),
                difficulty: row[at + 1].clone(),
                set_at_human_date: row[at + 2].clone(),
                route_setter: row[at + 3].clone(),
                parent_name: row[at + 4].clone(),
            },
        )
    }

    /// The row under which a climb is found again.
    pub fn from_climb(climb: &Climb) -> (key: Result<ClimbSheetRow, MappingError>)
        ensures
            key is Ok <==> is_dated(*climb),
            key is Ok ==> key->Ok_0@ == key_of_climb(*climb),
            key is Err ==> key->Err_0 == MappingError::DateOutOfRange,
    {
        let date = format_human_date(climb.set_at)?;
        Ok(
            ClimbSheetRow {
                route_card_label: climb.route_card_label.clone(),
                difficulty: climb.difficulty.clone(),
                set_at_human_date: date,
                route_setter: climb.route_setter.clone(),
                parent_name: climb.parent_name.clone(),
            },
        )
    }

    /// Whether two rows have the same key.
    pub fn same_key(&self, other: &ClimbSheetRow) -> (same: bool)
        ensures
            same == (self@ == other@),
    {
        self.route_card_label == other.route_card_label && self.difficulty == other.difficulty
            && self.set_at_human_date == other.set_at_human_date && self.route_setter
            == other.route_setter && self.parent_name == other.parent_name
    }

    /// Whether the route of the row is new on the day `today`, where routes
    /// count as new for `within_days` days. A date cell that cannot be read
    /// is an error.
    pub fn is_new_on(&self, today: i32, within_days: u32) -> (new: Result<bool, DateParseError>)
        ensures
            new is Ok <==> human_day_spec(self@.date) is Some,
            new is Ok ==> new->Ok_0 == is_new_day(
                today as int,
                human_day_spec(self@.date)->0,
                within_days as int,
            ),
    {
        let set_on = parse_human_date(self.set_at_human_date.as_str())?;
        Ok(day_is_new(today, set_on, within_days))
    }

    /// Whether the route of the row is new today.
    pub fn is_new(&self) -> (new: Result<bool, DateParseError>)
        ensures
            new is Ok <==> human_day_spec(self@.date) is Some,
            new is Ok ==> exists|today: i32|
                new->Ok_0 == #[trigger] is_new_day(
                    today as int,
                    human_day_spec(self@.date)->0,
                    NEW_ROUTE_WITHIN_DAYS as int,
                ),
    {
        self.is_new_on(today(), NEW_ROUTE_WITHIN_DAYS)
    }
}

} // verus!
