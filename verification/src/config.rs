//! The settings of a run that the sync reads.

use vstd::prelude::*;

verus! {

/// Where the routes go and how the sheets are laid out.
#[derive(Debug, Clone, PartialEq, Eq)]
pub struct Config {
    /// The id of the spreadsheet, as the address of the spreadsheet shows it.
    pub sheet_id: String,
    /// The ids of the gyms to fetch. The spreadsheet has a sheet for each
    /// kind of climb of each gym, for example `Ristikko - Reitit`.
    pub gyms: Vec<u32>,
    /// The column whose background shows the color of a climb.
    pub climb_color_column_idx: i32,
    pub grade_column_idx: i32,
    /// The column of the date, by which a sheet is sorted and in which new
    /// routes are highlighted.
    pub date_column_idx: i32,
    /// The background of the date cell of a new route, such as `#ff8800`.
    pub new_climb_background_color: String,
}

} // verus!
