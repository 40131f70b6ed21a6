//! The sync of one wall, step by step.
//!
//! The caller performs each action and asks for the next one. Every new
//! climb is appended, left to settle and colored, in the order of the wall;
//! then the sheet is sorted.

use vstd::prelude::*;
use vstd::string::*;
use crate::error::MappingError;
use crate::sheet_row::{row_of_climb, texts};
use crate::sheets::{
    append_row, body_range, cell_background_spec, get_updated_row_from_update_values_response,
    set_cell_background_color, sort_sheet_by_column, updated_row_spec, AppendRowRequest,
    AppendValuesResponse, RepeatCellRequest, SortRangeRequest,
};
use crate::vertical_life::types::Climb;

verus! {

/// What a sync is waiting for.
#[derive(Debug, Clone, Copy, PartialEq, Eq, Structural)]
pub enum SyncStage {
    /// Nothing was asked for yet.
    Start,
    /// A row is being appended.
    Appending,
    /// The appended row is settling: the backend may take a moment to show it.
    Settling,
    /// The color cell of the appended row is being filled.
    Coloring,
    /// The sheet is being sorted.
    Sorting,
    /// Nothing is left to do.
    Finished,
}

/// What the caller is to do next.
#[derive(Debug, Clone, PartialEq, Eq)]
pub enum SheetAction {
    /// Append a row, and hand the response to the next step.
    AppendRow(AppendRowRequest),
    /// Wait until the appended row can be seen.
    Settle,
    /// Set the background of a range.
    Format(RepeatCellRequest),
    /// Sort a range.
    Sort(SortRangeRequest),
    /// The sync is over.
    Finished,
}

/// An action, with texts in place of strings.
pub enum ActionView {
    AppendRow { sheet_name: Seq<char>, row: Seq<Seq<char>> },
    Settle,
    Format(RepeatCellRequest),
    Sort(SortRangeRequest),
    Finished,
}

impl View for SheetAction {
    type V = ActionView;

    open spec fn view(&self) -> ActionView {
        match *self {
            SheetAction::AppendRow(request) => ActionView::AppendRow {
                sheet_name: request.sheet_name@,
                row: texts(request.row@),
            },
            SheetAction::Settle => ActionView::Settle,
            SheetAction::Format(request) => ActionView::Format(request),
            SheetAction::Sort(request) => ActionView::Sort(request),
            SheetAction::Finished => ActionView::Finished,
        }
    }
}

/// A sync, with texts in place of strings.
pub struct WallSyncView {
    pub sheet_name: Seq<char>,
    pub sheet_id_num: i32,
    pub climb_color_column_idx: i32,
    pub date_column_idx: i32,
    /// The climbs to append, in their order.
    pub new_climbs: Seq<Climb>,
    /// How many of them were appended and colored.
    pub done: int,
    pub stage: SyncStage,
    /// The row, counted from 0, on which the last appended row landed.
    pub landed_row: i32,
}

/// The sync of one wall: the climbs to append, and how far the sync has come.
pub struct WallSync {
    sheet_name: String,
    sheet_id_num: i32,
    climb_color_column_idx: i32,
    date_column_idx: i32,
    new_climbs: Vec<Climb>,
    rows: Vec<Vec<String>>,
    done: usize,
    stage: SyncStage,
    landed_row: i32,
}

/// The action that begins the work on the climb at `next`, or the sort
/// where no climb is left, and the stage that waits for it.
pub open spec fn begin_climb(sync: WallSyncView, next: int) -> (WallSyncView, ActionView) {
    if 0 <= next < sync.new_climbs.len() {
        (
            WallSyncView { done: next, stage: SyncStage::Appending, ..sync },
            ActionView::AppendRow {
                sheet_name: sync.sheet_name,
                row: row_of_climb(sync.new_climbs[next]),
            },
        )
    } else {
        (
            WallSyncView { done: next, stage: SyncStage::Sorting, ..sync },
            ActionView::Sort(
                SortRangeRequest {
                    range: body_range(sync.sheet_id_num),
                    dimension_index: sync.date_column_idx,
                    descending: true,
                },
            ),
        )
    }
}

/// One step of a sync: the caller has done what the last step asked for,
/// and `response` is what an append returned. The result is the sync after
/// the step and the next action. After an error the sync is as it was.
///
/// From the start, and after a climb was colored, the next climb is
/// appended, or the sheet is sorted when none is left. After an append the
/// landed row is read from the response and the row is left to settle.
/// After that its color cell is filled with the color of the climb. After
/// the sort the sync is finished.
pub open spec fn step_spec(sync: WallSyncView, response: Option<AppendValuesResponse>) -> (
    WallSyncView,
    Result<ActionView, MappingError>,
) {
    match sync.stage {
        SyncStage::Start => (
            begin_climb(sync, sync.done).0,
            Ok(begin_climb(sync, sync.done).1),
        ),
        SyncStage::Appending => match response {
            None => (sync, Err(MappingError::UnparseableRange)),
            Some(response) => match updated_row_spec(response) {
                Err(e) => (sync, Err(e)),
                Ok(row) => (
                    WallSyncView { stage: SyncStage::Settling, landed_row: row, ..sync },
                    Ok(ActionView::Settle),
                ),
            },
        },
        SyncStage::Settling => match cell_background_spec(
            sync.sheet_id_num,
            sync.new_climbs[sync.done].color@,
            sync.landed_row,
            sync.climb_color_column_idx,
        ) {
            Err(e) => (sync, Err(e)),
            Ok(request) => (
                WallSyncView { stage: SyncStage::Coloring, ..sync },
                Ok(ActionView::Format(request)),
            ),
        },
        SyncStage::Coloring => (
            begin_climb(sync, sync.done + 1).0,
            Ok(begin_climb(sync, sync.done + 1).1),
        ),
        SyncStage::Sorting => (
            WallSyncView { stage: SyncStage::Finished, ..sync },
            Ok(ActionView::Finished),
        ),
        SyncStage::Finished => (sync, Ok(ActionView::Finished)),
    }
}

/// The view of the result of a step.
pub open spec fn action_view(action: Result<SheetAction, MappingError>) -> Result<
    ActionView,
    MappingError,
> {
    match action {
        Ok(action) => Ok(action@),
        Err(e) => Err(e),
    }
}

/// The view of an optional response.
pub open spec fn response_view(response: Option<&AppendValuesResponse>) -> Option<
    AppendValuesResponse,
> {
    match response {
        Some(response) => Some(*response),
        None => None,
    }
}

/// A copy of a row.
pub fn copy_row(row: &Vec<String>) -> (copy: Vec<String>)
    ensures
        texts(copy@) == texts(row@),
{
    let mut copy: Vec<String> = Vec::new();
    let mut i: usize = 0;
    while i < row.len()
        invariant
            i <= row.len(),
            copy@.len() == i,
            forall|j: int| 0 <= j < i ==> copy@[j]@ == row@[j]@,
        decreases row.len() - i,
    {
        copy.push(row[i].clone());
        i += 1;
    }
    assert(texts(copy@) =~= texts(row@));
    copy
}

impl View for WallSync {
    type V = WallSyncView;

    closed spec fn view(&self) -> WallSyncView {
        WallSyncView {
            sheet_name: self.sheet_name@,
            sheet_id_num: self.sheet_id_num,
            climb_color_column_idx: self.climb_color_column_idx,
            date_column_idx: self.date_column_idx,
            new_climbs: self.new_climbs@,
            done: self.done as int,
            stage: self.stage,
            landed_row: self.landed_row,
        }
    }
}

impl WallSync {
    #[verifier::type_invariant]
    spec fn well_formed(&self) -> bool {
        &&& self.rows@.len() == self.new_climbs@.len()
        &&& (forall|i: int|
            0 <= i < self.rows@.len() ==> texts((#[trigger] self.rows@[i])@) == row_of_climb(
                self.new_climbs@[i],
            ))
        &&& self.done <= self.new_climbs@.len()
        &&& (self.stage == SyncStage::Appending || self.stage == SyncStage::Settling || self.stage
            == SyncStage::Coloring) ==> self.done < self.new_climbs@.len()
    }

    /// A sync that has not begun. `rows` holds the row of each climb.
    pub(crate) fn new(
        sheet_name: String,
        sheet_id_num: i32,
        climb_color_column_idx: i32,
        date_column_idx: i32,
        new_climbs: Vec<Climb>,
        rows: Vec<Vec<String>>,
    ) -> (sync: WallSync)
        requires
            rows@.len() == new_climbs@.len(),
            forall|i: int|
                0 <= i < rows@.len() ==> texts((#[trigger] rows@[i])@) == row_of_climb(
                    new_climbs@[i],
                ),
        ensures
            sync@ == (WallSyncView {
                sheet_name: sheet_name@,
                sheet_id_num,
                climb_color_column_idx,
                date_column_idx,
                new_climbs: new_climbs@,
                done: 0,
                stage: SyncStage::Start,
                landed_row: 0,
            }),
    {
        WallSync {
            sheet_name,
            sheet_id_num,
            climb_color_column_idx,
            date_column_idx,
            new_climbs,
            rows,
            done: 0,
            stage: SyncStage::Start,
            landed_row: 0,
        }
    }

    /// The climbs that the sync appends.
    pub fn new_climbs(&self) -> (climbs: &Vec<Climb>)
        ensures
            climbs@ == self@.new_climbs,
    {
        &self.new_climbs
    }

    /// What the sync is waiting for.
    pub fn stage(&self) -> (stage: SyncStage)
        ensures
            stage == self@.stage,
    {
        self.stage
    }

    fn begin(&mut self, next: usize) -> (action: SheetAction)
        requires
            next <= old(self).new_climbs@.len(),
            old(self).stage == SyncStage::Start || old(self).stage == SyncStage::Coloring,
        ensures
            (final(self)@, action@) == begin_climb(old(self)@, next as int),
    {
        proof {
            use_type_invariant(&*self);
        }
        if next < self.new_climbs.len() {
            let row = copy_row(&self.rows[next]);
            self.done = next;
            self.stage = SyncStage::Appending;
            SheetAction::AppendRow(append_row(self.sheet_name.as_str(), row))
        } else {
            self.stage = SyncStage::Sorting;
            self.done = next;
            SheetAction::Sort(sort_sheet_by_column(self.sheet_id_num, self.date_column_idx))
        }
    }

    /// Takes one step: `response` is what the append returned, where the
    /// last action was one. Returns what to do next.
    pub fn step(&mut self, response: Option<&AppendValuesResponse>) -> (action: Result<
        SheetAction,
        MappingError,
    >)
        ensures
            (final(self)@, action_view(action)) == step_spec(old(self)@, response_view(response)),
    {
        proof {
            use_type_invariant(&*self);
        }
        match self.stage {
            SyncStage::Start => {
                let next = self.done;
                Ok(self.begin(next))
            },
            SyncStage::Appending => match response {
                None => Err(MappingError::UnparseableRange),
                Some(response) => {
                    let row = get_updated_row_from_update_values_response(response)?;
                    self.landed_row = row;
                    self.stage = SyncStage::Settling;
                    Ok(SheetAction::Settle)
                },
            },
            SyncStage::Settling => {
                let request = set_cell_background_color(
                    self.sheet_id_num,
                    self.new_climbs[self.done].color.as_str(),
                    self.landed_row,
                    self.climb_color_column_idx,
                )?;
                self.stage = SyncStage::Coloring;
                Ok(SheetAction::Format(request))
            },
            SyncStage::Coloring => {
                assert(self.done < self.new_climbs.len());
                let next = self.done + 1;
                Ok(self.begin(next))
            },
            SyncStage::Sorting => {
                self.stage = SyncStage::Finished;
                Ok(SheetAction::Finished)
            },
            SyncStage::Finished => Ok(SheetAction::Finished),
        }
    }
}

/// Every new climb is appended, left to settle and colored, in this order:
/// from the start, or once the climb before it was colored, three steps ask
/// for the row of the climb to be appended, for the row to settle, and for
/// the color cell of the landed row to be filled with the color of the
/// climb. The append must have reported a range that can be read, and the
/// color of the climb must be well formed.
pub proof fn lemma_climb_is_appended_settled_and_colored(
    sync: WallSyncView,
    next: int,
    response: AppendValuesResponse,
)
    requires
        0 <= next < sync.new_climbs.len(),
        (sync.stage == SyncStage::Start && next == sync.done) || (sync.stage == SyncStage::Coloring
            && next == sync.done + 1),
        updated_row_spec(response) is Ok,
        cell_background_spec(
            sync.sheet_id_num,
            sync.new_climbs[next].color@,
            updated_row_spec(response)->Ok_0,
            sync.climb_color_column_idx,
        ) is Ok,
    ensures
        ({
            let appending = step_spec(sync, None);
            let settling = step_spec(appending.0, Some(response));
            let coloring = step_spec(settling.0, None);
            &&& appending.1 == Ok::<ActionView, MappingError>(
                ActionView::AppendRow {
                    sheet_name: sync.sheet_name,
                    row: row_of_climb(sync.new_climbs[next]),
                },
            )
            &&& settling.1 == Ok::<ActionView, MappingError>(ActionView::Settle)
            &&& coloring.1 == Ok::<ActionView, MappingError>(
                ActionView::Format(
                    cell_background_spec(
                        sync.sheet_id_num,
                        sync.new_climbs[next].color@,
                        updated_row_spec(response)->Ok_0,
                        sync.climb_color_column_idx,
                    )->Ok_0,
                ),
            )
            &&& coloring.0 == (WallSyncView {
                done: next,
                stage: SyncStage::Coloring,
                landed_row: updated_row_spec(response)->Ok_0,
                ..sync
            })
        }),
{
}

/// A color cell is filled only after the appended row was left to settle,
/// and a row is left to settle only after it was appended.
pub proof fn lemma_fill_follows_settling(sync: WallSyncView, response: Option<AppendValuesResponse>)
    ensures
        step_spec(sync, response).1 is Ok && step_spec(sync, response).1->Ok_0 is Format
            ==> sync.stage == SyncStage::Settling,
        step_spec(sync, response).1 is Ok && step_spec(sync, response).1->Ok_0 is Settle
            ==> sync.stage == SyncStage::Appending,
{
}

/// Once the last climb was colored, or at once where no climb is new, the
/// body of the sheet is sorted by the date column, latest first, and the
/// sync is over.
pub proof fn lemma_sort_comes_last(sync: WallSyncView)
    requires
        (sync.stage == SyncStage::Start && sync.done == sync.new_climbs.len()) || (sync.stage
            == SyncStage::Coloring && sync.done + 1 == sync.new_climbs.len()),
    ensures
        step_spec(sync, None).1 == Ok::<ActionView, MappingError>(
            ActionView::Sort(
                SortRangeRequest {
                    range: body_range(sync.sheet_id_num),
                    dimension_index: sync.date_column_idx,
                    descending: true,
                },
            ),
        ),
        step_spec(step_spec(sync, None).0, None).1 == Ok::<ActionView, MappingError>(
            ActionView::Finished,
        ),
        step_spec(step_spec(sync, None).0, None).0.stage == SyncStage::Finished,
{
}

} // verus!
