//! Reconciles climbing routes of a gym chain into a spreadsheet route board.
//!
//! The library holds the decisions of a run: which climbs are new, which
//! requests a sheet needs, how a login proceeds and when a request is retried.
//! Network traffic is left to the caller, who performs the requests that the
//! library describes and hands back what came of them.

pub mod climb_sheet;
pub mod config;
pub mod dates;
pub mod error;
pub mod key_set;
pub mod sheet_row;
pub mod sheet_util;
pub mod sheets;
pub mod text;
pub mod vertical_life;
pub mod wall_sync;
