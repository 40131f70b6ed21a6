//! What can end a run.

use vstd::prelude::*;

verus! {

/// The stage of the login handshake, or the independent refresh.
#[derive(Clone, Copy, Debug, PartialEq, Eq, Structural)]
pub enum AuthStep {
    Authorize,
    ScrapeForm,
    Authenticate,
    IssueToken,
    Refresh,
}

/// Why a stage of the login handshake failed.
#[derive(Clone, Copy, Debug, PartialEq, Eq, Structural)]
pub enum AuthCause {
    /// The request could not be made or its response could not be read.
    Network,
    /// The login page holds no login form with a submission target.
    MissingForm,
    /// The login response has no usable redirect header.
    MissingRedirect,
    /// The redirect target has no `code` query parameter.
    MissingCode,
    /// The token response is not the expected JSON.
    MalformedToken,
    /// An event arrived that the current stage does not wait for.
    OutOfOrder,
}

/// A failed login or refresh. Never retried.
#[derive(Clone, Copy, Debug, PartialEq, Eq, Structural)]
pub struct AuthError {
    pub step: AuthStep,
    pub cause: AuthCause,
}

/// A response with an error status that is not answered by a retry.
#[derive(Clone, Copy, Debug, PartialEq, Eq, Structural)]
pub struct TransportError {
    /// The status of the last response.
    pub status: u16,
    /// How many times the request was sent.
    pub attempts: u8,
}

/// Data from the vendor or the spreadsheet that does not have the expected shape.
#[derive(Clone, Copy, Debug, PartialEq, Eq, Structural)]
pub enum MappingError {
    /// A wall category other than the two recognized codes.
    UnknownWallCategory,
    /// A gym name of fewer than two words.
    MissingLocation,
    /// The spreadsheet came without its list of sheets.
    MissingSheetList,
    /// A sheet came without its properties.
    MissingSheetProperties,
    /// A sheet came without a title.
    MissingSheetTitle,
    /// A sheet came without its numeric id.
    MissingSheetId,
    /// No sheet has the wanted title.
    MissingSheet,
    /// A row with fewer than five cells after its leading empty cells.
    MalformedRow,
    /// An append response without a range, or with one that names no row.
    UnparseableRange,
    /// A color that is not a leading character and three pairs of
    /// hexadecimal digits.
    MalformedColor,
    /// A column index whose successor does not fit the index type.
    ColumnOutOfRange,
    /// A row index whose successor does not fit the index type.
    RowOutOfRange,
    /// A creation time outside the calendar's range.
    DateOutOfRange,
}

/// A date cell that is not a day, a month and a year separated by dots.
#[derive(Clone, Copy, Debug, PartialEq, Eq, Structural)]
pub struct DateParseError;

/// Any failure of a run. Each one is fatal.
#[derive(Clone, Copy, Debug, PartialEq, Eq, Structural)]
pub enum SyncError {
    Auth(AuthError),
    Transport(TransportError),
    Mapping(MappingError),
    Parse(DateParseError),
}

} // verus!
