//! The errors of the reservation lifecycle, and the classification of
//! what the storage engine reports.

use vstd::prelude::*;
use crate::conflict::{conflict_info_of, ConflictInfoView, ReservationConflictInfo};

verus! {

/// What the storage engine tells of a statement that it refused: the
/// class code of the error, its message, and, where the engine names
/// them, the schema, the table and a detail in free text.
#[derive(Debug)]
pub struct Diagnostic {
    pub code: String,
    pub message: String,
    pub schema: Option<String>,
    pub table: Option<String>,
    pub detail: Option<String>,
}

/// The ways in which a round trip to storage fails.
#[derive(Debug)]
pub enum StorageFailure {
    /// The statement ran and no row met its condition.
    RowNotFound,
    /// The engine refused the statement.
    Database(Diagnostic),
    /// Anything else, with its description.
    Other(String),
}

/// The errors of the reservation lifecycle.
#[derive(Debug)]
pub enum Error {
    /// Storage failed in a way that is not classified further.
    DbError(StorageFailure),
    /// A bound of the interval is missing, or the start is not before the end.
    InvalidTime,
    /// The interval overlaps a reservation that holds the resource.
    ConflictReservation(ReservationConflictInfo),
    /// No reservation meets the condition.
    NotFound,
    /// The reservation identifier is malformed.
    InvalidReservationId(String),
    /// The user identifier is empty.
    InvalidUserId(String),
    /// The resource identifier is empty.
    InvalidResourceId(String),
    /// An error of no known class.
    Unknown,
}

/// The mathematical value of a `Diagnostic`.
pub struct DiagnosticView {
    pub code: Seq<char>,
    pub message: Seq<char>,
    pub schema: Option<Seq<char>>,
    pub table: Option<Seq<char>>,
    pub detail: Option<Seq<char>>,
}

/// The mathematical value of a `StorageFailure`.
pub enum FaultView {
    RowNotFound,
    Database(DiagnosticView),
    Other(Seq<char>),
}

/// The mathematical value of an `Error`.
pub enum ErrorView {
    DbError(FaultView),
    InvalidTime,
    ConflictReservation(ConflictInfoView),
    NotFound,
    InvalidReservationId(Seq<char>),
    InvalidUserId(Seq<char>),
    InvalidResourceId(Seq<char>),
    Unknown,
}

/// The characters of a text that may be absent.
pub open spec fn text_view(text: Option<String>) -> Option<Seq<char>> {
    match text {
        Some(text) => Some(text@),
        None => None,
    }
}

impl View for Diagnostic {
    type V = DiagnosticView;

    open spec fn view(&self) -> DiagnosticView {
        DiagnosticView {
            code: self.code@,
            message: self.message@,
            schema: text_view(self.schema),
            table: text_view(self.table),
            detail: text_view(self.detail),
        }
    }
}

impl View for StorageFailure {
    type V = FaultView;

    open spec fn view(&self) -> FaultView {
        match self {
            StorageFailure::RowNotFound => FaultView::RowNotFound,
            StorageFailure::Database(diagnostic) => FaultView::Database(diagnostic@),
            StorageFailure::Other(description) => FaultView::Other(description@),
        }
    }
}

impl View for Error {
    type V = ErrorView;

    open spec fn view(&self) -> ErrorView {
        match self {
            Error::DbError(failure) => ErrorView::DbError(failure@),
            Error::InvalidTime => ErrorView::InvalidTime,
            Error::ConflictReservation(info) => ErrorView::ConflictReservation(info@),
            Error::NotFound => ErrorView::NotFound,
            Error::InvalidReservationId(id) => ErrorView::InvalidReservationId(id@),
            Error::InvalidUserId(id) => ErrorView::InvalidUserId(id@),
            Error::InvalidResourceId(id) => ErrorView::InvalidResourceId(id@),
            Error::Unknown => ErrorView::Unknown,
        }
    }
}

impl DiagnosticView {
    /// The signature by which the storage engine reports that an interval
    /// overlaps one that holds the resource: the class code of an
    /// exclusion violation, on the table of reservations.
    pub open spec fn is_exclusion_violation(self) -> bool {
        &&& self.code == "23P01"@
        &&& self.schema == Some("rsvp"@)
        &&& self.table == Some("reservations"@)
    }

    /// The detail of the diagnostic, empty where the engine gave none.
    pub open spec fn detail_text(self) -> Seq<char> {
        match self.detail {
            Some(detail) => detail,
            None => Seq::empty(),
        }
    }
}

impl FaultView {
    /// The error that a storage failure amounts to. An exclusion violation
    /// on the table of reservations is a conflict, described by what the
    /// detail of the diagnostic tells. A statement that met no row found
    /// nothing. Every other failure is handed on as it is.
    pub open spec fn classify(self) -> ErrorView {
        match self {
            FaultView::Database(diagnostic) => if diagnostic.is_exclusion_violation() {
                ErrorView::ConflictReservation(conflict_info_of(diagnostic.detail_text()))
            } else {
                ErrorView::DbError(self)
            },
            FaultView::RowNotFound => ErrorView::NotFound,
            FaultView::Other(_) => ErrorView::DbError(self),
        }
    }
}

impl ErrorView {
    /// Two errors are alike when they are of the same class and carry the
    /// same value. Of two storage errors only the class is compared.
    pub open spec fn alike(self, other: ErrorView) -> bool {
        match (self, other) {
            (ErrorView::DbError(_), ErrorView::DbError(_)) => true,
            _ => self == other,
        }
    }
}

/// Whether a text is the given word.
fn is_word(text: &String, word: &str) -> (r: bool)
    ensures
        r == (text@ == word@),
{
    *text == word.to_owned()
}

/// Whether a text is present and is the given word.
fn holds_word(text: &Option<String>, word: &str) -> (r: bool)
    ensures
        r == (text_view(*text) == Some(word@)),
{
    match text {
        Some(text) => is_word(text, word),
        None => false,
    }
}

impl Diagnostic {
    /// Decides `is_exclusion_violation`.
    pub fn is_exclusion_violation(&self) -> (r: bool)
        ensures
            r == self@.is_exclusion_violation(),
    {
        is_word(&self.code, "23P01") && holds_word(&self.schema, "rsvp") && holds_word(
            &self.table,
            "reservations",
        )
    }
}

impl From<StorageFailure> for Error {
    /// Classifies a storage failure.
    fn from(failure: StorageFailure) -> (r: Error)
        ensures
            r@ == failure@.classify(),
    {
        match failure {
            StorageFailure::Database(diagnostic) => {
                if diagnostic.is_exclusion_violation() {
                    let info = match &diagnostic.detail {
                        Some(detail) => ReservationConflictInfo::parse(detail.as_str()),
                        None => ReservationConflictInfo::parse(String::new().as_str()),
                    };
                    Error::ConflictReservation(info)
                } else {
                    Error::DbError(StorageFailure::Database(diagnostic))
                }
            },
            StorageFailure::RowNotFound => Error::NotFound,
            StorageFailure::Other(description) => Error::DbError(
                StorageFailure::Other(description),
            ),
        }
    }
}

/// The conversion is stated over views, in the `ensures` of `from`; no
/// `Error` is named for it here.
impl vstd::std_specs::convert::FromSpecImpl<StorageFailure> for Error {
    open spec fn obeys_from_spec() -> bool {
        false
    }

    open spec fn from_spec(failure: StorageFailure) -> Error {
        arbitrary()
    }
}

impl PartialEq for Error {
    fn eq(&self, other: &Self) -> (r: bool) {
        match (self, other) {
            (Error::DbError(_), Error::DbError(_)) => true,
            (Error::InvalidTime, Error::InvalidTime) => true,
            (Error::ConflictReservation(mine), Error::ConflictReservation(theirs)) => *mine
                == *theirs,
            (Error::NotFound, Error::NotFound) => true,
            (Error::InvalidReservationId(mine), Error::InvalidReservationId(theirs)) => *mine
                == *theirs,
            (Error::InvalidUserId(mine), Error::InvalidUserId(theirs)) => *mine == *theirs,
            (Error::InvalidResourceId(mine), Error::InvalidResourceId(theirs)) => *mine
                == *theirs,
            (Error::Unknown, Error::Unknown) => true,
            _ => false,
        }
    }
}

impl vstd::std_specs::cmp::PartialEqSpecImpl for Error {
    open spec fn obeys_eq_spec() -> bool {
        true
    }

    open spec fn eq_spec(&self, other: &Self) -> bool {
        self@.alike(other@)
    }
}

} // verus!
