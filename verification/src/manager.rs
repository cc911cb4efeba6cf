//! The reservation manager: for each operation, the statement that goes
//! to storage and the meaning of what storage replies.
//!
//! The manager holds no reservation. An operation is one round trip: the
//! manager checks the request and names the statement, the caller runs it
//! against storage, and the manager turns the reply into the result of
//! the operation. A request that fails its check names no statement, so
//! nothing is written.

use vstd::prelude::*;
use crate::error::{Error, ErrorView, FaultView, StorageFailure};
use crate::query::{QueryView, ReservationQuery};
use crate::reservation::{
    id_validity, is_timespan_of, Normalizer, Reservation, ReservationId, ReservationRow,
    ReservationView, RowView, TimeRange, Validator,
};
use crate::status::ReservationStatus;

verus! {

/// A statement for storage, with the values that it binds.
#[derive(Debug)]
#[allow(inconsistent_fields)]
pub enum Statement {
    /// Insert a reservation and return its new identifier. Storage refuses
    /// the row where its interval overlaps one that holds the resource.
    Insert {
        user_id: String,
        resource_id: String,
        timespan: TimeRange,
        note: String,
        status: ReservationStatus,
    },
    /// Make the reservation confirmed if it is pending, and return it.
    Confirm { id: ReservationId },
    /// Overwrite the note of the reservation, and return it.
    UpdateNote { id: ReservationId, note: String },
    /// Return the reservation.
    Select { id: ReservationId },
    /// Remove the reservation, and return it.
    Delete { id: ReservationId },
    /// Return one page of the reservations that match every filter.
    Query {
        user_id: Option<String>,
        resource_id: Option<String>,
        timespan: TimeRange,
        status: ReservationStatus,
        page: i32,
        desc: bool,
        page_size: i32,
    },
}

/// The mathematical value of a `Statement`.
#[allow(inconsistent_fields)]
pub enum StatementView {
    Insert {
        user_id: Seq<char>,
        resource_id: Seq<char>,
        timespan: TimeRange,
        note: Seq<char>,
        status: ReservationStatus,
    },
    Confirm { id: Seq<char> },
    UpdateNote { id: Seq<char>, note: Seq<char> },
    Select { id: Seq<char> },
    Delete { id: Seq<char> },
    Query {
        user_id: Option<Seq<char>>,
        resource_id: Option<Seq<char>>,
        timespan: TimeRange,
        status: ReservationStatus,
        page: i32,
        desc: bool,
        page_size: i32,
    },
}

impl View for Statement {
    type V = StatementView;

    open spec fn view(&self) -> StatementView {
        match self {
            Statement::Insert { user_id, resource_id, timespan, note, status } => {
                StatementView::Insert {
                    user_id: user_id@,
                    resource_id: resource_id@,
                    timespan: *timespan,
                    note: note@,
                    status: *status,
                }
            },
            Statement::Confirm { id } => StatementView::Confirm { id: id@ },
            Statement::UpdateNote { id, note } => StatementView::UpdateNote {
                id: id@,
                note: note@,
            },
            Statement::Select { id } => StatementView::Select { id: id@ },
            Statement::Delete { id } => StatementView::Delete { id: id@ },
            Statement::Query { user_id, resource_id, timespan, status, page, desc, page_size } => {
                StatementView::Query {
                    user_id: crate::error::text_view(*user_id),
                    resource_id: crate::error::text_view(*resource_id),
                    timespan: *timespan,
                    status: *status,
                    page: *page,
                    desc: *desc,
                    page_size: *page_size,
                }
            },
        }
    }
}

/// What can be written as a statement of SQL.
pub trait ToSql {
    /// The text of the statement.
    spec fn sql(&self) -> Seq<char>;

    /// Writes the statement.
    fn to_sql(&self) -> (r: String)
        ensures
            r@ == self.sql(),
    ;
}

impl ToSql for Statement {
    open spec fn sql(&self) -> Seq<char> {
        match self {
            Statement::Insert { .. } => "INSERT INTO rsvp.reservations (user_id, resource_id, timespan, note, status) VALUES ($1, $2, $3, $4, $5::rsvp.reservation_status) RETURNING id"@,
            Statement::Confirm { .. } => "UPDATE rsvp.reservations SET status = 'confirmed' WHERE id = $1 AND status = 'pending' RETURNING *"@,
            Statement::UpdateNote { .. } => "UPDATE rsvp.reservations SET note = $1 WHERE id = $2 RETURNING *"@,
            Statement::Select { .. } => "SELECT * FROM rsvp.reservations WHERE id = $1"@,
            Statement::Delete { .. } => "DELETE FROM rsvp.reservations WHERE id = $1 RETURNING *"@,
            Statement::Query { .. } => "SELECT * FROM rsvp.query($1, $2, $3, $4::rsvp.reservation_status, $5, $6, $7)"@,
        }
    }

    fn to_sql(&self) -> (r: String) {
        match self {
            Statement::Insert { .. } => "INSERT INTO rsvp.reservations (user_id, resource_id, timespan, note, status) VALUES ($1, $2, $3, $4, $5::rsvp.reservation_status) RETURNING id".to_string(),
            Statement::Confirm { .. } => "UPDATE rsvp.reservations SET status = 'confirmed' WHERE id = $1 AND status = 'pending' RETURNING *".to_string(),
            Statement::UpdateNote { .. } => "UPDATE rsvp.reservations SET note = $1 WHERE id = $2 RETURNING *".to_string(),
            Statement::Select { .. } => "SELECT * FROM rsvp.reservations WHERE id = $1".to_string(),
            Statement::Delete { .. } => "DELETE FROM rsvp.reservations WHERE id = $1 RETURNING *".to_string(),
            Statement::Query { .. } => "SELECT * FROM rsvp.query($1, $2, $3, $4::rsvp.reservation_status, $5, $6, $7)".to_string(),
        }
    }
}

/// Whether `statement` inserts the reservation `rsvp`: with its user,
/// resource and note, with its interval, and as pending, whatever status
/// the request names.
pub open spec fn inserts(rsvp: ReservationView, statement: StatementView) -> bool {
    &&& statement matches StatementView::Insert { user_id, resource_id, timespan, note, status }
    &&& user_id == rsvp.user_id
    &&& resource_id == rsvp.resource_id
    &&& note == rsvp.note
    &&& status == ReservationStatus::Pending
    &&& rsvp.start is Some
    &&& rsvp.end is Some
    &&& is_timespan_of(rsvp.start->0, rsvp.end->0, timespan)
}

/// Whether `statement` asks for what the query `query` wants: with the
/// filters of its normal form, that is with empty texts taken as no
/// filter and with `Pending` for a status code that stands for no status,
/// and with the interval of its window.
pub open spec fn asks(query: QueryView, statement: StatementView) -> bool {
    &&& statement matches StatementView::Query {
        user_id,
        resource_id,
        timespan,
        status,
        page,
        desc,
        page_size,
    }
    &&& user_id == query.normal_form().user_id
    &&& resource_id == query.normal_form().resource_id
    &&& Some(status) == ReservationStatus::of_code(query.normal_form().status)
    &&& page == query.page
    &&& desc == query.desc
    &&& page_size == query.page_size
    &&& query.start is Some
    &&& query.end is Some
    &&& is_timespan_of(query.start->0, query.end->0, timespan)
}

/// The reservation that `reserve` returns for the request `rsvp` once
/// storage has given the identifier `id`.
pub open spec fn reserved_as(rsvp: ReservationView, id: Seq<char>) -> ReservationView {
    ReservationView { id, status: ReservationStatus::Pending.code(), ..rsvp }
}

/// What `reserve` returns for the request `rsvp` when storage replies
/// `reply` to the insertion.
pub open spec fn reserve_outcome(rsvp: ReservationView, reply: Result<Seq<char>, FaultView>) -> Result<
    ReservationView,
    ErrorView,
> {
    match reply {
        Ok(id) => Ok(reserved_as(rsvp, id)),
        Err(failure) => Err(failure.classify()),
    }
}

/// What `change_status`, `update_note` and `get` return when storage
/// replies `reply`.
pub open spec fn row_outcome(reply: Result<RowView, FaultView>) -> Result<
    ReservationView,
    ErrorView,
> {
    match reply {
        Ok(row) => Ok(row.reservation()),
        Err(failure) => Err(failure.classify()),
    }
}

/// What `delete` returns when storage replies `reply`.
pub open spec fn delete_outcome(reply: Result<RowView, FaultView>) -> Result<(), ErrorView> {
    match reply {
        Ok(_) => Ok(()),
        Err(failure) => Err(failure.classify()),
    }
}

/// What `query` returns when storage replies `reply`.
pub open spec fn query_outcome(reply: Result<Seq<RowView>, FaultView>) -> Result<
    Seq<ReservationView>,
    ErrorView,
> {
    match reply {
        Ok(rows) => Ok(reservations_of(rows)),
        Err(failure) => Err(failure.classify()),
    }
}

/// The mathematical value of a reply that carries an identifier.
pub open spec fn id_reply_view(reply: Result<ReservationId, StorageFailure>) -> Result<
    Seq<char>,
    FaultView,
> {
    match reply {
        Ok(id) => Ok(id@),
        Err(failure) => Err(failure@),
    }
}

/// The mathematical value of a reply that carries a row.
pub open spec fn row_reply_view(reply: Result<ReservationRow, StorageFailure>) -> Result<
    RowView,
    FaultView,
> {
    match reply {
        Ok(row) => Ok(row@),
        Err(failure) => Err(failure@),
    }
}

/// The mathematical value of a reply that carries rows.
pub open spec fn rows_reply_view(reply: Result<Vec<ReservationRow>, StorageFailure>) -> Result<
    Seq<RowView>,
    FaultView,
> {
    match reply {
        Ok(rows) => Ok(row_views(rows@)),
        Err(failure) => Err(failure@),
    }
}

/// The reservations of a sequence of rows.
pub open spec fn reservations_of(rows: Seq<RowView>) -> Seq<ReservationView> {
    rows.map_values(|row: RowView| row.reservation())
}

/// The views of a sequence of rows.
pub open spec fn row_views(rows: Seq<ReservationRow>) -> Seq<RowView> {
    rows.map_values(|row: ReservationRow| row@)
}

/// The views of a sequence of reservations.
pub open spec fn reservation_views(rsvps: Seq<Reservation>) -> Seq<ReservationView> {
    rsvps.map_values(|rsvp: Reservation| rsvp@)
}

/// The operations on reservations. Each names the statement that storage
/// is to run for it, or refuses the request before storage is asked.
pub trait Rsvp {
    /// Starts the reservation of `rsvp`.
    ///
    /// A request without a user, without a resource or without a proper
    /// interval is refused with the error that says so, and names no
    /// statement. Every other request names the statement that inserts
    /// it.
    fn reserve(&self, rsvp: &Reservation) -> (r: Result<Statement, Error>)
        ensures
            match r {
                Ok(statement) => rsvp@.validity() is Ok && inserts(rsvp@, statement@),
                Err(e) => rsvp@.validity() == Err::<(), ErrorView>(e@),
            },
    ;

    /// Starts the confirmation of the reservation `id`. Storage confirms
    /// it only if it is pending.
    fn change_status(&self, id: ReservationId) -> (r: Result<Statement, Error>)
        ensures
            match r {
                Ok(statement) => id@.len() > 0 && statement@ == (StatementView::Confirm {
                    id: id@,
                }),
                Err(e) => id_validity(id@) == Err::<(), ErrorView>(e@),
            },
    ;

    /// Starts the overwriting of the note of the reservation `id`.
    fn update_note(&self, id: ReservationId, note: String) -> (r: Result<Statement, Error>)
        ensures
            match r {
                Ok(statement) => id@.len() > 0 && statement@ == (StatementView::UpdateNote {
                    id: id@,
                    note: note@,
                }),
                Err(e) => id_validity(id@) == Err::<(), ErrorView>(e@),
            },
    ;

    /// Starts the reading of the reservation `id`.
    fn get(&self, id: ReservationId) -> (r: Result<Statement, Error>)
        ensures
            match r {
                Ok(statement) => id@.len() > 0 && statement@ == (StatementView::Select {
                    id: id@,
                }),
                Err(e) => id_validity(id@) == Err::<(), ErrorView>(e@),
            },
    ;

    /// Starts the removal of the reservation `id`.
    fn delete(&self, id: ReservationId) -> (r: Result<Statement, Error>)
        ensures
            match r {
                Ok(statement) => id@.len() > 0 && statement@ == (StatementView::Delete {
                    id: id@,
                }),
                Err(e) => id_validity(id@) == Err::<(), ErrorView>(e@),
            },
    ;

    /// Starts a query. A query without a proper window is refused; any
    /// other is brought into its normal form and names its statement.
    fn query(&self, query: ReservationQuery) -> (r: Result<Statement, Error>)
        ensures
            match r {
                Ok(statement) => query@.validity() is Ok && asks(query@, statement@),
                Err(e) => query@.validity() == Err::<(), ErrorView>(e@),
            },
    ;
}

/// Decides what each operation on reservations sends to storage, and what
/// the reply of storage means.
#[derive(Debug)]
pub struct ReservationManager {}

impl Rsvp for ReservationManager {
    fn reserve(&self, rsvp: &Reservation) -> (r: Result<Statement, Error>) {
        match rsvp.validate() {
            Err(e) => {
                return Err(e);
            },
            Ok(_) => {},
        }
        let timespan = rsvp.get_timespan();
        Ok(
            Statement::Insert {
                user_id: rsvp.user_id.clone(),
                resource_id: rsvp.resource_id.clone(),
                timespan,
                note: rsvp.note.clone(),
                status: ReservationStatus::Pending,
            },
        )
    }

    fn change_status(&self, id: ReservationId) -> (r: Result<Statement, Error>) {
        match id.validate() {
            Err(e) => {
                return Err(e);
            },
            Ok(_) => {},
        }
        Ok(Statement::Confirm { id })
    }

    fn update_note(&self, id: ReservationId, note: String) -> (r: Result<Statement, Error>) {
        match id.validate() {
            Err(e) => {
                return Err(e);
            },
            Ok(_) => {},
        }
        Ok(Statement::UpdateNote { id, note })
    }

    fn get(&self, id: ReservationId) -> (r: Result<Statement, Error>) {
        match id.validate() {
            Err(e) => {
                return Err(e);
            },
            Ok(_) => {},
        }
        Ok(Statement::Select { id })
    }

    fn delete(&self, id: ReservationId) -> (r: Result<Statement, Error>) {
        match id.validate() {
            Err(e) => {
                return Err(e);
            },
            Ok(_) => {},
        }
        Ok(Statement::Delete { id })
    }

    fn query(&self, query: ReservationQuery) -> (r: Result<Statement, Error>) {
        let mut query = query;
        match query.normalize() {
            Err(e) => {
                return Err(e);
            },
            Ok(_) => {},
        }
        let status = match ReservationStatus::from_i32(query.status()) {
            Some(status) => status,
            None => ReservationStatus::Pending,
        };
        Ok(
            Statement::Query {
                user_id: owned(query.user_id()),
                resource_id: owned(query.resource_id()),
                timespan: query.get_timespan(),
                status,
                page: query.page(),
                desc: query.desc(),
                page_size: query.page_size(),
            },
        )
    }
}

/// A text of its own for a text that may be absent.
fn owned(text: Option<&String>) -> (r: Option<String>)
    ensures
        match text {
            Some(text) => r matches Some(copy) && copy@ == text@,
            None => r is None,
        },
{
    match text {
        Some(text) => Some(text.clone()),
        None => None,
    }
}

impl ReservationManager {
    /// A manager.
    pub fn new() -> Self {
        ReservationManager {  }
    }

    /// Ends the reservation of `rsvp` with what storage replied to the
    /// insertion: the new identifier, or a failure.
    ///
    /// With an identifier the reservation is returned, pending and under
    /// that identifier. A failure is classified: a violation of the
    /// exclusion guarantee is a conflict.
    pub fn reserved(&self, rsvp: Reservation, reply: Result<ReservationId, StorageFailure>) -> (r:
        Result<Reservation, Error>)
        ensures
            match r {
                Ok(done) => reserve_outcome(rsvp@, id_reply_view(reply)) == Ok::<
                    ReservationView,
                    ErrorView,
                >(done@),
                Err(e) => reserve_outcome(rsvp@, id_reply_view(reply)) == Err::<
                    ReservationView,
                    ErrorView,
                >(e@),
            },
    {
        match reply {
            Ok(id) => {
                let mut done = rsvp;
                done.id = id;
                done.status = ReservationStatus::Pending.as_i32();
                Ok(done)
            },
            Err(failure) => Err(Error::from(failure)),
        }
    }

    /// Ends `change_status`, `update_note` or `get` with what storage
    /// replied: the row of the reservation, or a failure.
    ///
    /// With a row its reservation is returned. A statement that met no
    /// row found nothing; every other failure is classified likewise.
    pub fn returned(&self, reply: Result<ReservationRow, StorageFailure>) -> (r: Result<
        Reservation,
        Error,
    >)
        requires
            reply matches Ok(row) ==> row@.wf(),
        ensures
            match r {
                Ok(rsvp) => row_outcome(row_reply_view(reply)) == Ok::<ReservationView, ErrorView>(
                    rsvp@,
                ),
                Err(e) => row_outcome(row_reply_view(reply)) == Err::<ReservationView, ErrorView>(
                    e@,
                ),
            },
    {
        match reply {
            Ok(row) => Ok(Reservation::from_row(&row)),
            Err(failure) => Err(Error::from(failure)),
        }
    }

    /// Ends `delete` with what storage replied: the row that it removed,
    /// or a failure.
    pub fn deleted(&self, reply: Result<ReservationRow, StorageFailure>) -> (r: Result<
        (),
        Error,
    >)
        ensures
            match r {
                Ok(_) => delete_outcome(row_reply_view(reply)) is Ok,
                Err(e) => delete_outcome(row_reply_view(reply)) == Err::<(), ErrorView>(e@),
            },
    {
        match reply {
            Ok(_) => Ok(()),
            Err(failure) => Err(Error::from(failure)),
        }
    }

    /// Ends `query` with what storage replied: the rows of the page, or a
    /// failure.
    ///
    /// The reservations of the rows are returned in the order of the
    /// rows; an empty page is a result, not an error.
    pub fn queried(&self, reply: Result<Vec<ReservationRow>, StorageFailure>) -> (r: Result<
        Vec<Reservation>,
        Error,
    >)
        requires
            reply matches Ok(rows) ==> forall|i: int| 0 <= i < rows@.len() ==> (#[trigger] rows@[i])@.wf(),
        ensures
            match r {
                Ok(rsvps) => query_outcome(rows_reply_view(reply)) == Ok::<
                    Seq<ReservationView>,
                    ErrorView,
                >(reservation_views(rsvps@)),
                Err(e) => query_outcome(rows_reply_view(reply)) == Err::<
                    Seq<ReservationView>,
                    ErrorView,
                >(e@),
            },
    {
        match reply {
            Ok(rows) => {
                let mut rsvps: Vec<Reservation> = Vec::new();
                let mut at: usize = 0;
                while at < rows.len()
                    invariant
                        at <= rows@.len(),
                        rsvps@.len() == at,
                        forall|i: int| 0 <= i < rows@.len() ==> (#[trigger] rows@[i])@.wf(),
                        forall|i: int| 0 <= i < at ==> (#[trigger] rsvps@[i])@ == rows@[i]@.reservation(),
                    decreases rows@.len() - at,
                {
                    rsvps.push(Reservation::from_row(&rows[at]));
                    at += 1;
                }
                assert(reservation_views(rsvps@) =~= reservations_of(row_views(rows@)));
                Ok(rsvps)
            },
            Err(failure) => Err(Error::from(failure)),
        }
    }
}

} // verus!
