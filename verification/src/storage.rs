//! What the manager expects of storage, and what follows for its
//! operations.
//!
//! Storage is a table of rows, each under the identifier that storage gave
//! it. `responds` says what storage replies to a statement and how the
//! table changes; above all that it never takes a row whose interval
//! overlaps one that holds the same resource. The theorems of this module
//! say what the operations of the manager return when they run against
//! storage that keeps to `responds`.

use vstd::prelude::*;
use crate::error::{ErrorView, FaultView};
use crate::manager::{
    asks, delete_outcome, inserts, query_outcome, reservations_of, reserve_outcome, row_outcome,
    StatementView,
};
use crate::query::QueryView;
use crate::reservation::{ReservationView, RowView, TimeRange};
use crate::status::{ReservationStatus, RsvpStatus};

verus! {

/// The rows that storage holds, by identifier.
pub type Table = Map<Seq<char>, RowView>;

/// What storage replies to a statement.
pub enum ReplyView {
    /// The identifier of the row that was inserted.
    Id(Seq<char>),
    /// The row that the statement met.
    Row(RowView),
    /// The rows of the page that was asked for.
    Rows(Seq<RowView>),
    /// The statement failed.
    Failure(FaultView),
}

impl ReplyView {
    /// The reply that carries an identifier or a failure.
    pub open spec fn of_id(reply: Result<Seq<char>, FaultView>) -> ReplyView {
        match reply {
            Ok(id) => ReplyView::Id(id),
            Err(failure) => ReplyView::Failure(failure),
        }
    }

    /// The reply that carries a row or a failure.
    pub open spec fn of_row(reply: Result<RowView, FaultView>) -> ReplyView {
        match reply {
            Ok(row) => ReplyView::Row(row),
            Err(failure) => ReplyView::Failure(failure),
        }
    }

    /// The reply that carries rows or a failure.
    pub open spec fn of_rows(reply: Result<Seq<RowView>, FaultView>) -> ReplyView {
        match reply {
            Ok(rows) => ReplyView::Rows(rows),
            Err(failure) => ReplyView::Failure(failure),
        }
    }
}

/// Whether every row stands under its own identifier, which is not empty,
/// and has an interval with an instant at both ends.
pub open spec fn is_consistent(table: Table) -> bool {
    forall|id: Seq<char>| #[trigger]
        table.dom().contains(id) ==> table[id].id == id && id.len() > 0 && table[id].wf()
}

/// Whether a row holds `resource_id` during some instant of `timespan`:
/// it is pending or confirmed, it is for that resource, and its interval
/// overlaps `timespan`.
pub open spec fn blocks(row: RowView, resource_id: Seq<char>, timespan: TimeRange) -> bool {
    &&& row.status.is_active()
    &&& row.resource_id == resource_id
    &&& row.timespan.overlaps(timespan)
}

/// The exclusion guarantee: no two rows that are pending or confirmed
/// hold the same resource during the same instant.
pub open spec fn excludes(table: Table) -> bool {
    forall|a: Seq<char>, b: Seq<char>|
        #![trigger table.dom().contains(a), table.dom().contains(b)]
        table.dom().contains(a) && table.dom().contains(b) && a != b && table[a].status.is_active()
            ==> !blocks(table[b], table[a].resource_id, table[a].timespan)
}

/// Whether some row of the table blocks `timespan` on `resource_id`.
pub open spec fn is_blocked(table: Table, resource_id: Seq<char>, timespan: TimeRange) -> bool {
    exists|id: Seq<char>| #[trigger]
        table.dom().contains(id) && blocks(table[id], resource_id, timespan)
}

/// The row after its confirmation, for a row that can be confirmed: the
/// same row with the status that follows its own. Only a pending row has
/// one.
pub open spec fn confirmed(row: RowView) -> Option<RowView> {
    match row.status.to_reservation_status().successor() {
        Some(status) => Some(RowView { status: status.to_rsvp_status(), ..row }),
        None => None,
    }
}

/// Whether a row passes every filter that a query statement sets: its
/// user, its resource, its status unless that is `Unknown`, and a window
/// that overlaps the interval of the row.
pub open spec fn admits(statement: StatementView, row: RowView) -> bool {
    &&& statement matches StatementView::Query { user_id, resource_id, timespan, status, .. }
    &&& (user_id matches Some(id) ==> row.user_id == id)
    &&& (resource_id matches Some(id) ==> row.resource_id == id)
    &&& (status != ReservationStatus::Unknown ==> row.status == status.to_rsvp_status())
    &&& row.timespan.overlaps(timespan)
}

/// Whether the interval of `a` starts strictly before that of `b`.
pub open spec fn starts_before(a: RowView, b: RowView) -> bool {
    match (a.timespan.start.instant(), b.timespan.start.instant()) {
        (Some(a), Some(b)) => a.is_before(b),
        _ => false,
    }
}

/// Whether rows come in order of start: the earliest first, or, with
/// `desc`, the latest first.
pub open spec fn in_order(rows: Seq<RowView>, desc: bool) -> bool {
    forall|i: int, j: int|
        0 <= i < j < rows.len() ==> if desc {
            !starts_before(#[trigger] rows[i], #[trigger] rows[j])
        } else {
            !starts_before(rows[j], rows[i])
        }
}

/// Whether `all` lists the rows of the table that a query statement
/// admits: each of them once, no other row, in the order that the
/// statement asks for.
pub open spec fn lists(table: Table, statement: StatementView, all: Seq<RowView>) -> bool {
    &&& statement matches StatementView::Query { desc, .. }
    &&& forall|i: int|
        0 <= i < all.len() ==> table.dom().contains((#[trigger] all[i]).id) && table[all[i].id]
            == all[i] && admits(statement, all[i])
    &&& forall|i: int, j: int|
        0 <= i < j < all.len() ==> (#[trigger] all[i]).id != (#[trigger] all[j]).id
    &&& forall|id: Seq<char>| #[trigger]
        table.dom().contains(id) && admits(statement, table[id]) ==> all.contains(table[id])
    &&& in_order(all, desc)
}

/// The index in a listing of `len` rows at which a page starts.
pub open spec fn page_start(len: int, page: i32, page_size: i32) -> int {
    let offset = (page - 1) * page_size;
    if offset < 0 {
        0
    } else if offset > len {
        len
    } else {
        offset
    }
}

/// The index in a listing of `len` rows at which a page ends.
pub open spec fn page_end(len: int, page: i32, page_size: i32) -> int {
    let start = page_start(len, page, page_size);
    if page_size < 0 {
        start
    } else if start + page_size > len {
        len
    } else {
        start + page_size
    }
}

/// The rows of a page of a listing: those behind the first
/// `(page - 1) * page_size`, and at most `page_size` of them.
pub open spec fn page_of(all: Seq<RowView>, page: i32, page_size: i32) -> Seq<RowView> {
    all.subrange(
        page_start(all.len() as int, page, page_size),
        page_end(all.len() as int, page, page_size),
    )
}

/// What storage replies to a statement, and what the table is afterwards.
///
/// - An insertion is refused with an exclusion violation on the table of
///   reservations where the new row would be pending or confirmed and a
///   row blocks its interval on its resource. Otherwise the row is added
///   under an identifier that is not empty and that no other row has, and
///   the identifier is the reply.
/// - A confirmation meets the row of the identifier only if that row is
///   pending, makes it confirmed and replies with it.
/// - An update of the note meets the row of the identifier, overwrites
///   its note and replies with it.
/// - A selection replies with the row of the identifier.
/// - A deletion removes the row of the identifier and replies with it.
/// - Where one of these four meets no row, the reply is that no row was
///   found, and the table stays as it was.
/// - A query replies with one page of the list of the rows that it
///   admits, and leaves the table as it was.
pub open spec fn responds(
    before: Table,
    statement: StatementView,
    reply: ReplyView,
    after: Table,
) -> bool {
    match statement {
        StatementView::Insert { user_id, resource_id, timespan, note, status } => {
            if status.to_rsvp_status().is_active() && is_blocked(before, resource_id, timespan) {
                &&& after == before
                &&& reply matches ReplyView::Failure(FaultView::Database(diagnostic))
                &&& diagnostic.is_exclusion_violation()
            } else {
                &&& reply matches ReplyView::Id(id)
                &&& id.len() > 0
                &&& !before.dom().contains(id)
                &&& after == before.insert(
                    id,
                    RowView {
                        id,
                        user_id,
                        resource_id,
                        timespan,
                        note,
                        status: status.to_rsvp_status(),
                    },
                )
            }
        },
        StatementView::Confirm { id } => {
            if before.dom().contains(id) && confirmed(before[id]) is Some {
                let row = confirmed(before[id])->0;
                after == before.insert(id, row) && reply == ReplyView::Row(row)
            } else {
                after == before && reply == ReplyView::Failure(FaultView::RowNotFound)
            }
        },
        StatementView::UpdateNote { id, note } => {
            if before.dom().contains(id) {
                let row = RowView { note, ..before[id] };
                after == before.insert(id, row) && reply == ReplyView::Row(row)
            } else {
                after == before && reply == ReplyView::Failure(FaultView::RowNotFound)
            }
        },
        StatementView::Select { id } => {
            &&& after == before
            &&& reply == if before.dom().contains(id) {
                ReplyView::Row(before[id])
            } else {
                ReplyView::Failure(FaultView::RowNotFound)
            }
        },
        StatementView::Delete { id } => {
            if before.dom().contains(id) {
                after == before.remove(id) && reply == ReplyView::Row(before[id])
            } else {
                after == before && reply == ReplyView::Failure(FaultView::RowNotFound)
            }
        },
        StatementView::Query { page, page_size, .. } => {
            &&& after == before
            &&& exists|all: Seq<RowView>| #[trigger]
                lists(before, statement, all) && reply == ReplyView::Rows(
                    page_of(all, page, page_size),
                )
        },
    }
}

/// Storage that keeps to `responds` keeps its rows consistent and keeps
/// the exclusion guarantee: whatever statement it runs, no two pending or
/// confirmed reservations of one resource come to overlap.
pub proof fn storage_keeps_exclusion(
    before: Table,
    statement: StatementView,
    reply: ReplyView,
    after: Table,
)
    requires
        is_consistent(before),
        excludes(before),
        statement matches StatementView::Insert { timespan, .. } ==> timespan.is_bounded(),
        responds(before, statement, reply, after),
    ensures
        is_consistent(after),
        excludes(after),
{
    match statement {
        StatementView::Insert { user_id, resource_id, timespan, note, status } => {
            if status.to_rsvp_status().is_active() && is_blocked(before, resource_id, timespan) {
            } else {
                let id = reply->Id_0;
                assert forall|a: Seq<char>, b: Seq<char>|
                    #![trigger after.dom().contains(a), after.dom().contains(b)]
                    after.dom().contains(a) && after.dom().contains(b) && a != b
                        && after[a].status.is_active() implies !blocks(
                    after[b],
                    after[a].resource_id,
                    after[a].timespan,
                ) by {
                    if a == id {
                        assert(before.dom().contains(b));
                    } else if b == id {
                        assert(before.dom().contains(a));
                    } else {
                        assert(before.dom().contains(a) && before.dom().contains(b));
                    }
                }
            }
        },
        StatementView::Confirm { id } => {
            if before.dom().contains(id) && before[id].status == RsvpStatus::Pending {
                assert forall|a: Seq<char>, b: Seq<char>|
                    #![trigger after.dom().contains(a), after.dom().contains(b)]
                    after.dom().contains(a) && after.dom().contains(b) && a != b
                        && after[a].status.is_active() implies !blocks(
                    after[b],
                    after[a].resource_id,
                    after[a].timespan,
                ) by {
                    assert(before.dom().contains(a) && before.dom().contains(b));
                }
            }
        },
        StatementView::UpdateNote { id, note } => {
            if before.dom().contains(id) {
                assert forall|a: Seq<char>, b: Seq<char>|
                    #![trigger after.dom().contains(a), after.dom().contains(b)]
                    after.dom().contains(a) && after.dom().contains(b) && a != b
                        && after[a].status.is_active() implies !blocks(
                    after[b],
                    after[a].resource_id,
                    after[a].timespan,
                ) by {
                    assert(before.dom().contains(a) && before.dom().contains(b));
                }
            }
        },
        StatementView::Select { id } => {},
        StatementView::Delete { id } => {
            if before.dom().contains(id) {
                assert forall|a: Seq<char>, b: Seq<char>|
                    #![trigger after.dom().contains(a), after.dom().contains(b)]
                    after.dom().contains(a) && after.dom().contains(b) && a != b
                        && after[a].status.is_active() implies !blocks(
                    after[b],
                    after[a].resource_id,
                    after[a].timespan,
                ) by {
                    assert(before.dom().contains(a) && before.dom().contains(b));
                }
            }
        },
        StatementView::Query { .. } => {},
    }
}

/// While a pending or confirmed reservation holds a resource, `reserve`
/// fails with a conflict for every request on that resource whose
/// interval overlaps it, and storage stays as it was.
pub proof fn overlapping_reservation_conflicts(
    table: Table,
    holder: Seq<char>,
    rsvp: ReservationView,
    statement: StatementView,
    reply: Result<Seq<char>, FaultView>,
    after: Table,
)
    requires
        table.dom().contains(holder),
        inserts(rsvp, statement),
        blocks(table[holder], statement->Insert_resource_id, statement->Insert_timespan),
        responds(table, statement, ReplyView::of_id(reply), after),
    ensures
        reserve_outcome(rsvp, reply) matches Err(ErrorView::ConflictReservation(_)),
        after == table,
{
}

/// Of two requests on the same resource with overlapping intervals the
/// second fails with a conflict, once the first is reserved: `reserve`
/// leaves it pending, and so it holds the resource.
pub proof fn second_reservation_conflicts(
    table: Table,
    first: ReservationView,
    first_statement: StatementView,
    id: Seq<char>,
    between: Table,
    second: ReservationView,
    second_statement: StatementView,
    reply: Result<Seq<char>, FaultView>,
    after: Table,
)
    requires
        inserts(first, first_statement),
        responds(table, first_statement, ReplyView::Id(id), between),
        inserts(second, second_statement),
        first.resource_id == second.resource_id,
        first_statement->Insert_timespan.overlaps(second_statement->Insert_timespan),
        responds(between, second_statement, ReplyView::of_id(reply), after),
    ensures
        reserve_outcome(second, reply) matches Err(ErrorView::ConflictReservation(_)),
        after == between,
{
    assert(between.dom().contains(id));
    overlapping_reservation_conflicts(between, id, second, second_statement, reply, after);
}

/// `change_status` is a one-way gate. On a pending reservation it returns
/// the reservation, confirmed, and storage holds it confirmed. On any
/// other identifier, that of a confirmed reservation or one that storage
/// does not know, it finds nothing and changes nothing.
pub proof fn change_status_is_one_way(
    before: Table,
    id: Seq<char>,
    reply: Result<RowView, FaultView>,
    after: Table,
)
    requires
        is_consistent(before),
        responds(before, StatementView::Confirm { id }, ReplyView::of_row(reply), after),
    ensures
        before.dom().contains(id) && before[id].status == RsvpStatus::Pending ==> {
            &&& row_outcome(reply) matches Ok(rsvp)
            &&& rsvp.id == id
            &&& rsvp.status == ReservationStatus::Confirmed.code()
            &&& after.dom().contains(id)
            &&& after[id].status == RsvpStatus::Confirmed
        },
        !(before.dom().contains(id) && before[id].status == RsvpStatus::Pending) ==> {
            &&& row_outcome(reply) == Err::<ReservationView, ErrorView>(ErrorView::NotFound)
            &&& after == before
        },
{
}

/// A second `change_status` on the same identifier finds nothing,
/// whatever the first one did.
pub proof fn confirming_again_finds_nothing(
    before: Table,
    id: Seq<char>,
    first: Result<RowView, FaultView>,
    between: Table,
    second: Result<RowView, FaultView>,
    after: Table,
)
    requires
        responds(before, StatementView::Confirm { id }, ReplyView::of_row(first), between),
        responds(between, StatementView::Confirm { id }, ReplyView::of_row(second), after),
    ensures
        row_outcome(second) == Err::<ReservationView, ErrorView>(ErrorView::NotFound),
        after == between,
{
}

/// After `delete`, `get` on the same identifier finds nothing, whether
/// the deletion met a reservation or not.
pub proof fn deleted_reservation_is_not_found(
    before: Table,
    id: Seq<char>,
    deletion: Result<RowView, FaultView>,
    between: Table,
    selection: Result<RowView, FaultView>,
    after: Table,
)
    requires
        responds(before, StatementView::Delete { id }, ReplyView::of_row(deletion), between),
        responds(between, StatementView::Select { id }, ReplyView::of_row(selection), after),
    ensures
        before.dom().contains(id) ==> delete_outcome(deletion) is Ok,
        !before.dom().contains(id) ==> delete_outcome(deletion) == Err::<(), ErrorView>(
            ErrorView::NotFound,
        ),
        row_outcome(selection) == Err::<ReservationView, ErrorView>(ErrorView::NotFound),
{
}

/// `query` returns a page of the reservations that pass every filter of
/// the query. Each reservation returned is that of a row that storage
/// holds and that the statement admits; they come in order of start, the
/// latest first with `desc`; and they are the stretch of the full list of
/// such rows that starts behind the first `(page - 1) * page_size` and
/// holds at most `page_size` of them. A page without rows is a result.
pub proof fn query_returns_a_page_of_the_matches(
    table: Table,
    query: QueryView,
    statement: StatementView,
    reply: Result<Seq<RowView>, FaultView>,
    after: Table,
)
    requires
        query.wf(),
        asks(query, statement),
        responds(table, statement, ReplyView::of_rows(reply), after),
    ensures
        after == table,
        reply matches Ok(rows) && {
            &&& query_outcome(reply) == Ok::<Seq<ReservationView>, ErrorView>(
                reservations_of(rows),
            )
            &&& rows.len() <= query.page_size
            &&& forall|i: int|
                0 <= i < rows.len() ==> table.dom().contains((#[trigger] rows[i]).id)
                    && table[rows[i].id] == rows[i] && admits(statement, rows[i])
            &&& in_order(rows, query.desc)
            &&& exists|all: Seq<RowView>| #[trigger]
                lists(table, statement, all) && rows == all.subrange(
                    page_start(all.len() as int, query.page, query.page_size),
                    page_end(all.len() as int, query.page, query.page_size),
                ) && page_start(all.len() as int, query.page, query.page_size) == if query.offset()
                    < all.len() {
                    query.offset()
                } else {
                    all.len() as int
                }
        },
{
    let page = query.page;
    let page_size = query.page_size;
    let all = choose|all: Seq<RowView>| #[trigger]
        lists(table, statement, all) && ReplyView::of_rows(reply) == ReplyView::Rows(
            page_of(all, page, page_size),
        );
    let rows = page_of(all, page, page_size);
    let start = page_start(all.len() as int, page, page_size);
    assert(0 <= (page - 1) * page_size) by (nonlinear_arith)
        requires
            page >= 1,
            page_size >= 1,
    ;
    assert(reply == Ok::<Seq<RowView>, FaultView>(rows));
    assert forall|i: int| 0 <= i < rows.len() implies table.dom().contains(
        (#[trigger] rows[i]).id,
    ) && table[rows[i].id] == rows[i] && admits(statement, rows[i]) by {
        assert(rows[i] == all[start + i]);
    }
    assert(in_order(rows, query.desc)) by {
        assert forall|i: int, j: int| 0 <= i < j < rows.len() implies if query.desc {
            !starts_before(#[trigger] rows[i], #[trigger] rows[j])
        } else {
            !starts_before(rows[j], rows[i])
        } by {
            assert(rows[i] == all[start + i]);
            assert(rows[j] == all[start + j]);
        }
    }
}

} // verus!
