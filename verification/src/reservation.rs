//! Reservations: their validation, their interval, and their decoding
//! from a row of storage.

use vstd::prelude::*;
use crate::error::{Error, ErrorView};
use crate::status::{ReservationStatus, RsvpStatus};
use crate::time::{convert_to_timestamp, convert_to_utc_time, Timestamp, UtcDateTime};

verus! {

/// The identifier that storage gives a reservation.
pub type ReservationId = String;

/// The identifier of a user.
pub type UserId = String;

/// The identifier of a resource.
pub type ResourceId = String;

/// One end of an interval of time.
#[derive(Clone, Copy, Debug, PartialEq, Eq, Structural)]
pub enum TimeBound {
    /// The interval reaches the instant and holds it.
    Included(UtcDateTime),
    /// The interval reaches the instant and does not hold it.
    Excluded(UtcDateTime),
    /// The interval has no end on this side.
    Unbounded,
}

/// An interval of time as storage holds it.
#[derive(Clone, Copy, Debug, PartialEq, Eq, Structural)]
pub struct TimeRange {
    pub start: TimeBound,
    pub end: TimeBound,
}

/// The two instants of an interval, without the kind of its ends.
#[derive(Clone, Copy, Debug, PartialEq, Eq, Structural)]
pub struct NaiveRange {
    pub start: Option<UtcDateTime>,
    pub end: Option<UtcDateTime>,
}

/// A reservation of a resource by a user for a stretch of time.
///
/// A request carries no identifier: `id` is empty until storage has given
/// one. `status` is the wire code of a `ReservationStatus`.
#[derive(Debug)]
pub struct Reservation {
    pub id: ReservationId,
    pub user_id: UserId,
    pub resource_id: ResourceId,
    pub start: Option<Timestamp>,
    pub end: Option<Timestamp>,
    pub note: String,
    pub status: i32,
}

/// A reservation as a row of storage.
#[derive(Debug)]
pub struct ReservationRow {
    pub id: ReservationId,
    pub user_id: UserId,
    pub resource_id: ResourceId,
    pub timespan: TimeRange,
    pub note: String,
    pub status: RsvpStatus,
}

/// The mathematical value of a `Reservation`.
pub struct ReservationView {
    pub id: Seq<char>,
    pub user_id: Seq<char>,
    pub resource_id: Seq<char>,
    pub start: Option<Timestamp>,
    pub end: Option<Timestamp>,
    pub note: Seq<char>,
    pub status: i32,
}

/// The mathematical value of a `ReservationRow`.
pub struct RowView {
    pub id: Seq<char>,
    pub user_id: Seq<char>,
    pub resource_id: Seq<char>,
    pub timespan: TimeRange,
    pub note: Seq<char>,
    pub status: RsvpStatus,
}

impl View for Reservation {
    type V = ReservationView;

    open spec fn view(&self) -> ReservationView {
        ReservationView {
            id: self.id@,
            user_id: self.user_id@,
            resource_id: self.resource_id@,
            start: self.start,
            end: self.end,
            note: self.note@,
            status: self.status,
        }
    }
}

impl View for ReservationRow {
    type V = RowView;

    open spec fn view(&self) -> RowView {
        RowView {
            id: self.id@,
            user_id: self.user_id@,
            resource_id: self.resource_id@,
            timespan: self.timespan,
            note: self.note@,
            status: self.status,
        }
    }
}

impl Clone for Reservation {
    fn clone(&self) -> (r: Self)
        ensures
            r == *self,
    {
        Reservation {
            id: self.id.clone(),
            user_id: self.user_id.clone(),
            resource_id: self.resource_id.clone(),
            start: self.start,
            end: self.end,
            note: self.note.clone(),
            status: self.status,
        }
    }
}

impl PartialEq for Reservation {
    fn eq(&self, other: &Self) -> (r: bool) {
        self.id == other.id && self.user_id == other.user_id && self.resource_id
            == other.resource_id && self.start == other.start && self.end == other.end
            && self.note == other.note && self.status == other.status
    }
}

impl vstd::std_specs::cmp::PartialEqSpecImpl for Reservation {
    open spec fn obeys_eq_spec() -> bool {
        true
    }

    open spec fn eq_spec(&self, other: &Self) -> bool {
        self@ == other@
    }
}

impl Clone for ReservationRow {
    fn clone(&self) -> (r: Self)
        ensures
            r == *self,
    {
        ReservationRow {
            id: self.id.clone(),
            user_id: self.user_id.clone(),
            resource_id: self.resource_id.clone(),
            timespan: self.timespan,
            note: self.note.clone(),
            status: self.status,
        }
    }
}

impl TimeBound {
    /// The instant of the bound, if it has one.
    pub open spec fn instant(self) -> Option<UtcDateTime> {
        match self {
            TimeBound::Included(t) => Some(t),
            TimeBound::Excluded(t) => Some(t),
            TimeBound::Unbounded => None,
        }
    }
}

/// Whether the instant of `a` comes strictly before that of `b`. A side
/// without an end reaches past every instant.
pub open spec fn precedes(a: TimeBound, b: TimeBound) -> bool {
    match (a.instant(), b.instant()) {
        (Some(a), Some(b)) => a.is_before(b),
        _ => true,
    }
}

impl TimeRange {
    /// Whether the interval, read as half-open, holds an instant.
    pub open spec fn is_nonempty(self) -> bool {
        precedes(self.start, self.end)
    }

    /// Whether two intervals, read as half-open, share an instant. Two
    /// intervals of which one ends where the other starts share none.
    pub open spec fn overlaps(self, other: TimeRange) -> bool {
        &&& self.is_nonempty()
        &&& other.is_nonempty()
        &&& precedes(self.start, other.end)
        &&& precedes(other.start, self.end)
    }

    /// The two instants of the interval.
    pub open spec fn naive(self) -> NaiveRange {
        NaiveRange { start: self.start.instant(), end: self.end.instant() }
    }

    /// Whether the interval has an instant at both ends.
    pub open spec fn is_bounded(self) -> bool {
        self.start !is Unbounded && self.end !is Unbounded
    }
}

/// Two half-open intervals of which one ends at the instant at which the
/// other starts do not overlap: of two reservations back to back neither
/// stands in the way of the other.
pub proof fn back_to_back_intervals_do_not_overlap(first: TimeRange, second: TimeRange)
    requires
        first.end.instant() is Some,
        first.end.instant() == second.start.instant(),
    ensures
        !first.overlaps(second),
        !second.overlaps(first),
{
}

/// Whether two intervals overlap does not depend on their order.
pub proof fn overlap_is_mutual(a: TimeRange, b: TimeRange)
    ensures
        a.overlaps(b) == b.overlaps(a),
{
}

impl From<TimeRange> for NaiveRange {
    /// Drops the kind of the two ends.
    fn from(range: TimeRange) -> (r: NaiveRange) {
        let start = match range.start {
            TimeBound::Included(t) => Some(t),
            TimeBound::Excluded(t) => Some(t),
            TimeBound::Unbounded => None,
        };
        let end = match range.end {
            TimeBound::Included(t) => Some(t),
            TimeBound::Excluded(t) => Some(t),
            TimeBound::Unbounded => None,
        };
        NaiveRange { start, end }
    }
}

impl vstd::std_specs::convert::FromSpecImpl<TimeRange> for NaiveRange {
    open spec fn obeys_from_spec() -> bool {
        true
    }

    open spec fn from_spec(range: TimeRange) -> NaiveRange {
        range.naive()
    }
}

/// Whether two timestamps bound an interval: both are there, and the
/// start comes strictly before the end.
pub open spec fn is_valid_range(start: Option<Timestamp>, end: Option<Timestamp>) -> bool {
    match (start, end) {
        (Some(start), Some(end)) => start.is_before(end),
        _ => false,
    }
}

/// The instant that a timestamp converts to, as far as the conversion
/// fixes it: a representable timestamp converts to itself, and any other
/// to some well-formed instant.
pub open spec fn converts_to(ts: Timestamp, t: UtcDateTime) -> bool {
    t.wf() && (ts.is_representable() ==> t == ts.as_utc())
}

/// Whether `range` is the interval of two timestamps: half-open, from
/// what the start converts to up to what the end converts to.
pub open spec fn is_timespan_of(start: Timestamp, end: Timestamp, range: TimeRange) -> bool {
    &&& range.start matches TimeBound::Included(s)
    &&& range.end matches TimeBound::Excluded(e)
    &&& converts_to(start, s)
    &&& converts_to(end, e)
}

/// Checks that two timestamps bound an interval.
pub fn validate_range(start: Option<&Timestamp>, end: Option<&Timestamp>) -> (r: Result<
    (),
    Error,
>)
    ensures
        match r {
            Ok(_) => start is Some && end is Some && start->0.is_before(*end->0),
            Err(e) => e@ == ErrorView::InvalidTime && !(start is Some && end is Some
                && start->0.is_before(*end->0)),
        },
{
    if start.is_none() || end.is_none() {
        return Err(Error::InvalidTime);
    }
    let start = start.unwrap();
    let end = end.unwrap();
    if !start.before(end) {
        return Err(Error::InvalidTime);
    }
    Ok(())
}

/// The half-open interval between two timestamps.
///
/// A timestamp that no UTC date-time can hold is replaced by the clock's
/// reading, as `convert_to_utc_time` says: validate the pair first.
pub fn get_timespan(start: Option<&Timestamp>, end: Option<&Timestamp>) -> (r: TimeRange)
    requires
        start is Some,
        end is Some,
    ensures
        is_timespan_of(*start->0, *end->0, r),
{
    let start = convert_to_utc_time(*start.unwrap());
    let end = convert_to_utc_time(*end.unwrap());
    TimeRange { start: TimeBound::Included(start), end: TimeBound::Excluded(end) }
}

/// What can be checked for structural correctness.
pub trait Validator {
    /// What `validate` answers.
    spec fn validity(&self) -> Result<(), ErrorView>;

    /// Checks the value and says what is wrong with it.
    fn validate(&self) -> (r: Result<(), Error>)
        ensures
            match r {
                Ok(_) => self.validity() is Ok,
                Err(e) => self.validity() == Err::<(), ErrorView>(e@),
            },
    ;
}

/// What can be brought into a normal form once it is known to be valid.
pub trait Normalizer: Validator + Sized {
    /// Whether `after` is the normal form of `self`.
    spec fn normalizes_to(&self, after: &Self) -> bool;

    /// Brings a valid value into its normal form.
    fn do_normalize(&mut self)
        requires
            old(self).validity() is Ok,
        ensures
            old(self).normalizes_to(final(self)),
    ;

    /// Validates the value and, if it is valid, brings it into its normal
    /// form. An invalid value is left as it is.
    fn normalize(&mut self) -> (r: Result<(), Error>)
        ensures
            match r {
                Ok(_) => old(self).validity() is Ok && old(self).normalizes_to(final(self)),
                Err(e) => old(self).validity() == Err::<(), ErrorView>(e@) && *final(self) == *old(
                    self,
                ),
            },
    {
        match self.validate() {
            Err(e) => {
                return Err(e);
            },
            Ok(_) => {},
        }
        self.do_normalize();
        Ok(())
    }
}

impl ReservationView {
    /// What is wrong with a reservation, if anything: first an empty user,
    /// then an empty resource, then the interval.
    pub open spec fn validity(self) -> Result<(), ErrorView> {
        if self.user_id.len() == 0 {
            Err(ErrorView::InvalidUserId(self.user_id))
        } else if self.resource_id.len() == 0 {
            Err(ErrorView::InvalidResourceId(self.resource_id))
        } else if !is_valid_range(self.start, self.end) {
            Err(ErrorView::InvalidTime)
        } else {
            Ok(())
        }
    }
}

/// A reservation is valid exactly when it names a user, names a
/// resource, and has a start that comes strictly before its end. Any
/// other is refused with the error of the first of these that it lacks:
/// the user, then the resource, then the interval.
pub proof fn reservation_validity(rsvp: ReservationView)
    ensures
        rsvp.validity() is Ok <==> {
            &&& rsvp.user_id.len() > 0
            &&& rsvp.resource_id.len() > 0
            &&& rsvp.start matches Some(start)
            &&& rsvp.end matches Some(end)
            &&& start.is_before(end)
        },
        rsvp.user_id.len() == 0 ==> rsvp.validity() == Err::<(), ErrorView>(
            ErrorView::InvalidUserId(Seq::empty()),
        ),
        rsvp.user_id.len() > 0 && rsvp.resource_id.len() == 0 ==> rsvp.validity() == Err::<
            (),
            ErrorView,
        >(ErrorView::InvalidResourceId(Seq::empty())),
        rsvp.user_id.len() > 0 && rsvp.resource_id.len() > 0 && rsvp.validity() is Err
            ==> rsvp.validity() == Err::<(), ErrorView>(ErrorView::InvalidTime),
{
    if rsvp.user_id.len() == 0 {
        assert(rsvp.user_id =~= Seq::empty());
    } else if rsvp.resource_id.len() == 0 {
        assert(rsvp.resource_id =~= Seq::empty());
    }
}

impl RowView {
    /// A row is well formed when its interval has an instant at both ends.
    pub open spec fn wf(self) -> bool {
        self.timespan.is_bounded()
    }

    /// The reservation that a row holds.
    pub open spec fn reservation(self) -> ReservationView
        recommends
            self.wf(),
    {
        ReservationView {
            id: self.id,
            user_id: self.user_id,
            resource_id: self.resource_id,
            start: Some(self.timespan.start.instant()->0.to_timestamp()),
            end: Some(self.timespan.end.instant()->0.to_timestamp()),
            note: self.note,
            status: self.status.to_reservation_status().code(),
        }
    }
}

/// What is wrong with a reservation identifier, if anything: an empty
/// identifier names no reservation.
pub open spec fn id_validity(id: Seq<char>) -> Result<(), ErrorView> {
    if id.len() == 0 {
        Err(ErrorView::InvalidReservationId(id))
    } else {
        Ok(())
    }
}

impl Validator for ReservationId {
    open spec fn validity(&self) -> Result<(), ErrorView> {
        id_validity(self@)
    }

    fn validate(&self) -> (r: Result<(), Error>) {
        if self.as_str().is_empty() {
            Err(Error::InvalidReservationId(self.clone()))
        } else {
            Ok(())
        }
    }
}

impl Validator for Reservation {
    open spec fn validity(&self) -> Result<(), ErrorView> {
        self@.validity()
    }

    fn validate(&self) -> (r: Result<(), Error>) {
        if self.user_id.as_str().is_empty() {
            return Err(Error::InvalidUserId(self.user_id.clone()));
        }
        if self.resource_id.as_str().is_empty() {
            return Err(Error::InvalidResourceId(self.resource_id.clone()));
        }
        validate_range(self.start.as_ref(), self.end.as_ref())
    }
}

impl Reservation {
    /// A request for a reservation: pending, and without an identifier.
    pub fn new_pending(
        user_id: &str,
        resource_id: &str,
        start: UtcDateTime,
        end: UtcDateTime,
        note: &str,
    ) -> (r: Reservation)
        ensures
            r@ == (ReservationView {
                id: Seq::empty(),
                user_id: user_id@,
                resource_id: resource_id@,
                start: Some(start.to_timestamp()),
                end: Some(end.to_timestamp()),
                note: note@,
                status: ReservationStatus::Pending.code(),
            }),
    {
        Reservation {
            id: String::new(),
            user_id: user_id.to_owned(),
            resource_id: resource_id.to_owned(),
            start: Some(convert_to_timestamp(start)),
            end: Some(convert_to_timestamp(end)),
            note: note.to_owned(),
            status: ReservationStatus::Pending.as_i32(),
        }
    }

    /// The half-open interval of the reservation.
    pub fn get_timespan(&self) -> (r: TimeRange)
        requires
            self.start is Some,
            self.end is Some,
        ensures
            is_timespan_of(self.start->0, self.end->0, r),
    {
        get_timespan(self.start.as_ref(), self.end.as_ref())
    }

    /// The reservation that a row of storage holds.
    pub fn from_row(row: &ReservationRow) -> (r: Reservation)
        requires
            row@.wf(),
        ensures
            r@ == row@.reservation(),
    {
        let range = NaiveRange::from(row.timespan);
        let start = range.start.unwrap();
        let end = range.end.unwrap();
        Reservation {
            id: row.id.clone(),
            user_id: row.user_id.clone(),
            resource_id: row.resource_id.clone(),
            start: Some(convert_to_timestamp(start)),
            end: Some(convert_to_timestamp(end)),
            note: row.note.clone(),
            status: ReservationStatus::from(row.status).as_i32(),
        }
    }
}

} // verus!
