//! Time-bounded reservations of shared resources.
//!
//! The crate holds the rules of the reservation lifecycle: validation of
//! requests, the half-open time interval of a reservation, the decoding of
//! the storage engine's conflict diagnostic, the classification of storage
//! failures, the status state machine and the assembly of queries. Storage
//! itself is a collaborator: the manager decides which statement is sent
//! to it and what its reply means.
//!
//! - `time`: timestamps and UTC date-times, and the conversions between
//!   them.
//! - `status`: the status of a reservation and its one transition.
//! - `reservation`: reservations, their validation and their interval.
//! - `query`: queries and their builder.
//! - `scan` and `conflict`: the decoding of the diagnostic of a conflict.
//! - `error`: the errors, and the classification of storage failures.
//! - `manager`: the statement and the result of each operation.
//! - `storage`: what is expected of storage, and what follows for the
//!   operations.
//! - `groups`: division of numbers into groups of three.

pub mod conflict;
pub mod error;
pub mod groups;
pub mod manager;
pub mod query;
pub mod reservation;
pub mod scan;
pub mod status;
pub mod storage;
pub mod time;

pub use time::{convert_to_timestamp, convert_to_utc_time, Timestamp, UtcDateTime};
pub use status::{ReservationStatus, RsvpStatus};
pub use conflict::{ReservationConflict, ReservationConflictInfo, ReservationWindow};
pub use error::{Diagnostic, Error, StorageFailure};
pub use reservation::{
    get_timespan, validate_range, NaiveRange, Normalizer, Reservation, ReservationId, ReservationRow,
    ResourceId, TimeBound, TimeRange, UserId, Validator,
};
pub use query::{
    str_to_option, ReservationQuery, ReservationQueryBuilder, ReservationQueryBuilderError,
};
pub use manager::{ReservationManager, Rsvp, Statement, ToSql};
pub use groups::divide_array;
