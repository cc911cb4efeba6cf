//! The status of a reservation, as requests carry it and as storage holds it.

use vstd::prelude::*;

verus! {

/// The status of a reservation in requests and replies. On the wire it
/// travels as its code: 0 for `Unknown`, 1 for `Pending`, 2 for
/// `Confirmed`, 3 for `Blocked`.
#[derive(Clone, Copy, Debug, PartialEq, Eq, Structural)]
pub enum ReservationStatus {
    Unknown,
    Pending,
    Confirmed,
    Blocked,
}

/// The status of a reservation as the storage engine holds it.
#[derive(Clone, Copy, Debug, PartialEq, Eq, Structural)]
pub enum RsvpStatus {
    Unknown,
    Pending,
    Confirmed,
    Blocked,
}

impl RsvpStatus {
    /// The request-side status of the same name.
    pub open spec fn to_reservation_status(self) -> ReservationStatus {
        match self {
            RsvpStatus::Unknown => ReservationStatus::Unknown,
            RsvpStatus::Pending => ReservationStatus::Pending,
            RsvpStatus::Confirmed => ReservationStatus::Confirmed,
            RsvpStatus::Blocked => ReservationStatus::Blocked,
        }
    }

    /// A reservation holds its resource while it is pending or confirmed.
    pub open spec fn is_active(self) -> bool {
        self == RsvpStatus::Pending || self == RsvpStatus::Confirmed
    }
}

impl ReservationStatus {
    /// The code of a status on the wire.
    pub open spec fn code(self) -> i32 {
        match self {
            ReservationStatus::Unknown => 0,
            ReservationStatus::Pending => 1,
            ReservationStatus::Confirmed => 2,
            ReservationStatus::Blocked => 3,
        }
    }

    /// The status that a wire code stands for, if it stands for one.
    pub open spec fn of_code(code: i32) -> Option<ReservationStatus> {
        if code == 0 {
            Some(ReservationStatus::Unknown)
        } else if code == 1 {
            Some(ReservationStatus::Pending)
        } else if code == 2 {
            Some(ReservationStatus::Confirmed)
        } else if code == 3 {
            Some(ReservationStatus::Blocked)
        } else {
            None
        }
    }

    /// The status that a wire code stands for, `Pending` for a code that
    /// stands for none.
    pub open spec fn of_code_or_pending(code: i32) -> ReservationStatus {
        match Self::of_code(code) {
            Some(status) => status,
            None => ReservationStatus::Pending,
        }
    }

    /// The storage-side status of the same name.
    pub open spec fn to_rsvp_status(self) -> RsvpStatus {
        match self {
            ReservationStatus::Unknown => RsvpStatus::Unknown,
            ReservationStatus::Pending => RsvpStatus::Pending,
            ReservationStatus::Confirmed => RsvpStatus::Confirmed,
            ReservationStatus::Blocked => RsvpStatus::Blocked,
        }
    }

    /// The lower-case name by which storage knows a status.
    pub open spec fn name(self) -> Seq<char> {
        match self {
            ReservationStatus::Unknown => "unknown"@,
            ReservationStatus::Pending => "pending"@,
            ReservationStatus::Confirmed => "confirmed"@,
            ReservationStatus::Blocked => "blocked"@,
        }
    }

    /// The status that `change_status` moves a reservation to: a pending
    /// reservation becomes confirmed, and no other status has a successor.
    pub open spec fn successor(self) -> Option<ReservationStatus> {
        match self {
            ReservationStatus::Pending => Some(ReservationStatus::Confirmed),
            _ => None,
        }
    }

    /// The name by which storage knows the status.
    pub fn to_string(&self) -> (r: String)
        ensures
            r@ == self.name(),
    {
        match self {
            ReservationStatus::Unknown => "unknown".to_string(),
            ReservationStatus::Pending => "pending".to_string(),
            ReservationStatus::Confirmed => "confirmed".to_string(),
            ReservationStatus::Blocked => "blocked".to_string(),
        }
    }

    /// Decides `successor`.
    pub fn next(self) -> (r: Option<ReservationStatus>)
        ensures
            r == self.successor(),
    {
        match self {
            ReservationStatus::Pending => Some(ReservationStatus::Confirmed),
            _ => None,
        }
    }

    /// Reads a wire code.
    pub fn from_i32(code: i32) -> (r: Option<ReservationStatus>)
        ensures
            r == Self::of_code(code),
    {
        if code == 0 {
            Some(ReservationStatus::Unknown)
        } else if code == 1 {
            Some(ReservationStatus::Pending)
        } else if code == 2 {
            Some(ReservationStatus::Confirmed)
        } else if code == 3 {
            Some(ReservationStatus::Blocked)
        } else {
            None
        }
    }

    /// Writes the wire code.
    pub fn as_i32(self) -> (r: i32)
        ensures
            r == self.code(),
            Self::of_code(r) == Some(self),
    {
        match self {
            ReservationStatus::Unknown => 0,
            ReservationStatus::Pending => 1,
            ReservationStatus::Confirmed => 2,
            ReservationStatus::Blocked => 3,
        }
    }
}

impl From<RsvpStatus> for ReservationStatus {
    /// Converts a storage-side status to the request-side status of the
    /// same name.
    fn from(status: RsvpStatus) -> (r: ReservationStatus) {
        match status {
            RsvpStatus::Unknown => ReservationStatus::Unknown,
            RsvpStatus::Pending => ReservationStatus::Pending,
            RsvpStatus::Confirmed => ReservationStatus::Confirmed,
            RsvpStatus::Blocked => ReservationStatus::Blocked,
        }
    }
}

impl vstd::std_specs::convert::FromSpecImpl<RsvpStatus> for ReservationStatus {
    open spec fn obeys_from_spec() -> bool {
        true
    }

    open spec fn from_spec(status: RsvpStatus) -> ReservationStatus {
        status.to_reservation_status()
    }
}

} // verus!
