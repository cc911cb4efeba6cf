//! The description of a conflict between two reservations, and its
//! decoding from the storage engine's diagnostic.

use vstd::prelude::*;
use crate::scan::{chars_of, find_two_keys, text_of, two_keys, KeySpans};
use crate::time::{storage_time, UtcDateTime};

verus! {

/// A stretch of time on one resource.
#[derive(Debug)]
pub struct ReservationWindow {
    pub resource_id: String,
    pub start: UtcDateTime,
    pub end: UtcDateTime,
}

/// The two windows of a conflict: `new` is the one whose reservation was
/// refused, `old` the one of the reservation that stood in its way.
#[derive(Debug)]
pub struct ReservationConflict {
    pub new: ReservationWindow,
    pub old: ReservationWindow,
}

/// What is known of a conflict: the two windows where the diagnostic could
/// be decoded, and the diagnostic itself, unchanged, where it could not.
#[derive(Debug)]
pub enum ReservationConflictInfo {
    Parsed(ReservationConflict),
    Unparsed(String),
}

/// The mathematical value of a `ReservationWindow`.
pub struct WindowView {
    pub resource_id: Seq<char>,
    pub start: UtcDateTime,
    pub end: UtcDateTime,
}

/// The mathematical value of a `ReservationConflict`.
pub struct ConflictView {
    pub new: WindowView,
    pub old: WindowView,
}

/// The mathematical value of a `ReservationConflictInfo`.
pub enum ConflictInfoView {
    Parsed(ConflictView),
    Unparsed(Seq<char>),
}

impl View for ReservationWindow {
    type V = WindowView;

    open spec fn view(&self) -> WindowView {
        WindowView { resource_id: self.resource_id@, start: self.start, end: self.end }
    }
}

impl View for ReservationConflict {
    type V = ConflictView;

    open spec fn view(&self) -> ConflictView {
        ConflictView { new: self.new@, old: self.old@ }
    }
}

impl View for ReservationConflictInfo {
    type V = ConflictInfoView;

    open spec fn view(&self) -> ConflictInfoView {
        match self {
            ReservationConflictInfo::Parsed(conflict) => ConflictInfoView::Parsed(conflict@),
            ReservationConflictInfo::Unparsed(text) => ConflictInfoView::Unparsed(text@),
        }
    }
}

impl Clone for ReservationWindow {
    fn clone(&self) -> (r: Self)
        ensures
            r == *self,
    {
        ReservationWindow {
            resource_id: self.resource_id.clone(),
            start: self.start,
            end: self.end,
        }
    }
}

impl Clone for ReservationConflict {
    fn clone(&self) -> (r: Self)
        ensures
            r == *self,
    {
        ReservationConflict { new: self.new.clone(), old: self.old.clone() }
    }
}

impl Clone for ReservationConflictInfo {
    fn clone(&self) -> (r: Self)
        ensures
            r == *self,
    {
        match self {
            ReservationConflictInfo::Parsed(conflict) => ReservationConflictInfo::Parsed(
                conflict.clone(),
            ),
            ReservationConflictInfo::Unparsed(text) => ReservationConflictInfo::Unparsed(
                text.clone(),
            ),
        }
    }
}

impl PartialEq for ReservationWindow {
    fn eq(&self, other: &Self) -> (r: bool) {
        self.resource_id == other.resource_id && self.start == other.start && self.end
            == other.end
    }
}

impl vstd::std_specs::cmp::PartialEqSpecImpl for ReservationWindow {
    open spec fn obeys_eq_spec() -> bool {
        true
    }

    open spec fn eq_spec(&self, other: &Self) -> bool {
        self@ == other@
    }
}

impl PartialEq for ReservationConflict {
    fn eq(&self, other: &Self) -> (r: bool) {
        self.new == other.new && self.old == other.old
    }
}

impl vstd::std_specs::cmp::PartialEqSpecImpl for ReservationConflict {
    open spec fn obeys_eq_spec() -> bool {
        true
    }

    open spec fn eq_spec(&self, other: &Self) -> bool {
        self@ == other@
    }
}

impl PartialEq for ReservationConflictInfo {
    fn eq(&self, other: &Self) -> (r: bool) {
        match (self, other) {
            (
                ReservationConflictInfo::Parsed(mine),
                ReservationConflictInfo::Parsed(theirs),
            ) => *mine == *theirs,
            (
                ReservationConflictInfo::Unparsed(mine),
                ReservationConflictInfo::Unparsed(theirs),
            ) => *mine == *theirs,
            _ => false,
        }
    }
}

impl vstd::std_specs::cmp::PartialEqSpecImpl for ReservationConflictInfo {
    open spec fn obeys_eq_spec() -> bool {
        true
    }

    open spec fn eq_spec(&self, other: &Self) -> bool {
        self@ == other@
    }
}

/// The window that a key of the diagnostic `s` describes: none where one
/// of its bounds is no instant in the storage engine's format.
pub open spec fn window_of(s: Seq<char>, key: KeySpans) -> Option<WindowView> {
    window_from(
        key.resource_id.of(s),
        storage_time(key.start.of(s)),
        storage_time(key.end.of(s)),
    )
}

/// The window of a resource between two bounds, where both were read.
pub open spec fn window_from(
    resource_id: Seq<char>,
    start: Option<UtcDateTime>,
    end: Option<UtcDateTime>,
) -> Option<WindowView> {
    match (start, end) {
        (Some(start), Some(end)) => Some(WindowView { resource_id, start, end }),
        _ => None,
    }
}

/// The conflict that a diagnostic describes. Its first key is the window
/// that was refused, its second key the window that was there before.
pub open spec fn conflict_of(s: Seq<char>) -> Option<ConflictView> {
    match two_keys(s) {
        Some((first, second)) => match (window_of(s, first), window_of(s, second)) {
            (Some(new), Some(old)) => Some(ConflictView { new, old }),
            _ => None,
        },
        None => None,
    }
}

/// What a diagnostic tells of a conflict: the conflict it describes, or
/// the diagnostic itself where it describes none.
pub open spec fn conflict_info_of(s: Seq<char>) -> ConflictInfoView {
    match conflict_of(s) {
        Some(conflict) => ConflictInfoView::Parsed(conflict),
        None => ConflictInfoView::Unparsed(s),
    }
}

impl ReservationWindow {
    /// The window of a resource between two bounds, where both were read.
    pub fn from_bounds(
        resource_id: String,
        start: Option<UtcDateTime>,
        end: Option<UtcDateTime>,
    ) -> (r: Option<ReservationWindow>)
        ensures
            r is Some <==> start is Some && end is Some,
            r matches Some(window) ==> window@ == (WindowView {
                resource_id: resource_id@,
                start: start->0,
                end: end->0,
            }),
    {
        match (start, end) {
            (Some(start), Some(end)) => Some(ReservationWindow { resource_id, start, end }),
            _ => None,
        }
    }

    /// The window that a key of a diagnostic describes.
    fn of_key(text: &str, key: KeySpans) -> (r: Option<ReservationWindow>)
        requires
            key.within(text@.len() as int),
        ensures
            r is Some <==> window_of(text@, key) is Some,
            r matches Some(window) ==> Some(window@) == window_of(text@, key),
    {
        let start = text_of(text, key.start);
        let end = text_of(text, key.end);
        Self::from_bounds(
            text_of(text, key.resource_id),
            UtcDateTime::parse_storage_time(start.as_str()),
            UtcDateTime::parse_storage_time(end.as_str()),
        )
    }
}

impl ReservationConflict {
    /// The conflict between two windows, where both were decoded.
    pub fn from_windows(new: Option<ReservationWindow>, old: Option<ReservationWindow>) -> (r:
        Option<ReservationConflict>)
        ensures
            r is Some <==> new is Some && old is Some,
            r matches Some(conflict) ==> conflict.new == new->0 && conflict.old == old->0,
    {
        match (new, old) {
            (Some(new), Some(old)) => Some(ReservationConflict { new, old }),
            _ => None,
        }
    }

    /// Decodes a diagnostic of the storage engine's exclusion guarantee.
    pub fn parse(text: &str) -> (r: Option<ReservationConflict>)
        ensures
            r is Some <==> conflict_of(text@) is Some,
            r matches Some(conflict) ==> Some(conflict@) == conflict_of(text@),
    {
        let chars = chars_of(text);
        match find_two_keys(&chars) {
            Some((first, second)) => Self::from_windows(
                ReservationWindow::of_key(text, first),
                ReservationWindow::of_key(text, second),
            ),
            None => None,
        }
    }
}

impl ReservationConflictInfo {
    /// What is known of a conflict once its diagnostic has gone through
    /// decoding: the conflict that was decoded, or else the diagnostic.
    pub fn from_decoded(conflict: Option<ReservationConflict>, text: &str) -> (r:
        ReservationConflictInfo)
        ensures
            r@ == match conflict {
                Some(conflict) => ConflictInfoView::Parsed(conflict@),
                None => ConflictInfoView::Unparsed(text@),
            },
    {
        match conflict {
            Some(conflict) => ReservationConflictInfo::Parsed(conflict),
            None => ReservationConflictInfo::Unparsed(text.to_owned()),
        }
    }

    /// Decodes a diagnostic of the storage engine's exclusion guarantee.
    /// A diagnostic that cannot be decoded is kept as it is: the conflict
    /// is reported either way.
    pub fn parse(text: &str) -> (r: ReservationConflictInfo)
        ensures
            r@ == conflict_info_of(text@),
    {
        Self::from_decoded(ReservationConflict::parse(text), text)
    }
}

} // verus!
