//! Queries for reservations, and the builder that assembles them.

use vstd::prelude::*;
use crate::error::{text_view, Error, ErrorView};
use crate::reservation::{
    get_timespan, is_timespan_of, is_valid_range, validate_range, Normalizer, TimeRange,
    Validator,
};
use crate::status::ReservationStatus;
use crate::time::Timestamp;

verus! {

/// The page size of a query that names none.
pub const DEFAULT_PAGE_SIZE: i32 = 10;

/// A filter on reservations, with the page of the matches that is wanted.
///
/// An unset `user_id` or `resource_id` matches every user or resource;
/// `status` is the wire code of a `ReservationStatus`, and `Unknown`
/// matches every status. Pages are counted from 1 and hold `page_size`
/// reservations; `desc` asks for the latest start first. A query always
/// has a page of at least 1 and a page size of at least 1: only
/// `ReservationQueryBuilder::build` makes one.
#[derive(Debug)]
pub struct ReservationQuery {
    resource_id: Option<String>,
    user_id: Option<String>,
    status: i32,
    start: Option<Timestamp>,
    end: Option<Timestamp>,
    page: i32,
    page_size: i32,
    desc: bool,
}

/// Assembles a `ReservationQuery` field by field. Fields that are never
/// set keep their defaults: no user, no resource, no window, the status
/// `Unknown`, page 1, `DEFAULT_PAGE_SIZE` reservations a page, earliest
/// start first.
#[derive(Debug)]
pub struct ReservationQueryBuilder {
    resource_id: Option<String>,
    user_id: Option<String>,
    status: i32,
    start: Option<Timestamp>,
    end: Option<Timestamp>,
    page: i32,
    page_size: i32,
    desc: bool,
}

/// Why a builder refuses to make a query.
#[derive(Clone, Copy, Debug, PartialEq, Eq, Structural)]
pub enum ReservationQueryBuilderError {
    /// The page, which is below 1.
    InvalidPage(i32),
    /// The page size, which is below 1.
    InvalidPageSize(i32),
}

/// The mathematical value of a `ReservationQuery`, and of a builder.
pub struct QueryView {
    pub resource_id: Option<Seq<char>>,
    pub user_id: Option<Seq<char>>,
    pub status: i32,
    pub start: Option<Timestamp>,
    pub end: Option<Timestamp>,
    pub page: i32,
    pub page_size: i32,
    pub desc: bool,
}

/// A filter on a text: an empty text filters nothing.
pub open spec fn text_filter(text: Option<Seq<char>>) -> Option<Seq<char>> {
    match text {
        Some(text) => if text.len() == 0 {
            None
        } else {
            Some(text)
        },
        None => None,
    }
}

/// `None` for an empty text, the text itself otherwise.
pub fn str_to_option(s: &str) -> (r: Option<&str>)
    ensures
        r == if s@.len() == 0 {
            None
        } else {
            Some(s)
        },
{
    if s.is_empty() {
        None
    } else {
        Some(s)
    }
}

impl QueryView {
    /// The normal form of a query: an empty text is no filter, and a
    /// status code that stands for no status stands for `Pending`.
    pub open spec fn normal_form(self) -> QueryView {
        QueryView {
            resource_id: text_filter(self.resource_id),
            user_id: text_filter(self.user_id),
            status: ReservationStatus::of_code_or_pending(self.status).code(),
            ..self
        }
    }

    /// The query of a builder on which nothing was set.
    pub open spec fn unset() -> QueryView {
        QueryView {
            resource_id: None,
            user_id: None,
            status: 0,
            start: None,
            end: None,
            page: 1,
            page_size: DEFAULT_PAGE_SIZE,
            desc: false,
        }
    }

    /// What a builder holding this value answers to `build`.
    pub open spec fn checked(self) -> Result<QueryView, ReservationQueryBuilderError> {
        if self.page < 1 {
            Err(ReservationQueryBuilderError::InvalidPage(self.page))
        } else if self.page_size < 1 {
            Err(ReservationQueryBuilderError::InvalidPageSize(self.page_size))
        } else {
            Ok(self)
        }
    }

    /// Whether page and page size are both at least 1.
    pub open spec fn wf(self) -> bool {
        self.page >= 1 && self.page_size >= 1
    }

    /// What is wrong with the query, if anything: only its window is
    /// checked.
    pub open spec fn validity(self) -> Result<(), ErrorView> {
        if is_valid_range(self.start, self.end) {
            Ok(())
        } else {
            Err(ErrorView::InvalidTime)
        }
    }

    /// How many matches come before the page that is wanted.
    pub open spec fn offset(self) -> int {
        (self.page - 1) * self.page_size
    }
}

impl View for ReservationQuery {
    type V = QueryView;

    closed spec fn view(&self) -> QueryView {
        QueryView {
            resource_id: text_view(self.resource_id),
            user_id: text_view(self.user_id),
            status: self.status,
            start: self.start,
            end: self.end,
            page: self.page,
            page_size: self.page_size,
            desc: self.desc,
        }
    }
}

impl View for ReservationQueryBuilder {
    type V = QueryView;

    closed spec fn view(&self) -> QueryView {
        QueryView {
            resource_id: text_view(self.resource_id),
            user_id: text_view(self.user_id),
            status: self.status,
            start: self.start,
            end: self.end,
            page: self.page,
            page_size: self.page_size,
            desc: self.desc,
        }
    }
}

impl ReservationQuery {
    #[verifier::type_invariant]
    spec fn has_valid_paging(self) -> bool {
        self.page >= 1 && self.page_size >= 1
    }

    /// The user whose reservations are wanted, if one is set.
    pub fn user_id(&self) -> (r: Option<&String>)
        ensures
            match r {
                Some(id) => self@.user_id == Some(id@),
                None => self@.user_id is None,
            },
    {
        self.user_id.as_ref()
    }

    /// The resource whose reservations are wanted, if one is set.
    pub fn resource_id(&self) -> (r: Option<&String>)
        ensures
            match r {
                Some(id) => self@.resource_id == Some(id@),
                None => self@.resource_id is None,
            },
    {
        self.resource_id.as_ref()
    }

    /// The wire code of the status that is wanted.
    pub fn status(&self) -> (r: i32)
        ensures
            r == self@.status,
    {
        self.status
    }

    /// The start of the window, if one is set.
    pub fn start(&self) -> (r: Option<Timestamp>)
        ensures
            r == self@.start,
    {
        self.start
    }

    /// The end of the window, if one is set.
    pub fn end(&self) -> (r: Option<Timestamp>)
        ensures
            r == self@.end,
    {
        self.end
    }

    /// The page that is wanted, counted from 1.
    pub fn page(&self) -> (r: i32)
        ensures
            r == self@.page,
            r >= 1,
    {
        proof {
            use_type_invariant(self);
        }
        self.page
    }

    /// The number of reservations on a page, at least 1.
    pub fn page_size(&self) -> (r: i32)
        ensures
            r == self@.page_size,
            r >= 1,
    {
        proof {
            use_type_invariant(self);
        }
        self.page_size
    }

    /// Whether the latest start comes first.
    pub fn desc(&self) -> (r: bool)
        ensures
            r == self@.desc,
    {
        self.desc
    }

    /// The half-open interval of the window.
    pub fn get_timespan(&self) -> (r: TimeRange)
        requires
            self@.start is Some,
            self@.end is Some,
        ensures
            is_timespan_of(self@.start->0, self@.end->0, r),
    {
        get_timespan(self.start.as_ref(), self.end.as_ref())
    }
}

impl Validator for ReservationQuery {
    open spec fn validity(&self) -> Result<(), ErrorView> {
        self@.validity()
    }

    fn validate(&self) -> (r: Result<(), Error>) {
        validate_range(self.start.as_ref(), self.end.as_ref())
    }
}

impl Normalizer for ReservationQuery {
    open spec fn normalizes_to(&self, after: &Self) -> bool {
        after@ == self@.normal_form()
    }

    fn do_normalize(&mut self) {
        proof {
            use_type_invariant(&*self);
        }
        let user = match &self.user_id {
            Some(id) => str_to_option(id.as_str()).is_some(),
            None => false,
        };
        if !user {
            self.user_id = None;
        }
        let resource = match &self.resource_id {
            Some(id) => str_to_option(id.as_str()).is_some(),
            None => false,
        };
        if !resource {
            self.resource_id = None;
        }
        self.status = match ReservationStatus::from_i32(self.status) {
            Some(status) => status.as_i32(),
            None => ReservationStatus::Pending.as_i32(),
        };
    }
}

impl Default for ReservationQueryBuilder {
    fn default() -> (r: ReservationQueryBuilder)
        ensures
            r@ == QueryView::unset(),
    {
        ReservationQueryBuilder {
            resource_id: None,
            user_id: None,
            status: 0,
            start: None,
            end: None,
            page: 1,
            page_size: DEFAULT_PAGE_SIZE,
            desc: false,
        }
    }
}

impl ReservationQueryBuilder {
    /// Asks for the reservations of one user.
    pub fn user_id(self, value: &str) -> (r: ReservationQueryBuilder)
        ensures
            r@ == (QueryView { user_id: Some(value@), ..self@ }),
    {
        ReservationQueryBuilder { user_id: Some(value.to_owned()), ..self }
    }

    /// Asks for the reservations of one resource.
    pub fn resource_id(self, value: &str) -> (r: ReservationQueryBuilder)
        ensures
            r@ == (QueryView { resource_id: Some(value@), ..self@ }),
    {
        ReservationQueryBuilder { resource_id: Some(value.to_owned()), ..self }
    }

    /// Asks for the reservations of one status, given by its wire code.
    pub fn status(self, value: i32) -> (r: ReservationQueryBuilder)
        ensures
            r@ == (QueryView { status: value, ..self@ }),
    {
        ReservationQueryBuilder { status: value, ..self }
    }

    /// Sets the start of the window.
    pub fn start(self, value: Timestamp) -> (r: ReservationQueryBuilder)
        ensures
            r@ == (QueryView { start: Some(value), ..self@ }),
    {
        ReservationQueryBuilder { start: Some(value), ..self }
    }

    /// Sets the end of the window.
    pub fn end(self, value: Timestamp) -> (r: ReservationQueryBuilder)
        ensures
            r@ == (QueryView { end: Some(value), ..self@ }),
    {
        ReservationQueryBuilder { end: Some(value), ..self }
    }

    /// Sets the page, counted from 1.
    pub fn page(self, value: i32) -> (r: ReservationQueryBuilder)
        ensures
            r@ == (QueryView { page: value, ..self@ }),
    {
        ReservationQueryBuilder { page: value, ..self }
    }

    /// Sets the number of reservations on a page.
    pub fn page_size(self, value: i32) -> (r: ReservationQueryBuilder)
        ensures
            r@ == (QueryView { page_size: value, ..self@ }),
    {
        ReservationQueryBuilder { page_size: value, ..self }
    }

    /// Asks for the latest start first, or for the earliest first.
    pub fn desc(self, value: bool) -> (r: ReservationQueryBuilder)
        ensures
            r@ == (QueryView { desc: value, ..self@ }),
    {
        ReservationQueryBuilder { desc: value, ..self }
    }

    /// Makes the query, unless the page or the page size is below 1.
    pub fn build(self) -> (r: Result<ReservationQuery, ReservationQueryBuilderError>)
        ensures
            match r {
                Ok(query) => self@.checked() == Ok::<QueryView, ReservationQueryBuilderError>(
                    query@,
                ),
                Err(e) => self@.checked() == Err::<QueryView, ReservationQueryBuilderError>(e),
            },
    {
        if self.page < 1 {
            return Err(ReservationQueryBuilderError::InvalidPage(self.page));
        }
        if self.page_size < 1 {
            return Err(ReservationQueryBuilderError::InvalidPageSize(self.page_size));
        }
        Ok(
            ReservationQuery {
                resource_id: self.resource_id,
                user_id: self.user_id,
                status: self.status,
                start: self.start,
                end: self.end,
                page: self.page,
                page_size: self.page_size,
                desc: self.desc,
            },
        )
    }
}

} // verus!
