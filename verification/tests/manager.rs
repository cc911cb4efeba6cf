use reservation::{
    Diagnostic, Error, Reservation, ReservationConflict, ReservationConflictInfo,
    ReservationManager, ReservationQueryBuilder, ReservationRow, ReservationStatus,
    ReservationWindow, Rsvp, RsvpStatus, Statement, StorageFailure, TimeBound, TimeRange, Timestamp,
    ToSql, UtcDateTime,
};

fn instant(text: &str) -> UtcDateTime {
    let t: chrono::DateTime<chrono::FixedOffset> = text.parse().unwrap();
    UtcDateTime { seconds: t.timestamp(), nanos: t.timestamp_subsec_nanos() }
}

fn timestamp(text: &str) -> Timestamp {
    let t: prost_types::Timestamp = text.parse().unwrap();
    Timestamp { seconds: t.seconds, nanos: t.nanos }
}

fn shur_request() -> Reservation {
    Reservation::new_pending(
        "shurid",
        "ocean-view-room-777",
        instant("2025-05-13T15:00:00-0700"),
        instant("2025-05-15T12:00:00-0700"),
        "this is shur's reservation",
    )
}

fn shur_row(status: RsvpStatus, note: &str) -> ReservationRow {
    ReservationRow {
        id: "1".to_string(),
        user_id: "shurid".to_string(),
        resource_id: "ocean-view-room-777".to_string(),
        timespan: TimeRange {
            start: TimeBound::Included(instant("2025-05-13T15:00:00-0700")),
            end: TimeBound::Excluded(instant("2025-05-15T12:00:00-0700")),
        },
        note: note.to_string(),
        status,
    }
}

fn make_shur_reservation() -> (Reservation, ReservationManager) {
    let manager = ReservationManager::new();
    let rsvp = shur_request();
    manager.reserve(&rsvp).unwrap();
    let rsvp = manager.reserved(rsvp, Ok("1".to_string())).unwrap();
    (rsvp, manager)
}

fn exclusion_violation(detail: &str) -> StorageFailure {
    StorageFailure::Database(Diagnostic {
        code: "23P01".to_string(),
        message: "conflicting key value violates exclusion constraint \"reservations_conflict\""
            .to_string(),
        schema: Some("rsvp".to_string()),
        table: Some("reservations".to_string()),
        detail: Some(detail.to_string()),
    })
}

#[test]
fn reserve_should_work_for_valid_window() {
    let (rsvp, _) = make_shur_reservation();
    assert!(rsvp.id != "");
}

#[test]
fn reserve_conflict_reservation_should_reject() {
    let (_, manager) = make_shur_reservation();
    let someone = Reservation::new_pending(
        "somebody",
        "ocean-view-room-777",
        instant("2025-05-14T15:00:00-0700"),
        instant("2025-05-16T12:00:00-0700"),
        "test2",
    );
    manager.reserve(&someone).unwrap();
    let refusal = exclusion_violation("Key (resource_id, timespan)=(ocean-view-room-777, [\"2025-05-14 22:00:00+00\",\"2025-05-16 19:00:00+00\")) conflicts with existing key (resource_id, timespan)=(ocean-view-room-777, [\"2025-05-13 22:00:00+00\",\"2025-05-15 19:00:00+00\")).");

    let err = manager.reserved(someone, Err(refusal)).unwrap_err();

    let info = ReservationConflictInfo::Parsed(ReservationConflict {
        new: ReservationWindow {
            resource_id: "ocean-view-room-777".to_string(),
            start: instant("2025-05-14T15:00:00-0700"),
            end: instant("2025-05-16T12:00:00-0700"),
        },
        old: ReservationWindow {
            resource_id: "ocean-view-room-777".to_string(),
            start: instant("2025-05-13T15:00:00-0700"),
            end: instant("2025-05-15T12:00:00-0700"),
        },
    });

    assert_eq!(err, Error::ConflictReservation(info))
}

#[test]
fn reserve_change_status_should_work() {
    let (rsvp, manager) = make_shur_reservation();
    manager.change_status(rsvp.id).unwrap();
    let confirmed = shur_row(RsvpStatus::Confirmed, "this is shur's reservation");
    let rsvp = manager.returned(Ok(confirmed)).unwrap();
    assert_eq!(rsvp.status, ReservationStatus::Confirmed as i32);
}

#[test]
fn reserve_change_status_not_pending_should_do_nothging() {
    let (rsvp, manager) = make_shur_reservation();
    manager.change_status(rsvp.id).unwrap();
    let confirmed = shur_row(RsvpStatus::Confirmed, "this is shur's reservation");
    let rsvp = manager.returned(Ok(confirmed)).unwrap();

    // change status again should do nothing
    manager.change_status(rsvp.id).unwrap();
    let ret = manager.returned(Err(StorageFailure::RowNotFound)).unwrap_err();
    assert_eq!(ret, Error::NotFound);
}

#[test]
fn update_note_should_work() {
    let (rsvp, manager) = make_shur_reservation();
    let statement = manager.update_note(rsvp.id, "update note".into()).unwrap();
    let note = match statement {
        Statement::UpdateNote { id, note } => {
            assert_eq!(id, "1");
            note
        }
        other => panic!("{:?}", other),
    };
    let rsvp = manager.returned(Ok(shur_row(RsvpStatus::Pending, &note))).unwrap();

    assert_eq!(rsvp.note, "update note");
}

#[test]
fn get_reservation_should_work() {
    let (rsvp1, manager) = make_shur_reservation();
    manager.get(rsvp1.id.clone()).unwrap();
    let row = shur_row(RsvpStatus::Pending, "this is shur's reservation");
    let rsvp2 = manager.returned(Ok(row)).unwrap();

    assert_eq!(rsvp1, rsvp2);
}

#[test]
fn delete_reservation_should_work() {
    let (rsvp, manager) = make_shur_reservation();
    manager.delete(rsvp.id.clone()).unwrap();
    let row = shur_row(RsvpStatus::Pending, "this is shur's reservation");
    manager.deleted(Ok(row)).unwrap();
    manager.get(rsvp.id).unwrap();
    let rsvp1 = manager.returned(Err(StorageFailure::RowNotFound)).unwrap_err();
    assert_eq!(rsvp1, Error::NotFound);
}

#[test]
fn query_reservations_should_work() {
    let (rsvp, manager) = make_shur_reservation();
    let query = ReservationQueryBuilder::default()
        .user_id("shurid")
        .start(timestamp("2025-05-12T15:00:00-0700"))
        .end(timestamp("2025-05-15T12:00:00-0700"))
        .status(ReservationStatus::Pending as i32)
        .build()
        .unwrap();

    manager.query(query).unwrap();
    let rows = vec![shur_row(RsvpStatus::Pending, "this is shur's reservation")];
    let rsvps = manager.queried(Ok(rows)).unwrap();
    assert_eq!(rsvps.len(), 1);
    assert_eq!(rsvps[0], rsvp);

    let query = ReservationQueryBuilder::default()
        .user_id("shurid")
        .start(timestamp("2025-05-13T16:00:00-0700"))
        .end(timestamp("2025-05-15T12:00:00-0700"))
        .status(ReservationStatus::Pending as i32)
        .build()
        .unwrap();
    manager.query(query).unwrap();
    let rsvps = manager.queried(Ok(vec![])).unwrap();
    assert!(rsvps.is_empty());
}

#[test]
fn reserve_names_the_insertion_of_a_pending_row() {
    let manager = ReservationManager::new();
    let mut rsvp = shur_request();
    rsvp.status = ReservationStatus::Confirmed as i32;
    rsvp.id = "77".to_string();
    match manager.reserve(&rsvp).unwrap() {
        Statement::Insert { user_id, resource_id, timespan, note, status } => {
            assert_eq!(user_id, "shurid");
            assert_eq!(resource_id, "ocean-view-room-777");
            assert_eq!(note, "this is shur's reservation");
            assert_eq!(status, ReservationStatus::Pending);
            assert_eq!(
                timespan,
                TimeRange {
                    start: TimeBound::Included(UtcDateTime { seconds: 1_747_173_600, nanos: 0 }),
                    end: TimeBound::Excluded(UtcDateTime { seconds: 1_747_335_600, nanos: 0 }),
                }
            );
        }
        other => panic!("{:?}", other),
    }
}

#[test]
fn reserved_request_is_pending_under_the_new_identifier() {
    let manager = ReservationManager::new();
    let mut rsvp = shur_request();
    rsvp.status = ReservationStatus::Blocked as i32;
    let done = manager.reserved(rsvp.clone(), Ok("42".to_string())).unwrap();
    assert_eq!(done.id, "42");
    assert_eq!(done.status, ReservationStatus::Pending as i32);
    assert_eq!(done.user_id, rsvp.user_id);
    assert_eq!(done.resource_id, rsvp.resource_id);
    assert_eq!(done.start, rsvp.start);
    assert_eq!(done.end, rsvp.end);
    assert_eq!(done.note, rsvp.note);
}

#[test]
fn invalid_request_names_no_statement() {
    let manager = ReservationManager::new();
    let mut rsvp = shur_request();
    rsvp.user_id = String::new();
    assert_eq!(manager.reserve(&rsvp).unwrap_err(), Error::InvalidUserId(String::new()));
    let mut rsvp = shur_request();
    rsvp.resource_id = String::new();
    assert_eq!(manager.reserve(&rsvp).unwrap_err(), Error::InvalidResourceId(String::new()));
    let mut rsvp = shur_request();
    rsvp.end = rsvp.start;
    assert_eq!(manager.reserve(&rsvp).unwrap_err(), Error::InvalidTime);
    let mut rsvp = shur_request();
    std::mem::swap(&mut rsvp.start, &mut rsvp.end);
    assert_eq!(manager.reserve(&rsvp).unwrap_err(), Error::InvalidTime);
    let mut rsvp = shur_request();
    rsvp.start = None;
    assert_eq!(manager.reserve(&rsvp).unwrap_err(), Error::InvalidTime);
}

#[test]
fn failed_insertion_is_classified() {
    let manager = ReservationManager::new();
    let err = manager.reserved(shur_request(), Err(exclusion_violation("?"))).unwrap_err();
    assert_eq!(err, Error::ConflictReservation(ReservationConflictInfo::Unparsed("?".to_string())));
    let err = manager
        .reserved(shur_request(), Err(StorageFailure::Other("broken pipe".to_string())))
        .unwrap_err();
    assert!(matches!(err, Error::DbError(StorageFailure::Other(_))));
    let err = manager.reserved(shur_request(), Err(StorageFailure::RowNotFound)).unwrap_err();
    assert_eq!(err, Error::NotFound);
}

#[test]
fn empty_identifier_is_refused_before_storage_is_asked() {
    let manager = ReservationManager::new();
    let refused = Error::InvalidReservationId(String::new());
    assert_eq!(manager.change_status(String::new()).unwrap_err(), refused);
    assert_eq!(manager.update_note(String::new(), "note".to_string()).unwrap_err(), refused);
    assert_eq!(manager.get(String::new()).unwrap_err(), refused);
    assert_eq!(manager.delete(String::new()).unwrap_err(), refused);
}

#[test]
fn operations_on_an_identifier_name_their_statement() {
    let manager = ReservationManager::new();
    assert!(matches!(manager.change_status("7".to_string()).unwrap(),
        Statement::Confirm { id } if id == "7"));
    assert!(matches!(manager.update_note("7".to_string(), "n".to_string()).unwrap(),
        Statement::UpdateNote { id, note } if id == "7" && note == "n"));
    assert!(matches!(manager.update_note("7".to_string(), String::new()).unwrap(),
        Statement::UpdateNote { id, note } if id == "7" && note.is_empty()));
    assert!(matches!(manager.get("7".to_string()).unwrap(),
        Statement::Select { id } if id == "7"));
    assert!(matches!(manager.delete("7".to_string()).unwrap(),
        Statement::Delete { id } if id == "7"));
}

#[test]
fn row_is_read_as_its_reservation() {
    let manager = ReservationManager::new();
    let row = ReservationRow {
        id: "9".to_string(),
        user_id: "u".to_string(),
        resource_id: "r".to_string(),
        timespan: TimeRange {
            start: TimeBound::Included(UtcDateTime { seconds: 10, nanos: 1 }),
            end: TimeBound::Excluded(UtcDateTime { seconds: 20, nanos: 2 }),
        },
        note: "n".to_string(),
        status: RsvpStatus::Blocked,
    };
    let expected = Reservation {
        id: "9".to_string(),
        user_id: "u".to_string(),
        resource_id: "r".to_string(),
        start: Some(Timestamp { seconds: 10, nanos: 1 }),
        end: Some(Timestamp { seconds: 20, nanos: 2 }),
        note: "n".to_string(),
        status: 3,
    };
    assert_eq!(Reservation::from_row(&row), expected);
    assert_eq!(manager.returned(Ok(row.clone())).unwrap(), expected);
    assert_eq!(manager.deleted(Ok(row)), Ok(()));
}

#[test]
fn failed_round_trips_are_classified() {
    let manager = ReservationManager::new();
    assert_eq!(manager.returned(Err(StorageFailure::RowNotFound)).unwrap_err(), Error::NotFound);
    assert_eq!(manager.deleted(Err(StorageFailure::RowNotFound)).unwrap_err(), Error::NotFound);
    assert_eq!(manager.queried(Err(StorageFailure::RowNotFound)).unwrap_err(), Error::NotFound);
    let other = || StorageFailure::Other("timeout".to_string());
    assert!(matches!(manager.returned(Err(other())).unwrap_err(), Error::DbError(_)));
    assert!(matches!(manager.deleted(Err(other())).unwrap_err(), Error::DbError(_)));
    assert!(matches!(manager.queried(Err(other())).unwrap_err(), Error::DbError(_)));
}

#[test]
fn query_names_its_filters_page_and_order() {
    let manager = ReservationManager::new();
    let query = ReservationQueryBuilder::default()
        .user_id("shurid")
        .resource_id("")
        .status(ReservationStatus::Confirmed as i32)
        .start(Timestamp { seconds: 100, nanos: 0 })
        .end(Timestamp { seconds: 200, nanos: 0 })
        .page(3)
        .page_size(20)
        .desc(true)
        .build()
        .unwrap();
    match manager.query(query).unwrap() {
        Statement::Query { user_id, resource_id, timespan, status, page, desc, page_size } => {
            assert_eq!(user_id, Some("shurid".to_string()));
            assert_eq!(resource_id, None);
            assert_eq!(status, ReservationStatus::Confirmed);
            assert_eq!(
                timespan,
                TimeRange {
                    start: TimeBound::Included(UtcDateTime { seconds: 100, nanos: 0 }),
                    end: TimeBound::Excluded(UtcDateTime { seconds: 200, nanos: 0 }),
                }
            );
            assert_eq!(page, 3);
            assert_eq!(page_size, 20);
            assert!(desc);
        }
        other => panic!("{:?}", other),
    }
}

#[test]
fn query_takes_an_unknown_status_code_as_pending() {
    let manager = ReservationManager::new();
    let window = |builder: ReservationQueryBuilder| {
        builder
            .start(Timestamp { seconds: 100, nanos: 0 })
            .end(Timestamp { seconds: 200, nanos: 0 })
            .build()
            .unwrap()
    };
    let status_of = |statement: Statement| match statement {
        Statement::Query { status, user_id, resource_id, .. } => {
            assert_eq!(user_id, None);
            assert_eq!(resource_id, None);
            status
        }
        other => panic!("{:?}", other),
    };
    let query = window(ReservationQueryBuilder::default().status(17));
    assert_eq!(status_of(manager.query(query).unwrap()), ReservationStatus::Pending);
    let query = window(ReservationQueryBuilder::default());
    assert_eq!(status_of(manager.query(query).unwrap()), ReservationStatus::Unknown);
}

#[test]
fn query_without_a_proper_window_is_refused() {
    let manager = ReservationManager::new();
    let query = ReservationQueryBuilder::default().user_id("shurid").build().unwrap();
    assert_eq!(manager.query(query).unwrap_err(), Error::InvalidTime);
    let query = ReservationQueryBuilder::default()
        .start(Timestamp { seconds: 200, nanos: 0 })
        .end(Timestamp { seconds: 100, nanos: 0 })
        .build()
        .unwrap();
    assert_eq!(manager.query(query).unwrap_err(), Error::InvalidTime);
}

#[test]
fn rows_of_a_page_are_returned_in_their_order() {
    let manager = ReservationManager::new();
    let mut first = shur_row(RsvpStatus::Confirmed, "first");
    first.id = "5".to_string();
    let mut second = shur_row(RsvpStatus::Pending, "second");
    second.id = "3".to_string();
    let rsvps = manager.queried(Ok(vec![first, second])).unwrap();
    assert_eq!(rsvps.len(), 2);
    assert_eq!((rsvps[0].id.as_str(), rsvps[0].note.as_str(), rsvps[0].status), ("5", "first", 2));
    assert_eq!((rsvps[1].id.as_str(), rsvps[1].note.as_str(), rsvps[1].status), ("3", "second", 1));
}

#[test]
fn statements_are_written_in_sql() {
    let manager = ReservationManager::new();
    assert_eq!(
        manager.reserve(&shur_request()).unwrap().to_sql(),
        "INSERT INTO rsvp.reservations (user_id, resource_id, timespan, note, status) VALUES ($1, $2, $3, $4, $5::rsvp.reservation_status) RETURNING id"
    );
    assert_eq!(
        manager.change_status("1".to_string()).unwrap().to_sql(),
        "UPDATE rsvp.reservations SET status = 'confirmed' WHERE id = $1 AND status = 'pending' RETURNING *"
    );
    assert_eq!(
        manager.update_note("1".to_string(), "n".to_string()).unwrap().to_sql(),
        "UPDATE rsvp.reservations SET note = $1 WHERE id = $2 RETURNING *"
    );
    assert_eq!(
        manager.get("1".to_string()).unwrap().to_sql(),
        "SELECT * FROM rsvp.reservations WHERE id = $1"
    );
    assert_eq!(
        manager.delete("1".to_string()).unwrap().to_sql(),
        "DELETE FROM rsvp.reservations WHERE id = $1 RETURNING *"
    );
    let query = ReservationQueryBuilder::default()
        .start(Timestamp { seconds: 100, nanos: 0 })
        .end(Timestamp { seconds: 200, nanos: 0 })
        .build()
        .unwrap();
    assert_eq!(
        manager.query(query).unwrap().to_sql(),
        "SELECT * FROM rsvp.query($1, $2, $3, $4::rsvp.reservation_status, $5, $6, $7)"
    );
}

#[test]
fn empty_text_is_no_option() {
    assert_eq!(reservation::str_to_option(""), None);
    assert_eq!(reservation::str_to_option("a"), Some("a"));
    assert_eq!(reservation::str_to_option(" "), Some(" "));
}
