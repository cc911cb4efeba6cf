use reservation::{
    Error, Normalizer, ReservationQueryBuilder, ReservationQueryBuilderError, ReservationStatus,
    Timestamp,
};

#[test]
fn builder_starts_from_the_defaults() {
    let query = ReservationQueryBuilder::default().build().unwrap();
    assert_eq!(query.user_id(), None);
    assert_eq!(query.resource_id(), None);
    assert_eq!(query.status(), 0);
    assert_eq!(query.start(), None);
    assert_eq!(query.end(), None);
    assert_eq!(query.page(), 1);
    assert_eq!(query.page_size(), 10);
    assert!(!query.desc());
}

#[test]
fn builder_keeps_what_was_set() {
    let query = ReservationQueryBuilder::default()
        .user_id("shurid")
        .resource_id("ocean-view-room-777")
        .status(ReservationStatus::Confirmed as i32)
        .start(Timestamp { seconds: 10, nanos: 1 })
        .end(Timestamp { seconds: 20, nanos: 2 })
        .page(3)
        .page_size(25)
        .desc(true)
        .build()
        .unwrap();
    assert_eq!(query.user_id(), Some(&"shurid".to_string()));
    assert_eq!(query.resource_id(), Some(&"ocean-view-room-777".to_string()));
    assert_eq!(query.status(), 2);
    assert_eq!(query.start(), Some(Timestamp { seconds: 10, nanos: 1 }));
    assert_eq!(query.end(), Some(Timestamp { seconds: 20, nanos: 2 }));
    assert_eq!(query.page(), 3);
    assert_eq!(query.page_size(), 25);
    assert!(query.desc());
}

#[test]
fn builder_keeps_the_last_value_of_a_field() {
    let query = ReservationQueryBuilder::default()
        .user_id("first")
        .user_id("second")
        .page(2)
        .page(5)
        .build()
        .unwrap();
    assert_eq!(query.user_id(), Some(&"second".to_string()));
    assert_eq!(query.page(), 5);
}

#[test]
fn builder_keeps_an_empty_text_as_it_is() {
    let query = ReservationQueryBuilder::default().user_id("").build().unwrap();
    assert_eq!(query.user_id(), Some(&"".to_string()));
}

#[test]
fn builder_refuses_a_page_below_one() {
    let built = ReservationQueryBuilder::default().page(0).build();
    assert_eq!(built.unwrap_err(), ReservationQueryBuilderError::InvalidPage(0));
    let built = ReservationQueryBuilder::default().page(-3).build();
    assert_eq!(built.unwrap_err(), ReservationQueryBuilderError::InvalidPage(-3));
}

#[test]
fn builder_refuses_a_page_size_below_one() {
    let built = ReservationQueryBuilder::default().page_size(0).build();
    assert_eq!(built.unwrap_err(), ReservationQueryBuilderError::InvalidPageSize(0));
    let built = ReservationQueryBuilder::default().page_size(-1).build();
    assert_eq!(built.unwrap_err(), ReservationQueryBuilderError::InvalidPageSize(-1));
}

#[test]
fn builder_reports_the_page_before_the_page_size() {
    let built = ReservationQueryBuilder::default().page(0).page_size(0).build();
    assert_eq!(built.unwrap_err(), ReservationQueryBuilderError::InvalidPage(0));
}

#[test]
fn builder_accepts_the_smallest_and_largest_paging() {
    let query = ReservationQueryBuilder::default().page(1).page_size(1).build().unwrap();
    assert_eq!((query.page(), query.page_size()), (1, 1));
    let query =
        ReservationQueryBuilder::default().page(i32::MAX).page_size(i32::MAX).build().unwrap();
    assert_eq!((query.page(), query.page_size()), (i32::MAX, i32::MAX));
}

#[test]
fn valid_query_is_brought_into_its_normal_form() {
    let mut query = ReservationQueryBuilder::default()
        .user_id("")
        .resource_id("ocean-view-room-777")
        .status(9)
        .start(Timestamp { seconds: 1, nanos: 0 })
        .end(Timestamp { seconds: 2, nanos: 0 })
        .page(4)
        .page_size(7)
        .desc(true)
        .build()
        .unwrap();
    assert_eq!(query.normalize(), Ok(()));
    assert_eq!(query.user_id(), None);
    assert_eq!(query.resource_id(), Some(&"ocean-view-room-777".to_string()));
    assert_eq!(query.status(), ReservationStatus::Pending as i32);
    assert_eq!(query.start(), Some(Timestamp { seconds: 1, nanos: 0 }));
    assert_eq!(query.end(), Some(Timestamp { seconds: 2, nanos: 0 }));
    assert_eq!((query.page(), query.page_size(), query.desc()), (4, 7, true));
}

#[test]
fn normal_form_keeps_a_status_code_that_stands_for_a_status() {
    for code in 0..4 {
        let mut query = ReservationQueryBuilder::default()
            .status(code)
            .start(Timestamp { seconds: 1, nanos: 0 })
            .end(Timestamp { seconds: 2, nanos: 0 })
            .build()
            .unwrap();
        assert_eq!(query.normalize(), Ok(()));
        assert_eq!(query.status(), code);
    }
    for code in [-1, 4, i32::MIN, i32::MAX] {
        let mut query = ReservationQueryBuilder::default()
            .status(code)
            .start(Timestamp { seconds: 1, nanos: 0 })
            .end(Timestamp { seconds: 2, nanos: 0 })
            .build()
            .unwrap();
        assert_eq!(query.normalize(), Ok(()));
        assert_eq!(query.status(), 1);
    }
}

#[test]
fn invalid_query_is_left_as_it_is() {
    let mut query = ReservationQueryBuilder::default()
        .user_id("")
        .status(9)
        .start(Timestamp { seconds: 2, nanos: 0 })
        .end(Timestamp { seconds: 1, nanos: 0 })
        .build()
        .unwrap();
    assert_eq!(query.normalize(), Err(Error::InvalidTime));
    assert_eq!(query.user_id(), Some(&String::new()));
    assert_eq!(query.status(), 9);
}

#[test]
fn normalising_again_changes_nothing() {
    let mut query = ReservationQueryBuilder::default()
        .user_id("")
        .resource_id("r")
        .status(i32::MAX)
        .start(Timestamp { seconds: 1, nanos: 0 })
        .end(Timestamp { seconds: 2, nanos: 0 })
        .build()
        .unwrap();
    assert_eq!(query.normalize(), Ok(()));
    assert_eq!(query.normalize(), Ok(()));
    assert_eq!(query.user_id(), None);
    assert_eq!(query.resource_id(), Some(&"r".to_string()));
    assert_eq!(query.status(), 1);
}
