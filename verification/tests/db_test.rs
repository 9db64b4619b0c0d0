use cookie_jar::clock::{MAX_TIMESTAMP, MIN_TIMESTAMP};
use cookie_jar::db::{
    count_cookies_in_bucket, create_bucket, create_bucket_at, create_cookie, create_cookie_at,
    get_all_buckets, get_all_cookies, get_cookies_by_bucket, init_schema, DbError, Insertion,
    Lookup, SchemaSetup, Step, MAX_CONTENT_LEN,
};
use cookie_jar::models::{Bucket, Cookie};
use cookie_jar::sql::{
    ColumnProblem, Event, SqlValue, Statement, StatementKind, StoreFailure, Violation,
};

fn refused(code: i32, message: &str) -> StoreFailure {
    StoreFailure { code: Some(code), message: message.to_string() }
}

fn id_row(id: i64) -> Event {
    Event::Rows(vec![vec![SqlValue::Integer(id)]])
}

#[test]
fn init_schema_creates_buckets_then_cookies() {
    let (state, step) = init_schema(SchemaSetup::Start, Event::Begin);
    assert_eq!(state, SchemaSetup::CreatingBuckets);
    assert_eq!(step, Step::Send(Statement::CreateBucketsTable));
    let (state, step) = init_schema(state, Event::Executed(0));
    assert_eq!(state, SchemaSetup::CreatingCookies);
    assert_eq!(step, Step::Send(Statement::CreateCookiesTable));
    let (state, step) = init_schema(state, Event::Executed(0));
    assert_eq!(state, SchemaSetup::Finished);
    assert_eq!(step, Step::Done(Ok(())));
}

#[test]
fn init_schema_stops_at_the_first_failure() {
    let failure = StoreFailure { code: None, message: "unreachable".to_string() };
    let (state, step) = init_schema(SchemaSetup::CreatingBuckets, Event::Failed(failure.clone()));
    assert_eq!(state, SchemaSetup::Finished);
    assert_eq!(
        step,
        Step::Done(Err(DbError::Store {
            during: StatementKind::CreateBucketsTable,
            failure: failure.clone()
        }))
    );
    let (state, step) = init_schema(SchemaSetup::CreatingCookies, Event::Failed(failure.clone()));
    assert_eq!(state, SchemaSetup::Finished);
    assert_eq!(
        step,
        Step::Done(Err(DbError::Store { during: StatementKind::CreateCookiesTable, failure }))
    );
}

#[test]
fn create_bucket_inserts_then_asks_for_the_identifier() {
    let (state, step) = create_bucket_at("Work", 1_700_000_000, Insertion::Start, Event::Begin);
    assert_eq!(state, Insertion::Inserting { created_at: 1_700_000_000 });
    assert_eq!(
        step,
        Step::Send(Statement::InsertBucket {
            name: "Work".to_string(),
            created_at: 1_700_000_000
        })
    );
    let (state, step) = create_bucket_at("Work", 0, state, Event::Executed(1));
    assert_eq!(state, Insertion::FetchingId { created_at: 1_700_000_000 });
    assert_eq!(step, Step::Send(Statement::LastInsertRowid));
    let (state, step) = create_bucket_at("Work", 0, state, id_row(1));
    assert_eq!(state, Insertion::Finished);
    assert_eq!(
        step,
        Step::Done(Ok(Bucket { id: 1, name: "Work".to_string(), created_at: 1_700_000_000 }))
    );
}

#[test]
fn create_bucket_stamps_with_the_clock() {
    let (state, step) = create_bucket("Work", Insertion::Start, Event::Begin);
    let stamped = match state {
        Insertion::Inserting { created_at } => created_at,
        other => panic!("expected the insert to be out, got {:?}", other),
    };
    assert!(stamped > 1_600_000_000);
    assert!(MIN_TIMESTAMP <= stamped && stamped <= MAX_TIMESTAMP);
    assert_eq!(
        step,
        Step::Send(Statement::InsertBucket { name: "Work".to_string(), created_at: stamped })
    );
    let (state, _) = create_bucket("Work", state, Event::Executed(1));
    assert_eq!(state, Insertion::FetchingId { created_at: stamped });
    let (_, step) = create_bucket("Work", state, id_row(4));
    assert_eq!(
        step,
        Step::Done(Ok(Bucket { id: 4, name: "Work".to_string(), created_at: stamped }))
    );
}

#[test]
fn create_bucket_passes_a_refusal_on() {
    let failure = refused(2067, "UNIQUE constraint failed: buckets.name");
    let (state, step) = create_bucket_at(
        "Work",
        5,
        Insertion::Inserting { created_at: 5 },
        Event::Failed(failure.clone()),
    );
    assert_eq!(state, Insertion::Finished);
    match &step {
        Step::Done(Err(error)) => {
            assert_eq!(error.violation(), Some(Violation::Unique));
            assert_eq!(
                error.message(),
                "Failed to create bucket: UNIQUE constraint failed: buckets.name"
            );
        }
        other => panic!("expected a failure, got {:?}", other),
    }
    assert_eq!(
        step,
        Step::Done(Err(DbError::Store { during: StatementKind::InsertBucket, failure }))
    );
}

#[test]
fn create_bucket_without_identifier_is_a_consistency_error() {
    let (state, step) = create_bucket_at(
        "Work",
        5,
        Insertion::FetchingId { created_at: 5 },
        Event::Rows(vec![]),
    );
    assert_eq!(state, Insertion::Finished);
    assert_eq!(
        step,
        Step::Done(Err(DbError::MissingRowId { after: StatementKind::InsertBucket }))
    );
    match step {
        Step::Done(Err(error)) => {
            assert_eq!(error.message(), "Failed to get bucket ID after insert");
            assert_eq!(error.violation(), None);
        }
        _ => unreachable!(),
    }
}

#[test]
fn identifier_rows_of_the_wrong_shape_are_errors() {
    let state = Insertion::FetchingId { created_at: 5 };
    let (_, step) = create_bucket_at("Work", 5, state, Event::Rows(vec![vec![SqlValue::Null]]));
    assert_eq!(
        step,
        Step::Done(Err(DbError::Column { row: 0, index: 0, problem: ColumnProblem::Null }))
    );
    let (_, step) = create_cookie_at(
        1,
        "x",
        5,
        state,
        Event::Rows(vec![vec![SqlValue::Text("1".to_string())]]),
    );
    assert_eq!(
        step,
        Step::Done(Err(DbError::Column { row: 0, index: 0, problem: ColumnProblem::WrongType }))
    );
    let (_, step) = create_cookie_at(1, "x", 5, state, Event::Rows(vec![vec![]]));
    assert_eq!(
        step,
        Step::Done(Err(DbError::Column { row: 0, index: 0, problem: ColumnProblem::Missing }))
    );
    let failure = StoreFailure { code: None, message: "gone".to_string() };
    let (_, step) = create_cookie_at(1, "x", 5, state, Event::Failed(failure.clone()));
    assert_eq!(
        step,
        Step::Done(Err(DbError::Store { during: StatementKind::LastInsertRowid, failure }))
    );
}

#[test]
fn create_cookie_inserts_then_asks_for_the_identifier() {
    let (state, step) =
        create_cookie_at(1, "Shipped the release", 1_700_000_001, Insertion::Start, Event::Begin);
    assert_eq!(state, Insertion::Inserting { created_at: 1_700_000_001 });
    assert_eq!(
        step,
        Step::Send(Statement::InsertCookie {
            bucket_id: 1,
            content: "Shipped the release".to_string(),
            created_at: 1_700_000_001
        })
    );
    let (state, step) = create_cookie_at(1, "Shipped the release", 0, state, Event::Executed(1));
    assert_eq!(step, Step::Send(Statement::LastInsertRowid));
    let (state, step) = create_cookie_at(1, "Shipped the release", 0, state, id_row(1));
    assert_eq!(state, Insertion::Finished);
    assert_eq!(step, Step::Done(Ok(1)));
}

#[test]
fn scenario_content_of_301_characters_is_refused_before_any_write() {
    let content = "a".repeat(301);
    let (state, step) = create_cookie(1, &content, Insertion::Start, Event::Begin);
    assert_eq!(state, Insertion::Finished);
    assert_eq!(step, Step::Done(Err(DbError::ContentTooLong { length: 301 })));
    match step {
        Step::Done(Err(error)) => {
            assert_eq!(error.message(), "Cookie content must be 300 characters or less")
        }
        _ => unreachable!(),
    }
}

#[test]
fn content_of_300_characters_is_sent() {
    assert_eq!(MAX_CONTENT_LEN, 300);
    let content = "a".repeat(300);
    let (state, step) = create_cookie_at(2, &content, 7, Insertion::Start, Event::Begin);
    assert_eq!(state, Insertion::Inserting { created_at: 7 });
    assert_eq!(
        step,
        Step::Send(Statement::InsertCookie { bucket_id: 2, content, created_at: 7 })
    );
}

#[test]
fn content_is_measured_in_characters() {
    let fits = "é".repeat(300);
    assert_eq!(fits.len(), 600);
    let (state, _) = create_cookie_at(2, &fits, 7, Insertion::Start, Event::Begin);
    assert_eq!(state, Insertion::Inserting { created_at: 7 });
    let too_long = "é".repeat(301);
    let (state, step) = create_cookie_at(2, &too_long, 7, Insertion::Start, Event::Begin);
    assert_eq!(state, Insertion::Finished);
    assert_eq!(step, Step::Done(Err(DbError::ContentTooLong { length: 301 })));
}

#[test]
fn empty_content_is_sent() {
    let (state, step) = create_cookie_at(2, "", 7, Insertion::Start, Event::Begin);
    assert_eq!(state, Insertion::Inserting { created_at: 7 });
    assert_eq!(
        step,
        Step::Send(Statement::InsertCookie {
            bucket_id: 2,
            content: String::new(),
            created_at: 7
        })
    );
}

#[test]
fn create_cookie_passes_a_refusal_on() {
    let failure = refused(787, "FOREIGN KEY constraint failed");
    let (state, step) = create_cookie_at(
        999,
        "x",
        5,
        Insertion::Inserting { created_at: 5 },
        Event::Failed(failure.clone()),
    );
    assert_eq!(state, Insertion::Finished);
    match &step {
        Step::Done(Err(error)) => {
            assert_eq!(error.violation(), Some(Violation::ForeignKey));
            assert_eq!(error.message(), "Failed to create cookie: FOREIGN KEY constraint failed");
        }
        other => panic!("expected a failure, got {:?}", other),
    }
    assert_eq!(
        step,
        Step::Done(Err(DbError::Store { during: StatementKind::InsertCookie, failure }))
    );
    let (_, step) = create_cookie_at(
        1,
        "x",
        5,
        Insertion::FetchingId { created_at: 5 },
        Event::Rows(vec![]),
    );
    assert_eq!(
        step,
        Step::Done(Err(DbError::MissingRowId { after: StatementKind::InsertCookie }))
    );
    match step {
        Step::Done(Err(error)) => {
            assert_eq!(error.message(), "Failed to get cookie ID after insert")
        }
        _ => unreachable!(),
    }
}

#[test]
fn get_all_buckets_reads_the_rows_in_their_order() {
    let (state, step) = get_all_buckets(Lookup::Start, Event::Begin);
    assert_eq!(state, Lookup::Waiting);
    assert_eq!(step, Step::Send(Statement::SelectBuckets));
    let rows = vec![
        vec![SqlValue::Integer(2), SqlValue::Text("Home".to_string()), SqlValue::Integer(20)],
        vec![SqlValue::Integer(1), SqlValue::Text("Work".to_string()), SqlValue::Integer(10)],
    ];
    let (state, step) = get_all_buckets(state, Event::Rows(rows));
    assert_eq!(state, Lookup::Finished);
    assert_eq!(
        step,
        Step::Done(Ok(vec![
            Bucket { id: 2, name: "Home".to_string(), created_at: 20 },
            Bucket { id: 1, name: "Work".to_string(), created_at: 10 },
        ]))
    );
}

#[test]
fn an_empty_store_lists_nothing() {
    let (_, step) = get_all_buckets(Lookup::Waiting, Event::Rows(vec![]));
    assert_eq!(step, Step::Done(Ok(vec![])));
    let (_, step) = get_all_cookies(Lookup::Waiting, Event::Rows(vec![]));
    assert_eq!(step, Step::Done(Ok(vec![])));
    let (_, step) = get_cookies_by_bucket(5, Lookup::Waiting, Event::Rows(vec![]));
    assert_eq!(step, Step::Done(Ok(vec![])));
}

#[test]
fn a_listing_fails_on_its_first_bad_row() {
    let rows = vec![
        vec![SqlValue::Integer(2), SqlValue::Text("Home".to_string()), SqlValue::Integer(20)],
        vec![SqlValue::Integer(1), SqlValue::Null, SqlValue::Integer(10)],
        vec![SqlValue::Null, SqlValue::Null, SqlValue::Null],
    ];
    let (_, step) = get_all_buckets(Lookup::Waiting, Event::Rows(rows));
    assert_eq!(
        step,
        Step::Done(Err(DbError::Column { row: 1, index: 1, problem: ColumnProblem::Null }))
    );
    let rows = vec![vec![
        SqlValue::Integer(2),
        SqlValue::Integer(1),
        SqlValue::Text("x".to_string()),
        SqlValue::Text("yesterday".to_string()),
    ]];
    let (_, step) = get_all_cookies(Lookup::Waiting, Event::Rows(rows));
    assert_eq!(
        step,
        Step::Done(Err(DbError::Column { row: 0, index: 3, problem: ColumnProblem::WrongType }))
    );
    match step {
        Step::Done(Err(error)) => assert_eq!(error.message(), "invalid column type"),
        _ => unreachable!(),
    }
    let rows = vec![vec![SqlValue::Integer(2), SqlValue::Integer(1)]];
    let (_, step) = get_cookies_by_bucket(1, Lookup::Waiting, Event::Rows(rows));
    assert_eq!(
        step,
        Step::Done(Err(DbError::Column { row: 0, index: 2, problem: ColumnProblem::Missing }))
    );
}

#[test]
fn a_timestamp_beyond_the_calendar_is_read_as_the_epoch() {
    let rows = vec![vec![
        SqlValue::Integer(2),
        SqlValue::Integer(1),
        SqlValue::Text("x".to_string()),
        SqlValue::Integer(i64::MAX),
    ]];
    let (_, step) = get_all_cookies(Lookup::Waiting, Event::Rows(rows));
    assert_eq!(
        step,
        Step::Done(Ok(vec![Cookie {
            id: 2,
            bucket_id: 1,
            content: "x".to_string(),
            created_at: 0
        }]))
    );
}

#[test]
fn count_reads_the_first_row_and_is_zero_without_one() {
    let (state, step) = count_cookies_in_bucket(3, Lookup::Start, Event::Begin);
    assert_eq!(state, Lookup::Waiting);
    assert_eq!(step, Step::Send(Statement::CountCookies { bucket_id: 3 }));
    let (state, step) = count_cookies_in_bucket(3, state, id_row(12));
    assert_eq!(state, Lookup::Finished);
    assert_eq!(step, Step::Done(Ok(12)));
    let (_, step) = count_cookies_in_bucket(3, Lookup::Waiting, Event::Rows(vec![]));
    assert_eq!(step, Step::Done(Ok(0)));
    let (_, step) =
        count_cookies_in_bucket(3, Lookup::Waiting, Event::Rows(vec![vec![SqlValue::Null]]));
    assert_eq!(
        step,
        Step::Done(Err(DbError::Column { row: 0, index: 0, problem: ColumnProblem::Null }))
    );
}

#[test]
fn lookups_name_their_query() {
    let (_, step) = get_all_cookies(Lookup::Start, Event::Begin);
    assert_eq!(step, Step::Send(Statement::SelectCookies));
    let (_, step) = get_cookies_by_bucket(8, Lookup::Start, Event::Begin);
    assert_eq!(step, Step::Send(Statement::SelectCookiesInBucket { bucket_id: 8 }));
}

#[test]
fn a_failed_query_names_what_was_asked() {
    let failure = StoreFailure { code: None, message: "connection lost".to_string() };
    let (_, step) = get_all_buckets(Lookup::Waiting, Event::Failed(failure.clone()));
    match step {
        Step::Done(Err(error)) => {
            assert_eq!(error.message(), "Failed to query buckets: connection lost");
            assert_eq!(
                error,
                DbError::Store { during: StatementKind::SelectBuckets, failure: failure.clone() }
            );
        }
        other => panic!("expected a failure, got {:?}", other),
    }
    let (_, step) = get_all_cookies(Lookup::Waiting, Event::Failed(failure.clone()));
    match step {
        Step::Done(Err(error)) => {
            assert_eq!(error.message(), "Failed to query cookies: connection lost")
        }
        other => panic!("expected a failure, got {:?}", other),
    }
    let (_, step) = get_cookies_by_bucket(1, Lookup::Waiting, Event::Failed(failure.clone()));
    match step {
        Step::Done(Err(error)) => {
            assert_eq!(error.message(), "Failed to query cookies by bucket: connection lost")
        }
        other => panic!("expected a failure, got {:?}", other),
    }
    let (_, step) = count_cookies_in_bucket(1, Lookup::Waiting, Event::Failed(failure.clone()));
    match step {
        Step::Done(Err(error)) => assert_eq!(error.message(), "connection lost"),
        other => panic!("expected a failure, got {:?}", other),
    }
    let (_, step) = init_schema(SchemaSetup::CreatingBuckets, Event::Failed(failure.clone()));
    match step {
        Step::Done(Err(error)) => {
            assert_eq!(error.message(), "Failed to create buckets table: connection lost")
        }
        other => panic!("expected a failure, got {:?}", other),
    }
    let (_, step) = init_schema(SchemaSetup::CreatingCookies, Event::Failed(failure));
    match step {
        Step::Done(Err(error)) => {
            assert_eq!(error.message(), "Failed to create cookies table: connection lost")
        }
        other => panic!("expected a failure, got {:?}", other),
    }
}

#[test]
fn a_report_out_of_turn_ends_the_operation() {
    let (state, step) = get_all_buckets(Lookup::Start, Event::Executed(1));
    assert_eq!(state, Lookup::Finished);
    assert_eq!(step, Step::Done(Err(DbError::OutOfTurn)));
    let (state, step) = get_all_buckets(Lookup::Finished, Event::Begin);
    assert_eq!(state, Lookup::Finished);
    assert_eq!(step, Step::Done(Err(DbError::OutOfTurn)));
    let (state, step) = create_bucket_at("x", 1, Insertion::Start, Event::Rows(vec![]));
    assert_eq!(state, Insertion::Finished);
    assert_eq!(step, Step::Done(Err(DbError::OutOfTurn)));
    let (_, step) = create_cookie_at(1, "x", 1, Insertion::Inserting { created_at: 1 }, id_row(1));
    assert_eq!(step, Step::Done(Err(DbError::OutOfTurn)));
    let (state, step) = init_schema(SchemaSetup::Finished, Event::Executed(0));
    assert_eq!(state, SchemaSetup::Finished);
    assert_eq!(step, Step::Done(Err(DbError::OutOfTurn)));
    match step {
        Step::Done(Err(error)) => {
            assert_eq!(error.message(), "The operation was not waiting for this report")
        }
        _ => unreachable!(),
    }
}
