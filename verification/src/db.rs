//! The operations on the jar.
//!
//! An operation does not talk to the store. It is a function from where the
//! operation stands and what the driver reports, to where it stands next and
//! what the driver is to do: send a statement, or hand the result to the
//! caller. The driver starts with the operation's `Start` state and
//! `Event::Begin`, and calls again with each answer until it is handed
//! `Step::Done`.

use crate::clock::{representable, unix_now};
use crate::config::ConfigError;
use crate::models::{bucket_record, cookie_record, Bucket, BucketView, Cookie, CookieView};
use crate::sql::{
    get_integer, get_text, integer_at, text_at, ColumnProblem, Event, EventView, RowView, SqlValue,
    Statement, StatementKind, StatementView, StoreFailure, StoreFailureView,
};
use vstd::prelude::*;
use vstd::string::*;

verus! {

/// The most characters a cookie's content may have.
pub const MAX_CONTENT_LEN: usize = 300;

/// Seconds between two background synchronizations of the replica. They are
/// a safety net beside the synchronizations that the session orders.
pub const SYNC_INTERVAL_SECS: u64 = 60;

/// What is needed to open the replica.
#[derive(Debug, Clone, PartialEq, Eq)]
pub struct Database {
    /// Path of the local replica's file.
    pub local_path: String,
    /// The remote endpoint.
    pub url: String,
    /// The token that the remote endpoint asks for.
    pub auth_token: String,
    /// Seconds between two background synchronizations.
    pub sync_interval_secs: u64,
}

/// Mathematical counterpart of [`Database`].
pub struct DatabaseView {
    pub local_path: Seq<char>,
    pub url: Seq<char>,
    pub auth_token: Seq<char>,
    pub sync_interval_secs: u64,
}

impl DeepView for Database {
    type V = DatabaseView;

    open spec fn deep_view(&self) -> DatabaseView {
        DatabaseView {
            local_path: self.local_path@,
            url: self.url@,
            auth_token: self.auth_token@,
            sync_interval_secs: self.sync_interval_secs,
        }
    }
}

/// What `Database::new` makes of the path and of what the configuration
/// holds: both credentials are required, and the endpoint is looked at first.
pub open spec fn database_for(
    local_path: Seq<char>,
    url: Option<Seq<char>>,
    auth_token: Option<Seq<char>>,
) -> Result<DatabaseView, ConfigError> {
    match url {
        None => Err(ConfigError::MissingDatabaseUrl),
        Some(url) => match auth_token {
            None => Err(ConfigError::MissingAuthToken),
            Some(auth_token) => Ok(
                DatabaseView { local_path, url, auth_token, sync_interval_secs: SYNC_INTERVAL_SECS },
            ),
        },
    }
}

impl Database {
    /// Describes the replica at `local_path`, given what the configuration
    /// holds for the remote endpoint and its token.
    pub fn new(local_path: String, url: Option<String>, auth_token: Option<String>) -> (r: Result<
        Database,
        ConfigError,
    >)
        ensures
            match r {
                Ok(database) => database_for(local_path@, url.deep_view(), auth_token.deep_view())
                    == Ok::<DatabaseView, ConfigError>(database.deep_view()),
                Err(error) => database_for(local_path@, url.deep_view(), auth_token.deep_view())
                    == Err::<DatabaseView, ConfigError>(error),
            },
    {
        let url = match url {
            Some(url) => url,
            None => return Err(ConfigError::MissingDatabaseUrl),
        };
        let auth_token = match auth_token {
            Some(auth_token) => auth_token,
            None => return Err(ConfigError::MissingAuthToken),
        };
        Ok(Database { local_path, url, auth_token, sync_interval_secs: SYNC_INTERVAL_SECS })
    }
}

/// Why an operation did not give its result.
#[derive(Debug, Clone, PartialEq, Eq)]
pub enum DbError {
    /// The content has more characters than a cookie may hold. Nothing was
    /// sent to the store.
    ContentTooLong { length: usize },
    /// The store failed or refused a statement.
    Store { during: StatementKind, failure: StoreFailure },
    /// The insert went through, but the store named no row for it.
    MissingRowId { after: StatementKind },
    /// A row came back that does not fit the schema.
    Column { row: usize, index: usize, problem: ColumnProblem },
    /// The driver reported something that the operation was not waiting for.
    OutOfTurn,
}

/// Mathematical counterpart of [`DbError`].
pub enum DbErrorView {
    ContentTooLong { length: usize },
    Store { during: StatementKind, failure: StoreFailureView },
    MissingRowId { after: StatementKind },
    Column { row: usize, index: usize, problem: ColumnProblem },
    OutOfTurn,
}

impl DeepView for DbError {
    type V = DbErrorView;

    open spec fn deep_view(&self) -> DbErrorView {
        match self {
            DbError::ContentTooLong { length } => DbErrorView::ContentTooLong { length: *length },
            DbError::Store { during, failure } => DbErrorView::Store {
                during: *during,
                failure: failure.deep_view(),
            },
            DbError::MissingRowId { after } => DbErrorView::MissingRowId { after: *after },
            DbError::Column { row, index, problem } => DbErrorView::Column {
                row: *row,
                index: *index,
                problem: *problem,
            },
            DbError::OutOfTurn => DbErrorView::OutOfTurn,
        }
    }
}

/// What the driver is to do next.
#[derive(Debug, PartialEq, Eq)]
pub enum Step<T> {
    /// Send this statement and report what the store answers.
    Send(Statement),
    /// The operation is over; this is its result.
    Done(Result<T, DbError>),
}

/// Mathematical counterpart of [`Step`].
pub enum StepView<V> {
    Send(StatementView),
    Done(Result<V, DbErrorView>),
}

impl<T: DeepView> DeepView for Step<T> {
    type V = StepView<T::V>;

    open spec fn deep_view(&self) -> StepView<T::V> {
        match self {
            Step::Send(statement) => StepView::Send(statement.deep_view()),
            Step::Done(Ok(value)) => StepView::Done(Ok(value.deep_view())),
            Step::Done(Err(error)) => StepView::Done(Err(error.deep_view())),
        }
    }
}

/// Where an operation that inserts a row stands.
#[derive(Debug, Clone, Copy, PartialEq, Eq, Structural)]
pub enum Insertion {
    /// Nothing sent yet.
    Start,
    /// The insert is out; `created_at` is the timestamp it carries.
    Inserting { created_at: i64 },
    /// The insert went through and the row's identifier has been asked for.
    FetchingId { created_at: i64 },
    /// The result has been handed out.
    Finished,
}

/// Where an operation that runs one query stands.
#[derive(Debug, Clone, Copy, PartialEq, Eq, Structural)]
pub enum Lookup {
    /// Nothing sent yet.
    Start,
    /// The query is out.
    Waiting,
    /// The result has been handed out.
    Finished,
}

/// Where the creation of the tables stands.
#[derive(Debug, Clone, Copy, PartialEq, Eq, Structural)]
pub enum SchemaSetup {
    /// Nothing sent yet.
    Start,
    /// The statement for the buckets table is out.
    CreatingBuckets,
    /// The buckets table is there; the statement for the cookies table is out.
    CreatingCookies,
    /// The result has been handed out.
    Finished,
}

/// Whether a cookie may hold `content`.
pub open spec fn content_fits(content: Seq<char>) -> bool {
    content.len() <= MAX_CONTENT_LEN
}

/// The bucket that a row of the buckets table stands for. `at` is the row's
/// place in the result, for the error.
pub open spec fn bucket_of_row(row: RowView, at: usize) -> Result<BucketView, DbErrorView> {
    match integer_at(row, 0) {
        Err(problem) => Err(DbErrorView::Column { row: at, index: 0, problem }),
        Ok(id) => match text_at(row, 1) {
            Err(problem) => Err(DbErrorView::Column { row: at, index: 1, problem }),
            Ok(name) => match integer_at(row, 2) {
                Err(problem) => Err(DbErrorView::Column { row: at, index: 2, problem }),
                Ok(created_at) => Ok(bucket_record(id, name, created_at)),
            },
        },
    }
}

/// The cookie that a row of the cookies table stands for.
pub open spec fn cookie_of_row(row: RowView, at: usize) -> Result<CookieView, DbErrorView> {
    match integer_at(row, 0) {
        Err(problem) => Err(DbErrorView::Column { row: at, index: 0, problem }),
        Ok(id) => match integer_at(row, 1) {
            Err(problem) => Err(DbErrorView::Column { row: at, index: 1, problem }),
            Ok(bucket_id) => match text_at(row, 2) {
                Err(problem) => Err(DbErrorView::Column { row: at, index: 2, problem }),
                Ok(content) => match integer_at(row, 3) {
                    Err(problem) => Err(DbErrorView::Column { row: at, index: 3, problem }),
                    Ok(created_at) => Ok(cookie_record(id, bucket_id, content, created_at)),
                },
            },
        },
    }
}

/// The buckets that a result stands for, in the result's order; the error of
/// the first row that does not fit, if one does not.
pub open spec fn buckets_of_rows(rows: Seq<RowView>) -> Result<Seq<BucketView>, DbErrorView>
    decreases rows.len(),
{
    if rows.len() == 0 {
        Ok(Seq::empty())
    } else {
        match buckets_of_rows(rows.drop_last()) {
            Err(error) => Err(error),
            Ok(buckets) => match bucket_of_row(rows.last(), (rows.len() - 1) as usize) {
                Err(error) => Err(error),
                Ok(bucket) => Ok(buckets.push(bucket)),
            },
        }
    }
}

/// The cookies that a result stands for, in the result's order; the error of
/// the first row that does not fit, if one does not.
pub open spec fn cookies_of_rows(rows: Seq<RowView>) -> Result<Seq<CookieView>, DbErrorView>
    decreases rows.len(),
{
    if rows.len() == 0 {
        Ok(Seq::empty())
    } else {
        match cookies_of_rows(rows.drop_last()) {
            Err(error) => Err(error),
            Ok(cookies) => match cookie_of_row(rows.last(), (rows.len() - 1) as usize) {
                Err(error) => Err(error),
                Ok(cookie) => Ok(cookies.push(cookie)),
            },
        }
    }
}

/// The identifier that the answer to `SELECT last_insert_rowid()` names.
pub open spec fn inserted_id(rows: Seq<RowView>, after: StatementKind) -> Result<i64, DbErrorView> {
    if rows.len() == 0 {
        Err(DbErrorView::MissingRowId { after })
    } else {
        match integer_at(rows[0], 0) {
            Ok(id) => Ok(id),
            Err(problem) => Err(DbErrorView::Column { row: 0, index: 0, problem }),
        }
    }
}

/// The number that the answer to a count names: that of its first row, and
/// zero where the store gave no row.
pub open spec fn count_of_rows(rows: Seq<RowView>) -> Result<i64, DbErrorView> {
    if rows.len() == 0 {
        Ok(0)
    } else {
        match integer_at(rows[0], 0) {
            Ok(count) => Ok(count),
            Err(problem) => Err(DbErrorView::Column { row: 0, index: 0, problem }),
        }
    }
}

fn read_bucket(row: &Vec<SqlValue>, at: usize) -> (r: Result<Bucket, DbError>)
    ensures
        match r {
            Ok(bucket) => bucket_of_row(row.deep_view(), at) == Ok::<BucketView, DbErrorView>(
                bucket.deep_view(),
            ),
            Err(error) => bucket_of_row(row.deep_view(), at) == Err::<BucketView, DbErrorView>(
                error.deep_view(),
            ),
        },
{
    let id: i64 = match get_integer(row, 0) {
        Ok(id) => id,
        Err(problem) => return Err(DbError::Column { row: at, index: 0, problem }),
    };
    let name = match get_text(row, 1) {
        Ok(name) => name,
        Err(problem) => return Err(DbError::Column { row: at, index: 1, problem }),
    };
    let created_at: i64 = match get_integer(row, 2) {
        Ok(created_at) => created_at,
        Err(problem) => return Err(DbError::Column { row: at, index: 2, problem }),
    };
    Ok(Bucket::new(id, name, created_at))
}

fn read_cookie(row: &Vec<SqlValue>, at: usize) -> (r: Result<Cookie, DbError>)
    ensures
        match r {
            Ok(cookie) => cookie_of_row(row.deep_view(), at) == Ok::<CookieView, DbErrorView>(
                cookie.deep_view(),
            ),
            Err(error) => cookie_of_row(row.deep_view(), at) == Err::<CookieView, DbErrorView>(
                error.deep_view(),
            ),
        },
{
    let id: i64 = match get_integer(row, 0) {
        Ok(id) => id,
        Err(problem) => return Err(DbError::Column { row: at, index: 0, problem }),
    };
    let bucket_id: i64 = match get_integer(row, 1) {
        Ok(bucket_id) => bucket_id,
        Err(problem) => return Err(DbError::Column { row: at, index: 1, problem }),
    };
    let content = match get_text(row, 2) {
        Ok(content) => content,
        Err(problem) => return Err(DbError::Column { row: at, index: 2, problem }),
    };
    let created_at: i64 = match get_integer(row, 3) {
        Ok(created_at) => created_at,
        Err(problem) => return Err(DbError::Column { row: at, index: 3, problem }),
    };
    Ok(Cookie::new(id, bucket_id, content, created_at))
}

proof fn lemma_bucket_error_stays(rows: Seq<RowView>, k: int)
    requires
        0 <= k <= rows.len(),
        buckets_of_rows(rows.take(k)) is Err,
    ensures
        buckets_of_rows(rows) == buckets_of_rows(rows.take(k)),
    decreases rows.len() - k,
{
    if k == rows.len() {
        assert(rows.take(k) =~= rows);
    } else {
        assert(rows.take(k + 1).drop_last() =~= rows.take(k));
        lemma_bucket_error_stays(rows, k + 1);
    }
}

proof fn lemma_cookie_error_stays(rows: Seq<RowView>, k: int)
    requires
        0 <= k <= rows.len(),
        cookies_of_rows(rows.take(k)) is Err,
    ensures
        cookies_of_rows(rows) == cookies_of_rows(rows.take(k)),
    decreases rows.len() - k,
{
    if k == rows.len() {
        assert(rows.take(k) =~= rows);
    } else {
        assert(rows.take(k + 1).drop_last() =~= rows.take(k));
        lemma_cookie_error_stays(rows, k + 1);
    }
}

fn read_buckets(rows: &Vec<Vec<SqlValue>>) -> (r: Result<Vec<Bucket>, DbError>)
    ensures
        match r {
            Ok(buckets) => buckets_of_rows(rows.deep_view()) == Ok::<Seq<BucketView>, DbErrorView>(
                buckets.deep_view(),
            ),
            Err(error) => buckets_of_rows(rows.deep_view()) == Err::<Seq<BucketView>, DbErrorView>(
                error.deep_view(),
            ),
        },
{
    let mut out: Vec<Bucket> = Vec::new();
    let mut i: usize = 0;
    assert(rows.deep_view().take(0) =~= Seq::<RowView>::empty());
    assert(out.deep_view() =~= Seq::<BucketView>::empty());
    while i < rows.len()
        invariant
            i <= rows.len(),
            buckets_of_rows(rows.deep_view().take(i as int)) == Ok::<Seq<BucketView>, DbErrorView>(
                out.deep_view(),
            ),
        decreases rows.len() - i,
    {
        let ghost all = rows.deep_view();
        let ghost before = out.deep_view();
        proof {
            assert(all.take(i + 1).drop_last() =~= all.take(i as int));
            assert(all.take(i + 1).last() == rows[i as int].deep_view());
        }
        match read_bucket(&rows[i], i) {
            Ok(bucket) => {
                out.push(bucket);
                assert(out.deep_view() =~= before.push(bucket.deep_view()));
            },
            Err(error) => {
                proof {
                    lemma_bucket_error_stays(all, i + 1);
                }
                return Err(error);
            },
        }
        i += 1;
    }
    assert(rows.deep_view().take(i as int) =~= rows.deep_view());
    Ok(out)
}

fn read_cookies(rows: &Vec<Vec<SqlValue>>) -> (r: Result<Vec<Cookie>, DbError>)
    ensures
        match r {
            Ok(cookies) => cookies_of_rows(rows.deep_view()) == Ok::<Seq<CookieView>, DbErrorView>(
                cookies.deep_view(),
            ),
            Err(error) => cookies_of_rows(rows.deep_view()) == Err::<Seq<CookieView>, DbErrorView>(
                error.deep_view(),
            ),
        },
{
    let mut out: Vec<Cookie> = Vec::new();
    let mut i: usize = 0;
    assert(rows.deep_view().take(0) =~= Seq::<RowView>::empty());
    assert(out.deep_view() =~= Seq::<CookieView>::empty());
    while i < rows.len()
        invariant
            i <= rows.len(),
            cookies_of_rows(rows.deep_view().take(i as int)) == Ok::<Seq<CookieView>, DbErrorView>(
                out.deep_view(),
            ),
        decreases rows.len() - i,
    {
        let ghost all = rows.deep_view();
        let ghost before = out.deep_view();
        proof {
            assert(all.take(i + 1).drop_last() =~= all.take(i as int));
            assert(all.take(i + 1).last() == rows[i as int].deep_view());
        }
        match read_cookie(&rows[i], i) {
            Ok(cookie) => {
                out.push(cookie);
                assert(out.deep_view() =~= before.push(cookie.deep_view()));
            },
            Err(error) => {
                proof {
                    lemma_cookie_error_stays(all, i + 1);
                }
                return Err(error);
            },
        }
        i += 1;
    }
    assert(rows.deep_view().take(i as int) =~= rows.deep_view());
    Ok(out)
}

fn read_first_integer(rows: &Vec<Vec<SqlValue>>) -> (r: Result<i64, ColumnProblem>)
    requires
        rows.len() > 0,
    ensures
        r == integer_at(rows.deep_view()[0], 0),
{
    get_integer(&rows[0], 0)
}

/// One step of `init_schema`: the two tables are created in turn, buckets
/// first, and the first failure ends the operation.
pub open spec fn init_schema_step(state: SchemaSetup, event: EventView) -> (
    SchemaSetup,
    StepView<()>,
) {
    match (state, event) {
        (SchemaSetup::Start, EventView::Begin) => (
            SchemaSetup::CreatingBuckets,
            StepView::Send(StatementView::CreateBucketsTable),
        ),
        (SchemaSetup::CreatingBuckets, EventView::Executed(_)) => (
            SchemaSetup::CreatingCookies,
            StepView::Send(StatementView::CreateCookiesTable),
        ),
        (SchemaSetup::CreatingBuckets, EventView::Failed(failure)) => (
            SchemaSetup::Finished,
            StepView::Done(
                Err(DbErrorView::Store { during: StatementKind::CreateBucketsTable, failure }),
            ),
        ),
        (SchemaSetup::CreatingCookies, EventView::Executed(_)) => (
            SchemaSetup::Finished,
            StepView::Done(Ok(())),
        ),
        (SchemaSetup::CreatingCookies, EventView::Failed(failure)) => (
            SchemaSetup::Finished,
            StepView::Done(
                Err(DbErrorView::Store { during: StatementKind::CreateCookiesTable, failure }),
            ),
        ),
        _ => (SchemaSetup::Finished, StepView::Done(Err(DbErrorView::OutOfTurn))),
    }
}

/// One step of `create_bucket`, for a clock that shows `now`: the row is
/// inserted with that timestamp, then the identifier the store gave it is
/// asked for, and the bucket is made of the three.
pub open spec fn create_bucket_step(
    name: Seq<char>,
    now: i64,
    state: Insertion,
    event: EventView,
) -> (Insertion, StepView<BucketView>) {
    match (state, event) {
        (Insertion::Start, EventView::Begin) => (
            Insertion::Inserting { created_at: now },
            StepView::Send(StatementView::InsertBucket { name, created_at: now }),
        ),
        (Insertion::Inserting { created_at }, EventView::Executed(_)) => (
            Insertion::FetchingId { created_at },
            StepView::Send(StatementView::LastInsertRowid),
        ),
        (Insertion::Inserting { .. }, EventView::Failed(failure)) => (
            Insertion::Finished,
            StepView::Done(Err(DbErrorView::Store { during: StatementKind::InsertBucket, failure })),
        ),
        (Insertion::FetchingId { created_at }, EventView::Rows(rows)) => (
            Insertion::Finished,
            StepView::Done(
                match inserted_id(rows, StatementKind::InsertBucket) {
                    Ok(id) => Ok(bucket_record(id, name, created_at)),
                    Err(error) => Err(error),
                },
            ),
        ),
        (Insertion::FetchingId { .. }, EventView::Failed(failure)) => (
            Insertion::Finished,
            StepView::Done(
                Err(DbErrorView::Store { during: StatementKind::LastInsertRowid, failure }),
            ),
        ),
        _ => (Insertion::Finished, StepView::Done(Err(DbErrorView::OutOfTurn))),
    }
}

/// One step of `create_cookie`, for a clock that shows `now`: content that
/// does not fit ends the operation before anything is sent; otherwise the row
/// is inserted and the identifier the store gave it is the result.
pub open spec fn create_cookie_step(
    bucket_id: i64,
    content: Seq<char>,
    now: i64,
    state: Insertion,
    event: EventView,
) -> (Insertion, StepView<i64>) {
    match (state, event) {
        (Insertion::Start, EventView::Begin) => if content_fits(content) {
            (
                Insertion::Inserting { created_at: now },
                StepView::Send(StatementView::InsertCookie { bucket_id, content, created_at: now }),
            )
        } else {
            (
                Insertion::Finished,
                StepView::Done(Err(DbErrorView::ContentTooLong { length: content.len() as usize })),
            )
        },
        (Insertion::Inserting { created_at }, EventView::Executed(_)) => (
            Insertion::FetchingId { created_at },
            StepView::Send(StatementView::LastInsertRowid),
        ),
        (Insertion::Inserting { .. }, EventView::Failed(failure)) => (
            Insertion::Finished,
            StepView::Done(Err(DbErrorView::Store { during: StatementKind::InsertCookie, failure })),
        ),
        (Insertion::FetchingId { .. }, EventView::Rows(rows)) => (
            Insertion::Finished,
            StepView::Done(inserted_id(rows, StatementKind::InsertCookie)),
        ),
        (Insertion::FetchingId { .. }, EventView::Failed(failure)) => (
            Insertion::Finished,
            StepView::Done(
                Err(DbErrorView::Store { during: StatementKind::LastInsertRowid, failure }),
            ),
        ),
        _ => (Insertion::Finished, StepView::Done(Err(DbErrorView::OutOfTurn))),
    }
}

/// One step of an operation that sends `query` and makes its result of the
/// rows with `read`.
pub open spec fn lookup_step<V>(
    query: StatementView,
    read: spec_fn(Seq<RowView>) -> Result<V, DbErrorView>,
    state: Lookup,
    event: EventView,
) -> (Lookup, StepView<V>) {
    match (state, event) {
        (Lookup::Start, EventView::Begin) => (Lookup::Waiting, StepView::Send(query)),
        (Lookup::Waiting, EventView::Rows(rows)) => (Lookup::Finished, StepView::Done(read(rows))),
        (Lookup::Waiting, EventView::Failed(failure)) => (
            Lookup::Finished,
            StepView::Done(Err(DbErrorView::Store { during: query.kind(), failure })),
        ),
        _ => (Lookup::Finished, StepView::Done(Err(DbErrorView::OutOfTurn))),
    }
}

/// One step of `get_all_buckets`.
pub open spec fn get_all_buckets_step(state: Lookup, event: EventView) -> (
    Lookup,
    StepView<Seq<BucketView>>,
) {
    lookup_step(
        StatementView::SelectBuckets,
        |rows: Seq<RowView>| buckets_of_rows(rows),
        state,
        event,
    )
}

/// One step of `count_cookies_in_bucket`.
pub open spec fn count_cookies_in_bucket_step(bucket_id: i64, state: Lookup, event: EventView) -> (
    Lookup,
    StepView<i64>,
) {
    lookup_step(
        StatementView::CountCookies { bucket_id },
        |rows: Seq<RowView>| count_of_rows(rows),
        state,
        event,
    )
}

/// One step of `get_all_cookies`.
pub open spec fn get_all_cookies_step(state: Lookup, event: EventView) -> (
    Lookup,
    StepView<Seq<CookieView>>,
) {
    lookup_step(
        StatementView::SelectCookies,
        |rows: Seq<RowView>| cookies_of_rows(rows),
        state,
        event,
    )
}

/// One step of `get_cookies_by_bucket`.
pub open spec fn get_cookies_by_bucket_step(bucket_id: i64, state: Lookup, event: EventView) -> (
    Lookup,
    StepView<Seq<CookieView>>,
) {
    lookup_step(
        StatementView::SelectCookiesInBucket { bucket_id },
        |rows: Seq<RowView>| cookies_of_rows(rows),
        state,
        event,
    )
}

/// Creates the two tables where they do not exist yet.
pub fn init_schema(state: SchemaSetup, event: Event) -> (r: (SchemaSetup, Step<()>))
    ensures
        (r.0, r.1.deep_view()) == init_schema_step(state, event.deep_view()),
{
    match (state, event) {
        (SchemaSetup::Start, Event::Begin) => (
            SchemaSetup::CreatingBuckets,
            Step::Send(Statement::CreateBucketsTable),
        ),
        (SchemaSetup::CreatingBuckets, Event::Executed(_)) => (
            SchemaSetup::CreatingCookies,
            Step::Send(Statement::CreateCookiesTable),
        ),
        (SchemaSetup::CreatingBuckets, Event::Failed(failure)) => (
            SchemaSetup::Finished,
            Step::Done(Err(DbError::Store { during: StatementKind::CreateBucketsTable, failure })),
        ),
        (SchemaSetup::CreatingCookies, Event::Executed(_)) => (
            SchemaSetup::Finished,
            Step::Done(Ok(())),
        ),
        (SchemaSetup::CreatingCookies, Event::Failed(failure)) => (
            SchemaSetup::Finished,
            Step::Done(Err(DbError::Store { during: StatementKind::CreateCookiesTable, failure })),
        ),
        _ => (SchemaSetup::Finished, Step::Done(Err(DbError::OutOfTurn))),
    }
}

/// `create_bucket` for a given reading of the clock.
pub fn create_bucket_at(name: &str, now: i64, state: Insertion, event: Event) -> (r: (
    Insertion,
    Step<Bucket>,
))
    ensures
        (r.0, r.1.deep_view()) == create_bucket_step(name@, now, state, event.deep_view()),
{
    match (state, event) {
        (Insertion::Start, Event::Begin) => (
            Insertion::Inserting { created_at: now },
            Step::Send(Statement::InsertBucket { name: name.to_owned(), created_at: now }),
        ),
        (Insertion::Inserting { created_at }, Event::Executed(_)) => (
            Insertion::FetchingId { created_at },
            Step::Send(Statement::LastInsertRowid),
        ),
        (Insertion::Inserting { .. }, Event::Failed(failure)) => (
            Insertion::Finished,
            Step::Done(Err(DbError::Store { during: StatementKind::InsertBucket, failure })),
        ),
        (Insertion::FetchingId { created_at }, Event::Rows(rows)) => {
            if rows.len() == 0 {
                return (
                    Insertion::Finished,
                    Step::Done(Err(DbError::MissingRowId { after: StatementKind::InsertBucket })),
                );
            }
            let result = match read_first_integer(&rows) {
                Ok(id) => Ok(Bucket::new(id, name.to_owned(), created_at)),
                Err(problem) => Err(DbError::Column { row: 0, index: 0, problem }),
            };
            (Insertion::Finished, Step::Done(result))
        },
        (Insertion::FetchingId { .. }, Event::Failed(failure)) => (
            Insertion::Finished,
            Step::Done(Err(DbError::Store { during: StatementKind::LastInsertRowid, failure })),
        ),
        _ => (Insertion::Finished, Step::Done(Err(DbError::OutOfTurn))),
    }
}

/// Whether a step of `create_bucket` stamps a row: only the first step does.
pub open spec fn create_bucket_stamps(state: Insertion, event: EventView) -> bool {
    state is Start && event is Begin
}

/// Creates a bucket named `name`, stamped with the current time, and gives it
/// back with the identifier that the store assigned.
///
/// The clock is read only for the step that stamps the row. Which timestamp
/// it gives is not known beforehand: that step is the one of
/// `create_bucket_at` for some instant of the calendar. Every other step is
/// the same whatever the clock shows.
pub fn create_bucket(name: &str, state: Insertion, event: Event) -> (r: (Insertion, Step<Bucket>))
    ensures
        exists|now: i64|
            representable(now) && (r.0, r.1.deep_view()) == #[trigger] create_bucket_step(
                name@,
                now,
                state,
                event.deep_view(),
            ),
        !create_bucket_stamps(state, event.deep_view()) ==> forall|now: i64|
            (r.0, r.1.deep_view()) == #[trigger] create_bucket_step(
                name@,
                now,
                state,
                event.deep_view(),
            ),
{
    let stamps = match (state, &event) {
        (Insertion::Start, Event::Begin) => true,
        _ => false,
    };
    let now: i64 = if stamps {
        unix_now()
    } else {
        0
    };
    create_bucket_at(name, now, state, event)
}

/// `create_cookie` for a given reading of the clock.
pub fn create_cookie_at(
    bucket_id: i64,
    content: &str,
    now: i64,
    state: Insertion,
    event: Event,
) -> (r: (Insertion, Step<i64>))
    ensures
        (r.0, r.1.deep_view()) == create_cookie_step(
            bucket_id,
            content@,
            now,
            state,
            event.deep_view(),
        ),
{
    match (state, event) {
        (Insertion::Start, Event::Begin) => {
            let length: usize = content.unicode_len();
            if length > MAX_CONTENT_LEN {
                (Insertion::Finished, Step::Done(Err(DbError::ContentTooLong { length })))
            } else {
                (
                    Insertion::Inserting { created_at: now },
                    Step::Send(
                        Statement::InsertCookie {
                            bucket_id,
                            content: content.to_owned(),
                            created_at: now,
                        },
                    ),
                )
            }
        },
        (Insertion::Inserting { created_at }, Event::Executed(_)) => (
            Insertion::FetchingId { created_at },
            Step::Send(Statement::LastInsertRowid),
        ),
        (Insertion::Inserting { .. }, Event::Failed(failure)) => (
            Insertion::Finished,
            Step::Done(Err(DbError::Store { during: StatementKind::InsertCookie, failure })),
        ),
        (Insertion::FetchingId { .. }, Event::Rows(rows)) => {
            if rows.len() == 0 {
                return (
                    Insertion::Finished,
                    Step::Done(Err(DbError::MissingRowId { after: StatementKind::InsertCookie })),
                );
            }
            let result = match read_first_integer(&rows) {
                Ok(id) => Ok(id),
                Err(problem) => Err(DbError::Column { row: 0, index: 0, problem }),
            };
            (Insertion::Finished, Step::Done(result))
        },
        (Insertion::FetchingId { .. }, Event::Failed(failure)) => (
            Insertion::Finished,
            Step::Done(Err(DbError::Store { during: StatementKind::LastInsertRowid, failure })),
        ),
        _ => (Insertion::Finished, Step::Done(Err(DbError::OutOfTurn))),
    }
}

/// Whether a step of `create_cookie` stamps a row: only the first step
/// does, and only for content that fits.
pub open spec fn create_cookie_stamps(content: Seq<char>, state: Insertion, event: EventView) -> bool {
    state is Start && event is Begin && content_fits(content)
}

/// Creates a cookie in bucket `bucket_id`, stamped with the current time, and
/// gives back the identifier that the store assigned. Content of more than
/// `MAX_CONTENT_LEN` characters is refused before anything else is done.
///
/// The clock is read only for the step that stamps the row, after the
/// content has been found to fit. Which timestamp it gives is not known
/// beforehand: that step is the one of `create_cookie_at` for some instant of
/// the calendar. Every other step is the same whatever the clock shows.
pub fn create_cookie(bucket_id: i64, content: &str, state: Insertion, event: Event) -> (r: (
    Insertion,
    Step<i64>,
))
    ensures
        exists|now: i64|
            representable(now) && (r.0, r.1.deep_view()) == #[trigger] create_cookie_step(
                bucket_id,
                content@,
                now,
                state,
                event.deep_view(),
            ),
        !create_cookie_stamps(content@, state, event.deep_view()) ==> forall|now: i64|
            (r.0, r.1.deep_view()) == #[trigger] create_cookie_step(
                bucket_id,
                content@,
                now,
                state,
                event.deep_view(),
            ),
{
    let stamps = match (state, &event) {
        (Insertion::Start, Event::Begin) => content.unicode_len() <= MAX_CONTENT_LEN,
        _ => false,
    };
    let now: i64 = if stamps {
        unix_now()
    } else {
        0
    };
    create_cookie_at(bucket_id, content, now, state, event)
}

/// Lists all buckets, ordered by name.
pub fn get_all_buckets(state: Lookup, event: Event) -> (r: (Lookup, Step<Vec<Bucket>>))
    ensures
        (r.0, r.1.deep_view()) == get_all_buckets_step(state, event.deep_view()),
{
    match (state, event) {
        (Lookup::Start, Event::Begin) => (Lookup::Waiting, Step::Send(Statement::SelectBuckets)),
        (Lookup::Waiting, Event::Rows(rows)) => (Lookup::Finished, Step::Done(read_buckets(&rows))),
        (Lookup::Waiting, Event::Failed(failure)) => (
            Lookup::Finished,
            Step::Done(Err(DbError::Store { during: StatementKind::SelectBuckets, failure })),
        ),
        _ => (Lookup::Finished, Step::Done(Err(DbError::OutOfTurn))),
    }
}

/// Counts the cookies of bucket `bucket_id`. A bucket that does not exist has
/// none.
pub fn count_cookies_in_bucket(bucket_id: i64, state: Lookup, event: Event) -> (r: (
    Lookup,
    Step<i64>,
))
    ensures
        (r.0, r.1.deep_view()) == count_cookies_in_bucket_step(bucket_id, state, event.deep_view()),
{
    match (state, event) {
        (Lookup::Start, Event::Begin) => (
            Lookup::Waiting,
            Step::Send(Statement::CountCookies { bucket_id }),
        ),
        (Lookup::Waiting, Event::Rows(rows)) => {
            if rows.len() == 0 {
                return (Lookup::Finished, Step::Done(Ok(0)));
            }
            let result = match read_first_integer(&rows) {
                Ok(count) => Ok(count),
                Err(problem) => Err(DbError::Column { row: 0, index: 0, problem }),
            };
            (Lookup::Finished, Step::Done(result))
        },
        (Lookup::Waiting, Event::Failed(failure)) => (
            Lookup::Finished,
            Step::Done(Err(DbError::Store { during: StatementKind::CountCookies, failure })),
        ),
        _ => (Lookup::Finished, Step::Done(Err(DbError::OutOfTurn))),
    }
}

/// Lists all cookies, newest first.
pub fn get_all_cookies(state: Lookup, event: Event) -> (r: (Lookup, Step<Vec<Cookie>>))
    ensures
        (r.0, r.1.deep_view()) == get_all_cookies_step(state, event.deep_view()),
{
    match (state, event) {
        (Lookup::Start, Event::Begin) => (Lookup::Waiting, Step::Send(Statement::SelectCookies)),
        (Lookup::Waiting, Event::Rows(rows)) => (Lookup::Finished, Step::Done(read_cookies(&rows))),
        (Lookup::Waiting, Event::Failed(failure)) => (
            Lookup::Finished,
            Step::Done(Err(DbError::Store { during: StatementKind::SelectCookies, failure })),
        ),
        _ => (Lookup::Finished, Step::Done(Err(DbError::OutOfTurn))),
    }
}

/// Lists the cookies of bucket `bucket_id`, newest first.
pub fn get_cookies_by_bucket(bucket_id: i64, state: Lookup, event: Event) -> (r: (
    Lookup,
    Step<Vec<Cookie>>,
))
    ensures
        (r.0, r.1.deep_view()) == get_cookies_by_bucket_step(bucket_id, state, event.deep_view()),
{
    match (state, event) {
        (Lookup::Start, Event::Begin) => (
            Lookup::Waiting,
            Step::Send(Statement::SelectCookiesInBucket { bucket_id }),
        ),
        (Lookup::Waiting, Event::Rows(rows)) => (Lookup::Finished, Step::Done(read_cookies(&rows))),
        (Lookup::Waiting, Event::Failed(failure)) => (
            Lookup::Finished,
            Step::Done(
                Err(DbError::Store { during: StatementKind::SelectCookiesInBucket, failure }),
            ),
        ),
        _ => (Lookup::Finished, Step::Done(Err(DbError::OutOfTurn))),
    }
}

/// What is said of content that is too long.
pub const CONTENT_TOO_LONG: &'static str = "Cookie content must be 300 characters or less";

/// What is said when the store names no row after the insert of a bucket.
pub const MISSING_BUCKET_ID: &'static str = "Failed to get bucket ID after insert";

/// What is said when the store names no row after the insert of a cookie.
pub const MISSING_COOKIE_ID: &'static str = "Failed to get cookie ID after insert";

/// What is said of a row that lacks a column.
pub const MISSING_COLUMN: &'static str = "invalid column index";

/// What is said of a column that holds NULL.
pub const NULL_COLUMN: &'static str = "Null value";

/// What is said of a column that holds a value of another type.
pub const WRONG_COLUMN_TYPE: &'static str = "invalid column type";

/// What is said of a report that came out of turn.
pub const OUT_OF_TURN: &'static str = "The operation was not waiting for this report";

/// What stands between the context of a failure and the store's own words.
pub const CONTEXT_SEPARATOR: &'static str = ": ";

/// What is said before the store's own words when a statement fails; for
/// some statements, nothing.
pub open spec fn failure_context(during: StatementKind) -> Option<Seq<char>> {
    match during {
        StatementKind::CreateBucketsTable => Some("Failed to create buckets table"@),
        StatementKind::CreateCookiesTable => Some("Failed to create cookies table"@),
        StatementKind::InsertBucket => Some("Failed to create bucket"@),
        StatementKind::InsertCookie => Some("Failed to create cookie"@),
        StatementKind::SelectBuckets => Some("Failed to query buckets"@),
        StatementKind::SelectCookies => Some("Failed to query cookies"@),
        StatementKind::SelectCookiesInBucket => Some("Failed to query cookies by bucket"@),
        StatementKind::LastInsertRowid | StatementKind::CountCookies => None,
    }
}

/// What an error says of itself.
pub open spec fn error_text(error: DbErrorView) -> Seq<char> {
    match error {
        DbErrorView::ContentTooLong { .. } => CONTENT_TOO_LONG@,
        DbErrorView::Store { during, failure } => match failure_context(during) {
            Some(context) => context + CONTEXT_SEPARATOR@ + failure.message,
            None => failure.message,
        },
        DbErrorView::MissingRowId { after } => if after == StatementKind::InsertBucket {
            MISSING_BUCKET_ID@
        } else {
            MISSING_COOKIE_ID@
        },
        DbErrorView::Column { problem, .. } => match problem {
            ColumnProblem::Missing => MISSING_COLUMN@,
            ColumnProblem::Null => NULL_COLUMN@,
            ColumnProblem::WrongType => WRONG_COLUMN_TYPE@,
        },
        DbErrorView::OutOfTurn => OUT_OF_TURN@,
    }
}

fn context_of(during: StatementKind) -> (r: Option<&'static str>)
    ensures
        match r {
            Some(context) => failure_context(during) == Some(context@),
            None => failure_context(during) is None,
        },
{
    match during {
        StatementKind::CreateBucketsTable => Some("Failed to create buckets table"),
        StatementKind::CreateCookiesTable => Some("Failed to create cookies table"),
        StatementKind::InsertBucket => Some("Failed to create bucket"),
        StatementKind::InsertCookie => Some("Failed to create cookie"),
        StatementKind::SelectBuckets => Some("Failed to query buckets"),
        StatementKind::SelectCookies => Some("Failed to query cookies"),
        StatementKind::SelectCookiesInBucket => Some("Failed to query cookies by bucket"),
        StatementKind::LastInsertRowid | StatementKind::CountCookies => None,
    }
}

impl DbError {
    /// The error in words, for the user.
    pub fn message(&self) -> (r: String)
        ensures
            r@ == error_text(self.deep_view()),
    {
        match self {
            DbError::ContentTooLong { .. } => CONTENT_TOO_LONG.to_owned(),
            DbError::Store { during, failure } => match context_of(*during) {
                Some(context) => {
                    let mut text = context.to_owned();
                    text.append(CONTEXT_SEPARATOR);
                    text.append(failure.message.as_str());
                    text
                },
                None => failure.message.clone(),
            },
            DbError::MissingRowId { after } => match after {
                StatementKind::InsertBucket => MISSING_BUCKET_ID.to_owned(),
                _ => MISSING_COOKIE_ID.to_owned(),
            },
            DbError::Column { problem, .. } => match problem {
                ColumnProblem::Missing => MISSING_COLUMN.to_owned(),
                ColumnProblem::Null => NULL_COLUMN.to_owned(),
                ColumnProblem::WrongType => WRONG_COLUMN_TYPE.to_owned(),
            },
            DbError::OutOfTurn => OUT_OF_TURN.to_owned(),
        }
    }

    /// The rule of the schema that the store found broken, where that is why
    /// the operation failed.
    pub fn violation(&self) -> (r: Option<crate::sql::Violation>)
        ensures
            r == (match self.deep_view() {
                DbErrorView::Store { failure, .. } => crate::sql::violation_of(failure.code),
                _ => None,
            }),
    {
        match self {
            DbError::Store { failure, .. } => failure.violation(),
            _ => None,
        }
    }
}

} // verus!
