//! The vocabulary spoken with the store: values, statements, and what comes
//! back. Nothing here touches a connection; a driver outside the library
//! carries each statement to the store and each answer back.

use vstd::prelude::*;

verus! {

/// One value of a result row or of a statement's parameter list.
#[derive(Debug, Clone, PartialEq, Eq)]
pub enum SqlValue {
    Null,
    Integer(i64),
    /// A floating-point value. No column of this schema holds one, so the
    /// number itself is not kept.
    Real,
    Text(String),
    Blob(Vec<u8>),
}

/// Mathematical counterpart of [`SqlValue`].
pub enum SqlValueView {
    Null,
    Integer(i64),
    Real,
    Text(Seq<char>),
    Blob(Seq<u8>),
}

impl DeepView for SqlValue {
    type V = SqlValueView;

    open spec fn deep_view(&self) -> SqlValueView {
        match self {
            SqlValue::Null => SqlValueView::Null,
            SqlValue::Integer(i) => SqlValueView::Integer(*i),
            SqlValue::Real => SqlValueView::Real,
            SqlValue::Text(s) => SqlValueView::Text(s@),
            SqlValue::Blob(b) => SqlValueView::Blob(b@),
        }
    }
}

/// A result row as the model sees it: its column values, left to right.
pub type RowView = Seq<SqlValueView>;

/// Why a column could not be read as the type the schema gives it.
#[derive(Debug, Clone, Copy, PartialEq, Eq, Structural)]
pub enum ColumnProblem {
    /// The row has no column at that index.
    Missing,
    /// The column holds NULL.
    Null,
    /// The column holds a value of another type.
    WrongType,
}

/// What reading column `index` of `row` as an integer yields.
pub open spec fn integer_at(row: RowView, index: int) -> Result<i64, ColumnProblem> {
    if index < 0 || index >= row.len() {
        Err(ColumnProblem::Missing)
    } else {
        match row[index] {
            SqlValueView::Integer(i) => Ok(i),
            SqlValueView::Null => Err(ColumnProblem::Null),
            _ => Err(ColumnProblem::WrongType),
        }
    }
}

/// What reading column `index` of `row` as text yields.
pub open spec fn text_at(row: RowView, index: int) -> Result<Seq<char>, ColumnProblem> {
    if index < 0 || index >= row.len() {
        Err(ColumnProblem::Missing)
    } else {
        match row[index] {
            SqlValueView::Text(s) => Ok(s),
            SqlValueView::Null => Err(ColumnProblem::Null),
            _ => Err(ColumnProblem::WrongType),
        }
    }
}

/// Reads column `index` of `row` as an integer.
pub fn get_integer(row: &Vec<SqlValue>, index: usize) -> (r: Result<i64, ColumnProblem>)
    ensures
        r == integer_at(row.deep_view(), index as int),
{
    if index >= row.len() {
        return Err(ColumnProblem::Missing);
    }
    match &row[index] {
        SqlValue::Integer(i) => Ok(*i),
        SqlValue::Null => Err(ColumnProblem::Null),
        _ => Err(ColumnProblem::WrongType),
    }
}

/// Reads column `index` of `row` as text.
pub fn get_text(row: &Vec<SqlValue>, index: usize) -> (r: Result<String, ColumnProblem>)
    ensures
        match r {
            Ok(s) => text_at(row.deep_view(), index as int) == Ok::<Seq<char>, ColumnProblem>(s@),
            Err(p) => text_at(row.deep_view(), index as int) == Err::<Seq<char>, ColumnProblem>(p),
        },
{
    if index >= row.len() {
        return Err(ColumnProblem::Missing);
    }
    match &row[index] {
        SqlValue::Text(s) => Ok(s.clone()),
        SqlValue::Null => Err(ColumnProblem::Null),
        _ => Err(ColumnProblem::WrongType),
    }
}

/// The store's own account of a statement that did not go through.
#[derive(Debug, Clone, PartialEq, Eq)]
pub struct StoreFailure {
    /// The store's extended result code, where it gave one.
    pub code: Option<i32>,
    /// The store's message, passed on as it came.
    pub message: String,
}

/// Mathematical counterpart of [`StoreFailure`].
pub struct StoreFailureView {
    pub code: Option<i32>,
    pub message: Seq<char>,
}

impl DeepView for StoreFailure {
    type V = StoreFailureView;

    open spec fn deep_view(&self) -> StoreFailureView {
        StoreFailureView { code: self.code, message: self.message@ }
    }
}

/// The rule of the schema that a refused statement broke.
#[derive(Debug, Clone, Copy, PartialEq, Eq, Structural)]
pub enum Violation {
    /// `CHECK`: the content is longer than the schema allows.
    Check,
    /// `FOREIGN KEY`: the cookie names a bucket that does not exist.
    ForeignKey,
    /// `UNIQUE`: a bucket of that name exists already.
    Unique,
    /// Any other constraint.
    Other,
}

/// Primary result code of a constraint violation.
pub const CONSTRAINT: i32 = 19;

/// Extended result code of a failed `CHECK`.
pub const CONSTRAINT_CHECK: i32 = 275;

/// Extended result code of a failed `FOREIGN KEY`.
pub const CONSTRAINT_FOREIGN_KEY: i32 = 787;

/// Extended result code of a failed `UNIQUE`.
pub const CONSTRAINT_UNIQUE: i32 = 2067;

/// Which rule a result code reports as broken, if any. The low byte of an
/// extended code is its primary code.
pub open spec fn violation_of(code: Option<i32>) -> Option<Violation> {
    match code {
        None => None,
        Some(c) => if c == CONSTRAINT_CHECK {
            Some(Violation::Check)
        } else if c == CONSTRAINT_FOREIGN_KEY {
            Some(Violation::ForeignKey)
        } else if c == CONSTRAINT_UNIQUE {
            Some(Violation::Unique)
        } else if c & 0xff == CONSTRAINT {
            Some(Violation::Other)
        } else {
            None
        },
    }
}

impl StoreFailure {
    /// The broken rule, where the failure is a constraint violation.
    pub fn violation(&self) -> (r: Option<Violation>)
        ensures
            r == violation_of(self.code),
    {
        match self.code {
            None => None,
            Some(c) => if c == CONSTRAINT_CHECK {
                Some(Violation::Check)
            } else if c == CONSTRAINT_FOREIGN_KEY {
                Some(Violation::ForeignKey)
            } else if c == CONSTRAINT_UNIQUE {
                Some(Violation::Unique)
            } else if c & 0xff == CONSTRAINT {
                Some(Violation::Other)
            } else {
                None
            },
        }
    }
}

/// The statements this library sends, without their parameters.
#[derive(Debug, Clone, Copy, PartialEq, Eq, Structural)]
pub enum StatementKind {
    CreateBucketsTable,
    CreateCookiesTable,
    InsertBucket,
    InsertCookie,
    LastInsertRowid,
    SelectBuckets,
    CountCookies,
    SelectCookies,
    SelectCookiesInBucket,
}

/// Creates the buckets table. Table and column names, types and constraints
/// are fixed: existing data depends on them.
pub const CREATE_BUCKETS_TABLE: &'static str = "CREATE TABLE IF NOT EXISTS buckets (
    id INTEGER PRIMARY KEY AUTOINCREMENT,
    name TEXT UNIQUE NOT NULL,
    created_at INTEGER NOT NULL
)";

/// Creates the cookies table. Table and column names, types and constraints
/// are fixed: existing data depends on them.
pub const CREATE_COOKIES_TABLE: &'static str = "CREATE TABLE IF NOT EXISTS cookies (
    id INTEGER PRIMARY KEY AUTOINCREMENT,
    bucket_id INTEGER NOT NULL,
    content TEXT NOT NULL CHECK(length(content) <= 300),
    created_at INTEGER NOT NULL,
    FOREIGN KEY (bucket_id) REFERENCES buckets(id)
)";

/// Inserts a bucket.
pub const INSERT_BUCKET: &'static str = "INSERT INTO buckets (name, created_at) VALUES (?1, ?2)";

/// Inserts a cookie.
pub const INSERT_COOKIE: &'static str =
    "INSERT INTO cookies (bucket_id, content, created_at) VALUES (?1, ?2, ?3)";

/// Asks for the identifier of the row inserted last on the connection.
pub const LAST_INSERT_ROWID: &'static str = "SELECT last_insert_rowid()";

/// Asks for all buckets, by name.
pub const SELECT_BUCKETS: &'static str = "SELECT id, name, created_at FROM buckets ORDER BY name";

/// Asks for the number of cookies of one bucket.
pub const COUNT_COOKIES: &'static str = "SELECT COUNT(*) FROM cookies WHERE bucket_id = ?1";

/// Asks for all cookies, newest first.
pub const SELECT_COOKIES: &'static str =
    "SELECT id, bucket_id, content, created_at FROM cookies ORDER BY created_at DESC";

/// Asks for the cookies of one bucket, newest first.
pub const SELECT_COOKIES_IN_BUCKET: &'static str =
    "SELECT id, bucket_id, content, created_at FROM cookies WHERE bucket_id = ?1 ORDER BY created_at DESC";

/// The text of each statement.
pub open spec fn sql_text(kind: StatementKind) -> Seq<char> {
    match kind {
        StatementKind::CreateBucketsTable => CREATE_BUCKETS_TABLE@,
        StatementKind::CreateCookiesTable => CREATE_COOKIES_TABLE@,
        StatementKind::InsertBucket => INSERT_BUCKET@,
        StatementKind::InsertCookie => INSERT_COOKIE@,
        StatementKind::LastInsertRowid => LAST_INSERT_ROWID@,
        StatementKind::SelectBuckets => SELECT_BUCKETS@,
        StatementKind::CountCookies => COUNT_COOKIES@,
        StatementKind::SelectCookies => SELECT_COOKIES@,
        StatementKind::SelectCookiesInBucket => SELECT_COOKIES_IN_BUCKET@,
    }
}

impl StatementKind {
    /// Whether the statement is a query, whose rows are to be read, rather
    /// than a command to be executed.
    pub open spec fn yields_rows(self) -> bool {
        match self {
            StatementKind::CreateBucketsTable
            | StatementKind::CreateCookiesTable
            | StatementKind::InsertBucket
            | StatementKind::InsertCookie => false,
            _ => true,
        }
    }

    /// The statement's text.
    pub fn sql(self) -> (r: &'static str)
        ensures
            r@ == sql_text(self),
    {
        match self {
            StatementKind::CreateBucketsTable => CREATE_BUCKETS_TABLE,
            StatementKind::CreateCookiesTable => CREATE_COOKIES_TABLE,
            StatementKind::InsertBucket => INSERT_BUCKET,
            StatementKind::InsertCookie => INSERT_COOKIE,
            StatementKind::LastInsertRowid => LAST_INSERT_ROWID,
            StatementKind::SelectBuckets => SELECT_BUCKETS,
            StatementKind::CountCookies => COUNT_COOKIES,
            StatementKind::SelectCookies => SELECT_COOKIES,
            StatementKind::SelectCookiesInBucket => SELECT_COOKIES_IN_BUCKET,
        }
    }

    /// Whether the driver is to read rows after sending the statement.
    pub fn returns_rows(self) -> (r: bool)
        ensures
            r == self.yields_rows(),
    {
        match self {
            StatementKind::CreateBucketsTable
            | StatementKind::CreateCookiesTable
            | StatementKind::InsertBucket
            | StatementKind::InsertCookie => false,
            _ => true,
        }
    }
}

/// A statement ready to be sent: which one, and the values it carries.
#[derive(Debug, Clone, PartialEq, Eq)]
pub enum Statement {
    CreateBucketsTable,
    CreateCookiesTable,
    InsertBucket { name: String, created_at: i64 },
    InsertCookie { bucket_id: i64, content: String, created_at: i64 },
    LastInsertRowid,
    SelectBuckets,
    CountCookies { bucket_id: i64 },
    SelectCookies,
    SelectCookiesInBucket { bucket_id: i64 },
}

/// Mathematical counterpart of [`Statement`].
pub enum StatementView {
    CreateBucketsTable,
    CreateCookiesTable,
    InsertBucket { name: Seq<char>, created_at: i64 },
    InsertCookie { bucket_id: i64, content: Seq<char>, created_at: i64 },
    LastInsertRowid,
    SelectBuckets,
    CountCookies { bucket_id: i64 },
    SelectCookies,
    SelectCookiesInBucket { bucket_id: i64 },
}

impl StatementView {
    pub open spec fn kind(self) -> StatementKind {
        match self {
            StatementView::CreateBucketsTable => StatementKind::CreateBucketsTable,
            StatementView::CreateCookiesTable => StatementKind::CreateCookiesTable,
            StatementView::InsertBucket { .. } => StatementKind::InsertBucket,
            StatementView::InsertCookie { .. } => StatementKind::InsertCookie,
            StatementView::LastInsertRowid => StatementKind::LastInsertRowid,
            StatementView::SelectBuckets => StatementKind::SelectBuckets,
            StatementView::CountCookies { .. } => StatementKind::CountCookies,
            StatementView::SelectCookies => StatementKind::SelectCookies,
            StatementView::SelectCookiesInBucket { .. } => StatementKind::SelectCookiesInBucket,
        }
    }

    /// The values bound to `?1`, `?2`, ... in order.
    pub open spec fn parameters(self) -> Seq<SqlValueView> {
        match self {
            StatementView::InsertBucket { name, created_at } => seq![
                SqlValueView::Text(name),
                SqlValueView::Integer(created_at),
            ],
            StatementView::InsertCookie { bucket_id, content, created_at } => seq![
                SqlValueView::Integer(bucket_id),
                SqlValueView::Text(content),
                SqlValueView::Integer(created_at),
            ],
            StatementView::CountCookies { bucket_id } => seq![SqlValueView::Integer(bucket_id)],
            StatementView::SelectCookiesInBucket { bucket_id } => seq![
                SqlValueView::Integer(bucket_id),
            ],
            _ => Seq::empty(),
        }
    }
}

impl DeepView for Statement {
    type V = StatementView;

    open spec fn deep_view(&self) -> StatementView {
        match self {
            Statement::CreateBucketsTable => StatementView::CreateBucketsTable,
            Statement::CreateCookiesTable => StatementView::CreateCookiesTable,
            Statement::InsertBucket { name, created_at } => StatementView::InsertBucket {
                name: name@,
                created_at: *created_at,
            },
            Statement::InsertCookie { bucket_id, content, created_at } => StatementView::InsertCookie {
                bucket_id: *bucket_id,
                content: content@,
                created_at: *created_at,
            },
            Statement::LastInsertRowid => StatementView::LastInsertRowid,
            Statement::SelectBuckets => StatementView::SelectBuckets,
            Statement::CountCookies { bucket_id } => StatementView::CountCookies {
                bucket_id: *bucket_id,
            },
            Statement::SelectCookies => StatementView::SelectCookies,
            Statement::SelectCookiesInBucket { bucket_id } => StatementView::SelectCookiesInBucket {
                bucket_id: *bucket_id,
            },
        }
    }
}

impl Statement {
    /// Which statement this is.
    pub fn kind(&self) -> (r: StatementKind)
        ensures
            r == self.deep_view().kind(),
    {
        match self {
            Statement::CreateBucketsTable => StatementKind::CreateBucketsTable,
            Statement::CreateCookiesTable => StatementKind::CreateCookiesTable,
            Statement::InsertBucket { .. } => StatementKind::InsertBucket,
            Statement::InsertCookie { .. } => StatementKind::InsertCookie,
            Statement::LastInsertRowid => StatementKind::LastInsertRowid,
            Statement::SelectBuckets => StatementKind::SelectBuckets,
            Statement::CountCookies { .. } => StatementKind::CountCookies,
            Statement::SelectCookies => StatementKind::SelectCookies,
            Statement::SelectCookiesInBucket { .. } => StatementKind::SelectCookiesInBucket,
        }
    }

    /// The statement's text.
    pub fn sql(&self) -> (r: &'static str)
        ensures
            r@ == sql_text(self.deep_view().kind()),
    {
        self.kind().sql()
    }

    /// The values to bind, in the order of the statement's placeholders.
    pub fn params(&self) -> (r: Vec<SqlValue>)
        ensures
            r.deep_view() == self.deep_view().parameters(),
    {
        let mut out: Vec<SqlValue> = Vec::new();
        match self {
            Statement::InsertBucket { name, created_at } => {
                out.push(SqlValue::Text(name.clone()));
                out.push(SqlValue::Integer(*created_at));
            },
            Statement::InsertCookie { bucket_id, content, created_at } => {
                out.push(SqlValue::Integer(*bucket_id));
                out.push(SqlValue::Text(content.clone()));
                out.push(SqlValue::Integer(*created_at));
            },
            Statement::CountCookies { bucket_id } => {
                out.push(SqlValue::Integer(*bucket_id));
            },
            Statement::SelectCookiesInBucket { bucket_id } => {
                out.push(SqlValue::Integer(*bucket_id));
            },
            _ => {},
        }
        assert(out.deep_view() =~= self.deep_view().parameters());
        out
    }
}

/// What the driver reports to an operation in progress.
#[derive(Debug, Clone, PartialEq, Eq)]
pub enum Event {
    /// Nothing has been sent yet.
    Begin,
    /// The command went through and changed this many rows.
    Executed(u64),
    /// The query went through; these are all its rows, in the store's order.
    Rows(Vec<Vec<SqlValue>>),
    /// The statement failed, or reading its rows did.
    Failed(StoreFailure),
}

/// Mathematical counterpart of [`Event`].
pub enum EventView {
    Begin,
    Executed(u64),
    Rows(Seq<RowView>),
    Failed(StoreFailureView),
}

impl DeepView for Event {
    type V = EventView;

    open spec fn deep_view(&self) -> EventView {
        match self {
            Event::Begin => EventView::Begin,
            Event::Executed(n) => EventView::Executed(*n),
            Event::Rows(rows) => EventView::Rows(rows.deep_view()),
            Event::Failed(f) => EventView::Failed(f.deep_view()),
        }
    }
}

} // verus!
