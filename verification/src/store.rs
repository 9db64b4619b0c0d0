//! What the two tables hold and how the store answers: the schema's rules,
//! written down as a model. Nothing here runs. The laws of the jar are stated
//! against this model, for every answer that the rules allow.

use crate::clock::representable;
use crate::db::MAX_CONTENT_LEN;
use crate::models::{bucket_record, cookie_record, BucketView, CookieView};
use crate::sql::{violation_of, EventView, RowView, SqlValueView, StatementView, Violation};
use vstd::prelude::*;

verus! {

/// The store, as far as the schema speaks of it.
pub struct Tables {
    /// Whether the buckets table has been created.
    pub has_buckets: bool,
    /// Whether the cookies table has been created.
    pub has_cookies: bool,
    /// The rows of the buckets table, oldest first.
    pub buckets: Seq<BucketView>,
    /// The rows of the cookies table, oldest first.
    pub cookies: Seq<CookieView>,
    /// The largest identifier that a bucket was ever given; 0 before the first.
    pub bucket_high: i64,
    /// The largest identifier that a cookie was ever given; 0 before the first.
    pub cookie_high: i64,
    /// The identifier of the row inserted last on this connection.
    pub last_rowid: i64,
}

/// The row that the store hands out for a bucket.
pub open spec fn row_of_bucket(bucket: BucketView) -> RowView {
    seq![
        SqlValueView::Integer(bucket.id),
        SqlValueView::Text(bucket.name),
        SqlValueView::Integer(bucket.created_at),
    ]
}

/// The row that the store hands out for a cookie.
pub open spec fn row_of_cookie(cookie: CookieView) -> RowView {
    seq![
        SqlValueView::Integer(cookie.id),
        SqlValueView::Integer(cookie.bucket_id),
        SqlValueView::Text(cookie.content),
        SqlValueView::Integer(cookie.created_at),
    ]
}

/// A stored bucket as `get_all_buckets` reads it back.
pub open spec fn bucket_as_read(bucket: BucketView) -> BucketView {
    bucket_record(bucket.id, bucket.name, bucket.created_at)
}

/// A stored cookie as `get_all_cookies` reads it back.
pub open spec fn cookie_as_read(cookie: CookieView) -> CookieView {
    cookie_record(cookie.id, cookie.bucket_id, cookie.content, cookie.created_at)
}

/// The rows that the store hands out for a listing of buckets.
pub open spec fn rows_of_buckets(listing: Seq<BucketView>) -> Seq<RowView> {
    Seq::new(listing.len(), |i: int| row_of_bucket(listing[i]))
}

/// The rows that the store hands out for a listing of cookies.
pub open spec fn rows_of_cookies(listing: Seq<CookieView>) -> Seq<RowView> {
    Seq::new(listing.len(), |i: int| row_of_cookie(listing[i]))
}

/// `order` and `place` witness that `listing` holds the rows of `table`, each
/// once: `listing[i]` is `table[order[i]]`, and `place` undoes `order`.
pub open spec fn arranges<A>(
    listing: Seq<A>,
    table: Seq<A>,
    order: Seq<int>,
    place: Seq<int>,
) -> bool {
    &&& listing.len() == table.len()
    &&& order.len() == table.len()
    &&& place.len() == table.len()
    &&& forall|i: int|
        0 <= i < listing.len() ==> 0 <= #[trigger] order[i] < table.len() && place[order[i]] == i
            && listing[i] == table[order[i]]
    &&& forall|k: int|
        0 <= k < table.len() ==> 0 <= #[trigger] place[k] < listing.len() && order[place[k]] == k
}

/// Whether `listing` holds the rows of `table`, each once, in some order.
pub open spec fn rearranges<A>(listing: Seq<A>, table: Seq<A>) -> bool {
    exists|order: Seq<int>, place: Seq<int>| #[trigger] arranges(listing, table, order, place)
}

/// Whether `a` comes before `b`, or is `b`, where texts are compared byte by
/// byte in their UTF-8 form, as the store's default collation does.
pub open spec fn bytes_le(a: Seq<u8>, b: Seq<u8>) -> bool
    decreases a.len(),
{
    if a.len() == 0 {
        true
    } else if b.len() == 0 {
        false
    } else if a[0] != b[0] {
        a[0] < b[0]
    } else {
        bytes_le(a.skip(1), b.skip(1))
    }
}

/// Whether the buckets stand in ascending order of name.
pub open spec fn ordered_by_name(buckets: Seq<BucketView>) -> bool {
    forall|i: int, j: int|
        0 <= i < j < buckets.len() ==> bytes_le(
            vstd::utf8::encode_utf8(#[trigger] buckets[i].name),
            vstd::utf8::encode_utf8(#[trigger] buckets[j].name),
        )
}

/// Whether the cookies stand newest first.
pub open spec fn newest_first(cookies: Seq<CookieView>) -> bool {
    forall|i: int, j: int|
        0 <= i < j < cookies.len() ==> (#[trigger] cookies[i]).created_at >= (
        #[trigger] cookies[j]).created_at
}

impl Tables {
    /// Whether both tables have been created.
    pub open spec fn ready(self) -> bool {
        self.has_buckets && self.has_cookies
    }

    /// Whether a bucket has the identifier `id`.
    pub open spec fn has_bucket(self, id: i64) -> bool {
        exists|i: int| 0 <= i < self.buckets.len() && (#[trigger] self.buckets[i]).id == id
    }

    /// Whether a bucket has the name `name`.
    pub open spec fn has_bucket_named(self, name: Seq<char>) -> bool {
        exists|i: int| 0 <= i < self.buckets.len() && (#[trigger] self.buckets[i]).name == name
    }

    /// The cookies of bucket `bucket_id`, oldest first.
    pub open spec fn cookies_in(self, bucket_id: i64) -> Seq<CookieView> {
        self.cookies.filter(|cookie: CookieView| cookie.bucket_id == bucket_id)
    }

    /// What the schema keeps true of the tables: identifiers are positive,
    /// never reused and never above the table's high mark; no two buckets
    /// share a name; every cookie belongs to a bucket that exists and has
    /// content within the limit.
    pub open spec fn wf(self) -> bool {
        &&& 0 <= self.bucket_high
        &&& 0 <= self.cookie_high
        &&& !self.has_buckets ==> self.buckets.len() == 0
        &&& !self.has_cookies ==> self.cookies.len() == 0
        &&& forall|i: int|
            0 <= i < self.buckets.len() ==> 0 < (#[trigger] self.buckets[i]).id <= self.bucket_high
        &&& forall|i: int, j: int|
            0 <= i < j < self.buckets.len() ==> (#[trigger] self.buckets[i]).id != (
            #[trigger] self.buckets[j]).id && self.buckets[i].name != self.buckets[j].name
        &&& forall|i: int|
            0 <= i < self.cookies.len() ==> 0 < (#[trigger] self.cookies[i]).id <= self.cookie_high
                && self.cookies[i].content.len() <= MAX_CONTENT_LEN && self.has_bucket(
                self.cookies[i].bucket_id,
            )
        &&& forall|i: int, j: int|
            0 <= i < j < self.cookies.len() ==> (#[trigger] self.cookies[i]).id != (
            #[trigger] self.cookies[j]).id
    }

    /// Whether every timestamp in the tables is an instant of the calendar,
    /// as every timestamp is that the jar's own operations write. Such
    /// timestamps are read back as they were written.
    pub open spec fn timely(self) -> bool {
        &&& forall|i: int|
            0 <= i < self.buckets.len() ==> representable((#[trigger] self.buckets[i]).created_at)
        &&& forall|i: int|
            0 <= i < self.cookies.len() ==> representable((#[trigger] self.cookies[i]).created_at)
    }

    /// Whether the store takes an insert of a bucket named `name`.
    pub open spec fn takes_bucket(self, name: Seq<char>) -> bool {
        self.has_buckets && !self.has_bucket_named(name) && self.bucket_high < i64::MAX
    }

    /// Whether the store takes an insert of a cookie with these values.
    pub open spec fn takes_cookie(self, bucket_id: i64, content: Seq<char>) -> bool {
        self.has_cookies && content.len() <= MAX_CONTENT_LEN && self.has_bucket(bucket_id)
            && self.cookie_high < i64::MAX
    }

    /// The tables after the store has dealt with `statement`. A statement
    /// that the store refuses leaves them as they were.
    pub open spec fn after(self, statement: StatementView) -> Tables {
        match statement {
            StatementView::CreateBucketsTable => Tables { has_buckets: true, ..self },
            StatementView::CreateCookiesTable => Tables { has_cookies: true, ..self },
            StatementView::InsertBucket { name, created_at } => if self.takes_bucket(name) {
                let id = (self.bucket_high + 1) as i64;
                Tables {
                    buckets: self.buckets.push(BucketView { id, name, created_at }),
                    bucket_high: id,
                    last_rowid: id,
                    ..self
                }
            } else {
                self
            },
            StatementView::InsertCookie { bucket_id, content, created_at } => if self.takes_cookie(
                bucket_id,
                content,
            ) {
                let id = (self.cookie_high + 1) as i64;
                Tables {
                    cookies: self.cookies.push(CookieView { id, bucket_id, content, created_at }),
                    cookie_high: id,
                    last_rowid: id,
                    ..self
                }
            } else {
                self
            },
            _ => self,
        }
    }

    /// Whether `event` is an answer that the store may give to `statement`
    /// with the tables as they stand.
    ///
    /// A refused insert is answered with the rule it broke. A query is
    /// answered with the rows that the schema and the statement's text call
    /// for; where the text leaves the order of two rows open, either order is
    /// an answer.
    pub open spec fn answers(self, statement: StatementView, event: EventView) -> bool {
        match statement {
            StatementView::CreateBucketsTable | StatementView::CreateCookiesTable => event is Executed,
            StatementView::InsertBucket { name, created_at } => if self.takes_bucket(name) {
                event == EventView::Executed(1)
            } else {
                &&& event matches EventView::Failed(failure)
                &&& self.has_buckets && self.has_bucket_named(name) ==> violation_of(failure.code)
                    == Some(Violation::Unique)
            },
            StatementView::InsertCookie { bucket_id, content, created_at } => if self.takes_cookie(
                bucket_id,
                content,
            ) {
                event == EventView::Executed(1)
            } else {
                &&& event matches EventView::Failed(failure)
                &&& self.has_cookies && content.len() > MAX_CONTENT_LEN ==> violation_of(
                    failure.code,
                ) == Some(Violation::Check)
                &&& self.has_cookies && content.len() <= MAX_CONTENT_LEN && !self.has_bucket(
                    bucket_id,
                ) ==> violation_of(failure.code) == Some(Violation::ForeignKey)
            },
            StatementView::LastInsertRowid => event == EventView::Rows(
                seq![seq![SqlValueView::Integer(self.last_rowid)]],
            ),
            StatementView::SelectBuckets => if self.has_buckets {
                exists|listing: Seq<BucketView>|
                    rearranges(listing, self.buckets) && ordered_by_name(listing) && event
                        == EventView::Rows(#[trigger] rows_of_buckets(listing))
            } else {
                event is Failed
            },
            StatementView::CountCookies { bucket_id } => if self.has_cookies {
                &&& event matches EventView::Rows(rows)
                &&& rows.len() == 1
                &&& rows[0].len() == 1
                &&& rows[0][0] matches SqlValueView::Integer(count)
                &&& count == self.cookies_in(bucket_id).len()
            } else {
                event is Failed
            },
            StatementView::SelectCookies => if self.has_cookies {
                exists|listing: Seq<CookieView>|
                    rearranges(listing, self.cookies) && newest_first(listing) && event
                        == EventView::Rows(#[trigger] rows_of_cookies(listing))
            } else {
                event is Failed
            },
            StatementView::SelectCookiesInBucket { bucket_id } => if self.has_cookies {
                exists|listing: Seq<CookieView>|
                    rearranges(listing, self.cookies_in(bucket_id)) && newest_first(listing)
                        && event == EventView::Rows(#[trigger] rows_of_cookies(listing))
            } else {
                event is Failed
            },
        }
    }
}

} // verus!
