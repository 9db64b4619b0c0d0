//! The two records of the jar.

use crate::clock::{
    format_timestamp_in, format_timestamp_locally, formatted_instant, normalize_timestamp,
    stored_instant, valid_offset, DATE_FORMAT, DATE_TIME_FORMAT,
};
use vstd::prelude::*;

verus! {

/// A named category that groups cookies.
#[derive(Debug, Clone, PartialEq, Eq)]
pub struct Bucket {
    /// Assigned by the store; unique among buckets.
    pub id: i64,
    /// Unique among buckets.
    pub name: String,
    /// Seconds since the epoch, UTC.
    pub created_at: i64,
}

/// A short note that belongs to one bucket.
#[derive(Debug, Clone, PartialEq, Eq)]
pub struct Cookie {
    /// Assigned by the store.
    pub id: i64,
    /// The bucket it belongs to.
    pub bucket_id: i64,
    pub content: String,
    /// Seconds since the epoch, UTC.
    pub created_at: i64,
}

/// Mathematical counterpart of [`Bucket`].
pub struct BucketView {
    pub id: i64,
    pub name: Seq<char>,
    pub created_at: i64,
}

/// Mathematical counterpart of [`Cookie`].
pub struct CookieView {
    pub id: i64,
    pub bucket_id: i64,
    pub content: Seq<char>,
    pub created_at: i64,
}

impl DeepView for Bucket {
    type V = BucketView;

    open spec fn deep_view(&self) -> BucketView {
        BucketView { id: self.id, name: self.name@, created_at: self.created_at }
    }
}

impl DeepView for Cookie {
    type V = CookieView;

    open spec fn deep_view(&self) -> CookieView {
        CookieView {
            id: self.id,
            bucket_id: self.bucket_id,
            content: self.content@,
            created_at: self.created_at,
        }
    }
}

/// The bucket that `Bucket::new` makes of its arguments.
pub open spec fn bucket_record(id: i64, name: Seq<char>, created_at: i64) -> BucketView {
    BucketView { id, name, created_at: stored_instant(created_at) }
}

/// The cookie that `Cookie::new` makes of its arguments.
pub open spec fn cookie_record(
    id: i64,
    bucket_id: i64,
    content: Seq<char>,
    created_at: i64,
) -> CookieView {
    CookieView { id, bucket_id, content, created_at: stored_instant(created_at) }
}

impl Bucket {
    /// Makes a bucket of a row's values. A timestamp outside the calendar
    /// becomes the epoch.
    pub fn new(id: i64, name: String, created_at: i64) -> (r: Bucket)
        ensures
            r.deep_view() == bucket_record(id, name@, created_at),
    {
        Bucket { id, name, created_at: normalize_timestamp(created_at) }
    }
}

impl Cookie {
    /// Makes a cookie of a row's values. A timestamp outside the calendar
    /// becomes the epoch.
    pub fn new(id: i64, bucket_id: i64, content: String, created_at: i64) -> (r: Cookie)
        ensures
            r.deep_view() == cookie_record(id, bucket_id, content@, created_at),
    {
        Cookie { id, bucket_id, content, created_at: normalize_timestamp(created_at) }
    }
}

impl Bucket {
    /// The day of the bucket's creation, as the machine's time zone sees it.
    pub fn formatted_created_at(&self) -> (r: String)
        ensures
            exists|offset: i32|
                valid_offset(offset) && r@ == #[trigger] formatted_instant(
                    stored_instant(self.created_at),
                    offset,
                    DATE_FORMAT@,
                ),
    {
        format_timestamp_locally(self.created_at, DATE_FORMAT)
    }

    /// The day of the bucket's creation, as seen `offset` seconds east of
    /// UTC; nothing where no time zone has that offset.
    pub fn formatted_created_at_in(&self, offset: i32) -> (r: Option<String>)
        ensures
            match r {
                Some(text) => valid_offset(offset) && text@ == formatted_instant(
                    stored_instant(self.created_at),
                    offset,
                    DATE_FORMAT@,
                ),
                None => !valid_offset(offset),
            },
    {
        format_timestamp_in(self.created_at, offset, DATE_FORMAT)
    }
}

impl Cookie {
    /// The day and time of the cookie's creation, as the machine's time zone
    /// sees it.
    pub fn formatted_created_at(&self) -> (r: String)
        ensures
            exists|offset: i32|
                valid_offset(offset) && r@ == #[trigger] formatted_instant(
                    stored_instant(self.created_at),
                    offset,
                    DATE_TIME_FORMAT@,
                ),
    {
        format_timestamp_locally(self.created_at, DATE_TIME_FORMAT)
    }

    /// The day and time of the cookie's creation, as seen `offset` seconds
    /// east of UTC; nothing where no time zone has that offset.
    pub fn formatted_created_at_in(&self, offset: i32) -> (r: Option<String>)
        ensures
            match r {
                Some(text) => valid_offset(offset) && text@ == formatted_instant(
                    stored_instant(self.created_at),
                    offset,
                    DATE_TIME_FORMAT@,
                ),
                None => !valid_offset(offset),
            },
    {
        format_timestamp_in(self.created_at, offset, DATE_TIME_FORMAT)
    }
}

} // verus!
