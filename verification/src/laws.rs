//! What holds of the jar's operations, whatever the store holds and however
//! it answers within the schema's rules. Each law is a proof over the model
//! of the store and the steps of the operations.

use crate::clock::representable;
use crate::db::{
    bucket_of_row, buckets_of_rows, cookie_of_row, cookies_of_rows, count_cookies_in_bucket_step,
    create_bucket_step, create_cookie_step, get_all_buckets_step, get_all_cookies_step,
    get_cookies_by_bucket_step, init_schema_step, DbErrorView, Insertion, Lookup, SchemaSetup,
    StepView, MAX_CONTENT_LEN,
};
use crate::menu::{
    add_cookie_flow_step, input_problem, AddCookieView, RequestView, ResponseView, ScreenView,
    TurnView,
};
use crate::models::{BucketView, CookieView};
use crate::session::{session_step, Command, Outcome, Phase};
use crate::sql::{
    violation_of, EventView, SqlValueView, StatementKind, StatementView, Violation,
};
use crate::store::{
    arranges, bucket_as_read, cookie_as_read, newest_first, ordered_by_name, rearranges,
    rows_of_buckets, rows_of_cookies, Tables,
};
use vstd::prelude::*;

verus! {

/// What `create_bucket` hands to its caller when the store answers the insert
/// with `inserted` and, if it comes to that, the identifier query with
/// `identified`.
pub open spec fn create_bucket_result(
    name: Seq<char>,
    now: i64,
    inserted: EventView,
    identified: EventView,
) -> Result<BucketView, DbErrorView> {
    let begun = create_bucket_step(name, now, Insertion::Start, EventView::Begin);
    let stored = create_bucket_step(name, now, begun.0, inserted);
    match stored.1 {
        StepView::Done(result) => result,
        StepView::Send(_) => match create_bucket_step(name, now, stored.0, identified).1 {
            StepView::Done(result) => result,
            StepView::Send(_) => Err(DbErrorView::OutOfTurn),
        },
    }
}

/// What `create_cookie` hands to its caller when the store answers the insert
/// with `inserted` and, if it comes to that, the identifier query with
/// `identified`.
pub open spec fn create_cookie_result(
    bucket_id: i64,
    content: Seq<char>,
    now: i64,
    inserted: EventView,
    identified: EventView,
) -> Result<i64, DbErrorView> {
    let begun = create_cookie_step(bucket_id, content, now, Insertion::Start, EventView::Begin);
    match begun.1 {
        StepView::Done(result) => result,
        StepView::Send(_) => {
            let stored = create_cookie_step(bucket_id, content, now, begun.0, inserted);
            match stored.1 {
                StepView::Done(result) => result,
                StepView::Send(_) => match create_cookie_step(
                    bucket_id,
                    content,
                    now,
                    stored.0,
                    identified,
                ).1 {
                    StepView::Done(result) => result,
                    StepView::Send(_) => Err(DbErrorView::OutOfTurn),
                },
            }
        },
    }
}

/// What `get_all_buckets` hands to its caller when the store answers its
/// query with `listed`.
pub open spec fn get_all_buckets_result(listed: EventView) -> Result<Seq<BucketView>, DbErrorView> {
    let begun = get_all_buckets_step(Lookup::Start, EventView::Begin);
    match get_all_buckets_step(begun.0, listed).1 {
        StepView::Done(result) => result,
        StepView::Send(_) => Err(DbErrorView::OutOfTurn),
    }
}

/// What `count_cookies_in_bucket` hands to its caller when the store answers
/// its query with `counted`.
pub open spec fn count_cookies_in_bucket_result(bucket_id: i64, counted: EventView) -> Result<
    i64,
    DbErrorView,
> {
    let begun = count_cookies_in_bucket_step(bucket_id, Lookup::Start, EventView::Begin);
    match count_cookies_in_bucket_step(bucket_id, begun.0, counted).1 {
        StepView::Done(result) => result,
        StepView::Send(_) => Err(DbErrorView::OutOfTurn),
    }
}

/// What `get_all_cookies` hands to its caller when the store answers its
/// query with `listed`.
pub open spec fn get_all_cookies_result(listed: EventView) -> Result<Seq<CookieView>, DbErrorView> {
    let begun = get_all_cookies_step(Lookup::Start, EventView::Begin);
    match get_all_cookies_step(begun.0, listed).1 {
        StepView::Done(result) => result,
        StepView::Send(_) => Err(DbErrorView::OutOfTurn),
    }
}

/// What `get_cookies_by_bucket` hands to its caller when the store answers
/// its query with `listed`.
pub open spec fn get_cookies_by_bucket_result(bucket_id: i64, listed: EventView) -> Result<
    Seq<CookieView>,
    DbErrorView,
> {
    let begun = get_cookies_by_bucket_step(bucket_id, Lookup::Start, EventView::Begin);
    match get_cookies_by_bucket_step(bucket_id, begun.0, listed).1 {
        StepView::Done(result) => result,
        StepView::Send(_) => Err(DbErrorView::OutOfTurn),
    }
}

/// Whether exactly one entry of `buckets` has the name `name`, and that entry
/// is `bucket`.
pub open spec fn lists_once(buckets: Seq<BucketView>, name: Seq<char>, bucket: BucketView) -> bool {
    exists|i: int|
        0 <= i < buckets.len() && #[trigger] buckets[i] == bucket && bucket.name == name && forall|
            j: int,
        |
            0 <= j < buckets.len() && (#[trigger] buckets[j]).name == name ==> j == i
}

proof fn lemma_buckets_decode(listing: Seq<BucketView>)
    ensures
        buckets_of_rows(rows_of_buckets(listing)) == Ok::<Seq<BucketView>, DbErrorView>(
            Seq::new(listing.len(), |i: int| bucket_as_read(listing[i])),
        ),
    decreases listing.len(),
{
    let rows = rows_of_buckets(listing);
    let read = Seq::new(listing.len(), |i: int| bucket_as_read(listing[i]));
    if listing.len() == 0 {
        assert(read =~= Seq::empty());
    } else {
        let shorter = listing.drop_last();
        assert(rows.drop_last() =~= rows_of_buckets(shorter));
        lemma_buckets_decode(shorter);
        assert(bucket_of_row(rows.last(), (rows.len() - 1) as usize) == Ok::<
            BucketView,
            DbErrorView,
        >(bucket_as_read(listing.last())));
        assert(Seq::new(shorter.len(), |i: int| bucket_as_read(shorter[i])).push(
            bucket_as_read(listing.last()),
        ) =~= read);
    }
}

proof fn lemma_cookies_decode(listing: Seq<CookieView>)
    ensures
        cookies_of_rows(rows_of_cookies(listing)) == Ok::<Seq<CookieView>, DbErrorView>(
            Seq::new(listing.len(), |i: int| cookie_as_read(listing[i])),
        ),
    decreases listing.len(),
{
    let rows = rows_of_cookies(listing);
    let read = Seq::new(listing.len(), |i: int| cookie_as_read(listing[i]));
    if listing.len() == 0 {
        assert(read =~= Seq::empty());
    } else {
        let shorter = listing.drop_last();
        assert(rows.drop_last() =~= rows_of_cookies(shorter));
        lemma_cookies_decode(shorter);
        assert(cookie_of_row(rows.last(), (rows.len() - 1) as usize) == Ok::<
            CookieView,
            DbErrorView,
        >(cookie_as_read(listing.last())));
        assert(Seq::new(shorter.len(), |i: int| cookie_as_read(shorter[i])).push(
            cookie_as_read(listing.last()),
        ) =~= read);
    }
}

proof fn lemma_filter_members<A>(all: Seq<A>, keep: spec_fn(A) -> bool)
    ensures
        forall|i: int|
            0 <= i < all.filter(keep).len() ==> all.contains(#[trigger] all.filter(keep)[i]),
    decreases all.len(),
{
    reveal(Seq::filter);
    if all.len() > 0 {
        let shorter = all.drop_last();
        lemma_filter_members(shorter, keep);
        assert forall|i: int| 0 <= i < all.filter(keep).len() implies all.contains(
            #[trigger] all.filter(keep)[i],
        ) by {
            if i < shorter.filter(keep).len() {
                let k = choose|k: int|
                    0 <= k < shorter.len() && shorter[k] == shorter.filter(keep)[i];
                assert(all[k] == all.filter(keep)[i]);
            } else {
                assert(all[all.len() - 1] == all.filter(keep)[i]);
            }
        }
    }
}

/// Every statement leaves the tables within the schema's rules.
pub proof fn law_schema_rules_are_kept(tables: Tables, statement: StatementView)
    requires
        tables.wf(),
    ensures
        tables.after(statement).wf(),
{
    let next = tables.after(statement);
    match statement {
        StatementView::InsertBucket { name, created_at } => {
            if tables.takes_bucket(name) {
                let n = tables.buckets.len() as int;
                assert forall|i: int| 0 <= i < next.cookies.len() implies next.has_bucket(
                    (#[trigger] next.cookies[i]).bucket_id,
                ) by {
                    assert(tables.has_bucket(tables.cookies[i].bucket_id));
                    let k = choose|k: int|
                        0 <= k < tables.buckets.len() && (#[trigger] tables.buckets[k]).id
                            == tables.cookies[i].bucket_id;
                    assert(next.buckets[k].id == tables.cookies[i].bucket_id);
                }
                assert forall|i: int, j: int| 0 <= i < j < next.buckets.len() implies (
                #[trigger] next.buckets[i]).id != (#[trigger] next.buckets[j]).id
                    && next.buckets[i].name != next.buckets[j].name by {
                    if j == n {
                        assert(tables.buckets[i].id <= tables.bucket_high);
                    }
                }
                assert(next.wf());
            }
        },
        StatementView::InsertCookie { bucket_id, content, created_at } => {
            if tables.takes_cookie(bucket_id, content) {
                let n = tables.cookies.len() as int;
                assert forall|i: int| 0 <= i < next.cookies.len() implies next.has_bucket(
                    (#[trigger] next.cookies[i]).bucket_id,
                ) by {
                    let wanted = next.cookies[i].bucket_id;
                    if i < n {
                        assert(tables.has_bucket(tables.cookies[i].bucket_id));
                    }
                    let k = choose|k: int|
                        0 <= k < tables.buckets.len() && (#[trigger] tables.buckets[k]).id
                            == wanted;
                    assert(next.buckets[k].id == wanted);
                }
                assert forall|i: int, j: int| 0 <= i < j < next.cookies.len() implies (
                #[trigger] next.cookies[i]).id != (#[trigger] next.cookies[j]).id by {
                    if j == n {
                        assert(tables.cookies[i].id <= tables.cookie_high);
                    }
                }
                assert(next.wf());
            }
        },
        _ => {},
    }
}

/// Creating the tables a second time changes nothing, and creating them
/// never touches a row.
pub proof fn law_init_schema_is_idempotent(tables: Tables, first: EventView, second: EventView)
    requires
        tables.answers(StatementView::CreateBucketsTable, first),
        tables.after(StatementView::CreateBucketsTable).answers(
            StatementView::CreateCookiesTable,
            second,
        ),
    ensures
        init_schema_step(SchemaSetup::Start, EventView::Begin) == (
            SchemaSetup::CreatingBuckets,
            StepView::<()>::Send(StatementView::CreateBucketsTable),
        ),
        init_schema_step(SchemaSetup::CreatingBuckets, first) == (
            SchemaSetup::CreatingCookies,
            StepView::<()>::Send(StatementView::CreateCookiesTable),
        ),
        init_schema_step(SchemaSetup::CreatingCookies, second) == (
            SchemaSetup::Finished,
            StepView::Done(Ok::<(), DbErrorView>(())),
        ),
        ({
            let once = tables.after(StatementView::CreateBucketsTable).after(
                StatementView::CreateCookiesTable,
            );
            &&& once.ready()
            &&& once.buckets == tables.buckets
            &&& once.cookies == tables.cookies
            &&& once.after(StatementView::CreateBucketsTable).after(
                StatementView::CreateCookiesTable,
            ) == once
        }),
{
}

/// A bucket created under a name that no bucket has yet comes back with that
/// name and an identifier above every one given before; a listing made
/// afterwards holds that bucket, and no other of its name.
pub proof fn law_new_bucket_is_listed_once(
    tables: Tables,
    name: Seq<char>,
    now: i64,
    inserted: EventView,
    identified: EventView,
    listed: EventView,
)
    requires
        tables.wf(),
        tables.takes_bucket(name),
        tables.answers(StatementView::InsertBucket { name, created_at: now }, inserted),
        tables.after(StatementView::InsertBucket { name, created_at: now }).answers(
            StatementView::LastInsertRowid,
            identified,
        ),
        tables.after(StatementView::InsertBucket { name, created_at: now }).answers(
            StatementView::SelectBuckets,
            listed,
        ),
    ensures
        create_bucket_result(name, now, inserted, identified) matches Ok(bucket) && bucket.name
            == name && bucket.id > tables.bucket_high && !tables.has_bucket(bucket.id) && (
        get_all_buckets_result(listed) matches Ok(buckets) && buckets.len() == tables.buckets.len()
            + 1 && lists_once(buckets, name, bucket)),
{
    let insert = StatementView::InsertBucket { name, created_at: now };
    let next = tables.after(insert);
    let id = (tables.bucket_high + 1) as i64;
    let stored = BucketView { id, name, created_at: now };
    let bucket = bucket_as_read(stored);
    let n = tables.buckets.len() as int;
    assert(next.buckets[n] == stored);
    assert(identified matches EventView::Rows(rows) && rows[0][0] == SqlValueView::Integer(id));
    assert(create_bucket_result(name, now, inserted, identified) == Ok::<BucketView, DbErrorView>(
        bucket,
    ));
    if tables.has_bucket(id) {
        let k = choose|k: int|
            0 <= k < tables.buckets.len() && (#[trigger] tables.buckets[k]).id == id;
        assert(tables.buckets[k].id <= tables.bucket_high);
    }
    let listing = choose|listing: Seq<BucketView>|
        rearranges(listing, next.buckets) && ordered_by_name(listing) && listed == EventView::Rows(
            #[trigger] rows_of_buckets(listing),
        );
    let (order, place) = choose|order: Seq<int>, place: Seq<int>| #[trigger]
        arranges(listing, next.buckets, order, place);
    lemma_buckets_decode(listing);
    let buckets = Seq::new(listing.len(), |i: int| bucket_as_read(listing[i]));
    assert(get_all_buckets_result(listed) == Ok::<Seq<BucketView>, DbErrorView>(buckets));
    let at = place[n];
    assert(order[at] == n);
    assert(listing[at] == stored);
    assert(buckets[at] == bucket);
    assert forall|j: int| 0 <= j < buckets.len() && (#[trigger] buckets[j]).name == name implies j
        == at by {
        let k = order[j];
        assert(listing[j] == next.buckets[k]);
        if k < n {
            assert(tables.buckets[k].name == name);
            assert(tables.has_bucket_named(name));
        }
        assert(place[order[j]] == j);
    }
}

/// A bucket asked for under a name that a bucket already has is refused by
/// the store's rule on unique names, and the tables stay as they were: the
/// one row of that name is still the only one.
pub proof fn law_duplicate_name_is_refused(
    tables: Tables,
    name: Seq<char>,
    now: i64,
    refused: EventView,
    identified: EventView,
)
    requires
        tables.wf(),
        tables.has_buckets,
        tables.has_bucket_named(name),
        tables.answers(StatementView::InsertBucket { name, created_at: now }, refused),
    ensures
        create_bucket_result(name, now, refused, identified) matches Err(
            DbErrorView::Store { during, failure },
        ) && during == StatementKind::InsertBucket && violation_of(failure.code) == Some(
            Violation::Unique,
        ),
        tables.after(StatementView::InsertBucket { name, created_at: now }) == tables,
        exists|i: int|
            0 <= i < tables.buckets.len() && (#[trigger] tables.buckets[i]).name == name && forall|
                j: int,
            |
                0 <= j < tables.buckets.len() && (#[trigger] tables.buckets[j]).name == name ==> j
                    == i,
{
    let i = choose|i: int| 0 <= i < tables.buckets.len() && (#[trigger] tables.buckets[i]).name == name;
    assert forall|j: int| 0 <= j < tables.buckets.len() && (#[trigger] tables.buckets[j]).name
        == name implies j == i by {
        if j < i {
            assert(tables.buckets[j].name != tables.buckets[i].name);
        } else if i < j {
            assert(tables.buckets[i].name != tables.buckets[j].name);
        }
    }
}

/// Creating the same name twice: the first call makes the bucket, the second
/// is refused as in `law_duplicate_name_is_refused`, whatever the clock shows
/// by then.
pub proof fn law_second_bucket_of_a_name_is_refused(
    tables: Tables,
    name: Seq<char>,
    first_now: i64,
    second_now: i64,
    refused: EventView,
    identified: EventView,
)
    requires
        tables.wf(),
        tables.takes_bucket(name),
        tables.after(StatementView::InsertBucket { name, created_at: first_now }).answers(
            StatementView::InsertBucket { name, created_at: second_now },
            refused,
        ),
    ensures
        ({
            let once = tables.after(StatementView::InsertBucket { name, created_at: first_now });
            &&& create_bucket_result(name, second_now, refused, identified) matches Err(
                DbErrorView::Store { during, failure },
            ) && during == StatementKind::InsertBucket && violation_of(failure.code) == Some(
                Violation::Unique,
            )
            &&& once.after(StatementView::InsertBucket { name, created_at: second_now }) == once
            &&& once.buckets.len() == tables.buckets.len() + 1
        }),
{
    let first = StatementView::InsertBucket { name, created_at: first_now };
    let once = tables.after(first);
    law_schema_rules_are_kept(tables, first);
    assert(once.buckets[tables.buckets.len() as int].name == name);
    assert(once.has_bucket_named(name));
    law_duplicate_name_is_refused(once, name, second_now, refused, identified);
}

/// Content within the limit, for a bucket that exists, makes a cookie: the
/// call gives an identifier above every one given before, and the row stands
/// in the table.
pub proof fn law_fitting_content_is_stored(
    tables: Tables,
    bucket_id: i64,
    content: Seq<char>,
    now: i64,
    inserted: EventView,
    identified: EventView,
)
    requires
        tables.wf(),
        tables.has_cookies,
        tables.has_bucket(bucket_id),
        tables.cookie_high < i64::MAX,
        content.len() <= MAX_CONTENT_LEN,
        tables.answers(StatementView::InsertCookie { bucket_id, content, created_at: now }, inserted),
        tables.after(StatementView::InsertCookie { bucket_id, content, created_at: now }).answers(
            StatementView::LastInsertRowid,
            identified,
        ),
    ensures
        create_cookie_result(bucket_id, content, now, inserted, identified) matches Ok(id) && id
            > tables.cookie_high && tables.after(
            StatementView::InsertCookie { bucket_id, content, created_at: now },
        ).cookies == tables.cookies.push(CookieView { id, bucket_id, content, created_at: now }),
{
    let id = (tables.cookie_high + 1) as i64;
    assert(identified matches EventView::Rows(rows) && rows[0][0] == SqlValueView::Integer(id));
}

/// Content over the limit is refused at once: the operation ends with its
/// first step, so no statement is sent and the store is not touched.
pub proof fn law_long_content_is_refused_unsent(
    bucket_id: i64,
    content: Seq<char>,
    now: i64,
    inserted: EventView,
    identified: EventView,
)
    requires
        content.len() > MAX_CONTENT_LEN,
    ensures
        create_cookie_step(bucket_id, content, now, Insertion::Start, EventView::Begin) == (
            Insertion::Finished,
            StepView::Done(
                Err::<i64, DbErrorView>(
                    DbErrorView::ContentTooLong { length: content.len() as usize },
                ),
            ),
        ),
        create_cookie_result(bucket_id, content, now, inserted, identified) == Err::<
            i64,
            DbErrorView,
        >(DbErrorView::ContentTooLong { length: content.len() as usize }),
{
}

/// A cookie for a bucket that does not exist is refused by the store's rule
/// on references, and the tables stay as they were.
pub proof fn law_orphan_cookie_is_refused(
    tables: Tables,
    bucket_id: i64,
    content: Seq<char>,
    now: i64,
    refused: EventView,
    identified: EventView,
)
    requires
        tables.has_cookies,
        !tables.has_bucket(bucket_id),
        content.len() <= MAX_CONTENT_LEN,
        tables.answers(StatementView::InsertCookie { bucket_id, content, created_at: now }, refused),
    ensures
        create_cookie_result(bucket_id, content, now, refused, identified) matches Err(
            DbErrorView::Store { during, failure },
        ) && during == StatementKind::InsertCookie && violation_of(failure.code) == Some(
            Violation::ForeignKey,
        ),
        tables.after(StatementView::InsertCookie { bucket_id, content, created_at: now }) == tables,
{
}

/// The count of a bucket's cookies is the length of the listing of that
/// bucket's cookies, on the same tables; the bucket need not exist.
pub proof fn law_count_matches_listing(
    tables: Tables,
    bucket_id: i64,
    counted: EventView,
    listed: EventView,
)
    requires
        tables.has_cookies,
        tables.answers(StatementView::CountCookies { bucket_id }, counted),
        tables.answers(StatementView::SelectCookiesInBucket { bucket_id }, listed),
    ensures
        count_cookies_in_bucket_result(bucket_id, counted) matches Ok(count)
            && get_cookies_by_bucket_result(bucket_id, listed) matches Ok(cookies) && count
            == cookies.len() && forall|i: int|
            0 <= i < cookies.len() ==> (#[trigger] cookies[i]).bucket_id == bucket_id,
{
    broadcast use vstd::seq_lib::group_filter_ensures;

    let table = tables.cookies_in(bucket_id);
    let keep = |cookie: CookieView| cookie.bucket_id == bucket_id;
    let listing = choose|listing: Seq<CookieView>|
        rearranges(listing, table) && newest_first(listing) && listed == EventView::Rows(
            #[trigger] rows_of_cookies(listing),
        );
    let (order, place) = choose|order: Seq<int>, place: Seq<int>| #[trigger]
        arranges(listing, table, order, place);
    lemma_cookies_decode(listing);
    let cookies = Seq::new(listing.len(), |i: int| cookie_as_read(listing[i]));
    assert(get_cookies_by_bucket_result(bucket_id, listed) == Ok::<Seq<CookieView>, DbErrorView>(
        cookies,
    ));
    assert forall|i: int| 0 <= i < cookies.len() implies (#[trigger] cookies[i]).bucket_id
        == bucket_id by {
        assert(listing[i] == table[order[i]]);
        assert(keep(table[order[i]]));
    }
}

/// A bucket that does not exist has no cookies: its count is zero and its
/// listing is empty, and neither is an error.
pub proof fn law_unknown_bucket_has_no_cookies(
    tables: Tables,
    bucket_id: i64,
    counted: EventView,
    listed: EventView,
)
    requires
        tables.wf(),
        tables.has_cookies,
        !tables.has_bucket(bucket_id),
        tables.answers(StatementView::CountCookies { bucket_id }, counted),
        tables.answers(StatementView::SelectCookiesInBucket { bucket_id }, listed),
    ensures
        count_cookies_in_bucket_result(bucket_id, counted) == Ok::<i64, DbErrorView>(0),
        get_cookies_by_bucket_result(bucket_id, listed) == Ok::<Seq<CookieView>, DbErrorView>(
            Seq::empty(),
        ),
{
    broadcast use vstd::seq_lib::group_filter_ensures;

    let keep = |cookie: CookieView| cookie.bucket_id == bucket_id;
    let table = tables.cookies_in(bucket_id);
    lemma_filter_members(tables.cookies, keep);
    if table.len() > 0 {
        assert(tables.cookies.contains(table[0]));
        let m = choose|m: int| 0 <= m < tables.cookies.len() && tables.cookies[m] == table[0];
        assert(keep(table[0]));
        assert(tables.has_bucket(tables.cookies[m].bucket_id));
    }
    law_count_matches_listing(tables, bucket_id, counted, listed);
    let cookies = get_cookies_by_bucket_result(bucket_id, listed)->Ok_0;
    assert(cookies =~= Seq::empty());
}

/// An empty store is no error: with the tables there and no row in them,
/// both listings are empty.
pub proof fn law_empty_store_lists_nothing(tables: Tables, buckets: EventView, cookies: EventView)
    requires
        tables.ready(),
        tables.buckets.len() == 0,
        tables.cookies.len() == 0,
        tables.answers(StatementView::SelectBuckets, buckets),
        tables.answers(StatementView::SelectCookies, cookies),
    ensures
        get_all_buckets_result(buckets) == Ok::<Seq<BucketView>, DbErrorView>(Seq::empty()),
        get_all_cookies_result(cookies) == Ok::<Seq<CookieView>, DbErrorView>(Seq::empty()),
{
    let listed_buckets = choose|listing: Seq<BucketView>|
        rearranges(listing, tables.buckets) && ordered_by_name(listing) && buckets
            == EventView::Rows(#[trigger] rows_of_buckets(listing));
    let listed_cookies = choose|listing: Seq<CookieView>|
        rearranges(listing, tables.cookies) && newest_first(listing) && cookies
            == EventView::Rows(#[trigger] rows_of_cookies(listing));
    lemma_buckets_decode(listed_buckets);
    lemma_cookies_decode(listed_cookies);
    assert(Seq::new(listed_buckets.len(), |i: int| bucket_as_read(listed_buckets[i]))
        =~= Seq::empty());
    assert(Seq::new(listed_cookies.len(), |i: int| cookie_as_read(listed_cookies[i]))
        =~= Seq::empty());
}

/// A listing of all cookies holds every cookie of the table once, and stands
/// newest first: of two entries with different timestamps, the later one
/// comes first.
pub proof fn law_cookies_are_listed_newest_first(tables: Tables, listed: EventView)
    requires
        tables.has_cookies,
        tables.timely(),
        tables.answers(StatementView::SelectCookies, listed),
    ensures
        get_all_cookies_result(listed) matches Ok(cookies) && rearranges(cookies, tables.cookies)
            && newest_first(cookies) && forall|i: int, j: int|
            0 <= i < cookies.len() && 0 <= j < cookies.len() && (#[trigger] cookies[i]).created_at
                > (#[trigger] cookies[j]).created_at ==> i < j,
{
    let listing = choose|listing: Seq<CookieView>|
        rearranges(listing, tables.cookies) && newest_first(listing) && listed == EventView::Rows(
            #[trigger] rows_of_cookies(listing),
        );
    let (order, place) = choose|order: Seq<int>, place: Seq<int>| #[trigger]
        arranges(listing, tables.cookies, order, place);
    lemma_cookies_decode(listing);
    let cookies = Seq::new(listing.len(), |i: int| cookie_as_read(listing[i]));
    assert forall|i: int| 0 <= i < listing.len() implies cookies[i] == listing[i] by {
        assert(listing[i] == tables.cookies[order[i]]);
    }
    assert(cookies =~= listing);
    assert(get_all_cookies_result(listed) == Ok::<Seq<CookieView>, DbErrorView>(listing));
}

/// A listing of one bucket's cookies holds every cookie of that bucket once,
/// and no other, newest first.
pub proof fn law_bucket_cookies_are_listed_newest_first(
    tables: Tables,
    bucket_id: i64,
    listed: EventView,
)
    requires
        tables.has_cookies,
        tables.timely(),
        tables.answers(StatementView::SelectCookiesInBucket { bucket_id }, listed),
    ensures
        get_cookies_by_bucket_result(bucket_id, listed) matches Ok(cookies) && rearranges(
            cookies,
            tables.cookies_in(bucket_id),
        ) && newest_first(cookies),
{
    let keep = |cookie: CookieView| cookie.bucket_id == bucket_id;
    let table = tables.cookies_in(bucket_id);
    let listing = choose|listing: Seq<CookieView>|
        rearranges(listing, table) && newest_first(listing) && listed == EventView::Rows(
            #[trigger] rows_of_cookies(listing),
        );
    let (order, place) = choose|order: Seq<int>, place: Seq<int>| #[trigger]
        arranges(listing, table, order, place);
    lemma_filter_members(tables.cookies, keep);
    lemma_cookies_decode(listing);
    let cookies = Seq::new(listing.len(), |i: int| cookie_as_read(listing[i]));
    assert forall|i: int| 0 <= i < listing.len() implies cookies[i] == listing[i] by {
        let k = order[i];
        assert(listing[i] == table[k]);
        assert(tables.cookies.contains(table[k]));
        let m = choose|m: int| 0 <= m < tables.cookies.len() && tables.cookies[m] == table[k];
        assert(representable(tables.cookies[m].created_at));
    }
    assert(cookies =~= listing);
    assert(get_cookies_by_bucket_result(bucket_id, listed) == Ok::<Seq<CookieView>, DbErrorView>(
        listing,
    ));
}

/// A listing of all buckets holds every bucket of the table once, in
/// ascending order of name.
pub proof fn law_buckets_are_listed_by_name(tables: Tables, listed: EventView)
    requires
        tables.has_buckets,
        tables.timely(),
        tables.answers(StatementView::SelectBuckets, listed),
    ensures
        get_all_buckets_result(listed) matches Ok(buckets) && rearranges(buckets, tables.buckets)
            && ordered_by_name(buckets),
{
    let listing = choose|listing: Seq<BucketView>|
        rearranges(listing, tables.buckets) && ordered_by_name(listing) && listed
            == EventView::Rows(#[trigger] rows_of_buckets(listing));
    let (order, place) = choose|order: Seq<int>, place: Seq<int>| #[trigger]
        arranges(listing, tables.buckets, order, place);
    lemma_buckets_decode(listing);
    let buckets = Seq::new(listing.len(), |i: int| bucket_as_read(listing[i]));
    assert forall|i: int| 0 <= i < listing.len() implies buckets[i] == listing[i] by {
        assert(listing[i] == tables.buckets[order[i]]);
    }
    assert(buckets =~= listing);
    assert(get_all_buckets_result(listed) == Ok::<Seq<BucketView>, DbErrorView>(listing));
}

/// Timestamps stay within the calendar: where every stored timestamp is an
/// instant of the calendar and a statement carries one too, as the statements
/// of `create_bucket` and `create_cookie` do, the same holds afterwards.
pub proof fn law_timestamps_stay_in_the_calendar(tables: Tables, statement: StatementView)
    requires
        tables.timely(),
        statement matches StatementView::InsertBucket { created_at, .. } ==> representable(
            created_at,
        ),
        statement matches StatementView::InsertCookie { created_at, .. } ==> representable(
            created_at,
        ),
    ensures
        tables.after(statement).timely(),
{
}

/// When a bucket has been created while a cookie is being added, the
/// replica is synchronized before anything else is asked of the store: the
/// flow orders the synchronization at once, or right after the screen that
/// announces the bucket, and it asks for the cookie's content only when the
/// synchronization has gone through.
pub proof fn law_bucket_creation_is_followed_by_sync(state: AddCookieView, bucket: BucketView)
    ensures
        ({
            let created = add_cookie_flow_step(state, ResponseView::Created(bucket));
            ||| created.1 == TurnView::<()>::Abort
            ||| created.1 == TurnView::<()>::Ask(RequestView::Sync) && add_cookie_flow_step(
                created.0,
                ResponseView::Synced,
            ).1 == TurnView::<()>::Ask(RequestView::AskContent { problem: None })
            ||| created.1 == TurnView::<()>::Ask(
                RequestView::Show(ScreenView::BucketCreated { bucket }),
            ) && {
                let shown = add_cookie_flow_step(created.0, ResponseView::Shown);
                shown.1 == TurnView::<()>::Ask(RequestView::Sync) && add_cookie_flow_step(
                    shown.0,
                    ResponseView::Synced,
                ).1 == TurnView::<()>::Ask(RequestView::AskContent { problem: None })
            }
        }),
{
}

/// Whatever the driver reports, and wherever the flow stands, a cookie is
/// asked to be created only with content of one to `MAX_CONTENT_LEN`
/// characters.
pub proof fn law_only_fit_content_is_stored(state: AddCookieView, response: ResponseView)
    ensures
        add_cookie_flow_step(state, response).1 matches TurnView::Ask(
            RequestView::CreateCookie { content, .. },
        ) ==> 1 <= content.len() <= MAX_CONTENT_LEN,
{
}

/// A text that is empty or too long is answered with the prompt for the
/// content, and with the reason; the flow stays where it stood.
pub proof fn law_unfit_content_is_asked_for_again(bucket: BucketView, content: Seq<char>)
    requires
        content.len() == 0 || content.len() > MAX_CONTENT_LEN,
    ensures
        input_problem(content) is Some,
        add_cookie_flow_step(AddCookieView::Writing { bucket }, ResponseView::Text(content)) == (
            AddCookieView::Writing { bucket },
            TurnView::<()>::Ask(RequestView::AskContent { problem: input_problem(content) }),
        ),
{
}

/// When the session orders what: the menu is shown for the first time only
/// after a synchronization that went through, every round that comes to its
/// end is followed by a synchronization, a failure after startup never ends
/// the run, and the run ends well only after the last synchronization went
/// through. The replica counts as open from the moment its opening went
/// through, and nothing but the opening is ordered before that.
pub proof fn law_session_keeps_the_replica_in_step(phase: Phase, outcome: Outcome)
    ensures
        ({
            let (next, order) = session_step(phase, outcome);
            &&& order.command == Command::ShowMenu ==> (phase == Phase::FirstSync && outcome
                == Outcome::Succeeded) || phase == Phase::SyncingAfterRound || (phase
                == Phase::AtMenu && outcome == Outcome::Failed)
            &&& phase == Phase::AtMenu && outcome is RoundOver ==> order.command == Command::Sync
            &&& (phase == Phase::AtMenu || phase == Phase::SyncingAfterRound) && outcome
                == Outcome::Failed ==> next == Phase::AtMenu && order.command == Command::ShowMenu
                && order.report
            &&& order.command == Command::Stop && !order.failed ==> phase
                == Phase::SyncingBeforeExit && outcome == Outcome::Succeeded
            &&& next == Phase::SyncingBeforeExit ==> phase == Phase::AtMenu && outcome
                == (Outcome::RoundOver { exit: true })
            &&& next.connected() ==> phase.connected() || (phase == Phase::Opening && outcome
                == Outcome::Succeeded)
            &&& order.command != Command::Open && order.command != Command::Stop
                ==> next.connected()
        }),
{
}

} // verus!
