//! The interactive flows, as decisions.
//!
//! A flow neither prints nor reads. It is a function from where the flow
//! stands and what the driver reports, to where it stands next and what the
//! driver is to do: run an operation on the jar, ask the user, or show a
//! screen. The driver starts with the flow's `Start` state and
//! `Response::Begin`, and calls again with each response until it is handed
//! `Turn::Done` or `Turn::Abort`.

use crate::db::MAX_CONTENT_LEN;
use crate::models::{Bucket, BucketView, Cookie, CookieView};
use vstd::prelude::*;
use vstd::string::*;

verus! {

/// The colors that buckets are shown in.
#[derive(Debug, Clone, Copy, PartialEq, Eq, Structural)]
pub enum Color {
    BrightCyan,
    BrightMagenta,
    BrightYellow,
    BrightGreen,
    BrightBlue,
}

/// How many colors there are.
pub const PALETTE_SIZE: i64 = 5;

/// The place in the palette of the color of bucket `bucket_id`.
pub open spec fn color_index(bucket_id: i64) -> int {
    bucket_id as int % PALETTE_SIZE as int
}

/// The color at a place in the palette.
pub open spec fn palette(index: int) -> Color {
    if index == 0 {
        Color::BrightCyan
    } else if index == 1 {
        Color::BrightMagenta
    } else if index == 2 {
        Color::BrightYellow
    } else if index == 3 {
        Color::BrightGreen
    } else {
        Color::BrightBlue
    }
}

/// The color that a bucket is shown in: always the same for the same bucket.
pub fn get_bucket_color(bucket_id: i64) -> (r: Color)
    ensures
        r == palette(color_index(bucket_id)),
        0 <= color_index(bucket_id) < PALETTE_SIZE,
{
    let remainder: i64 = bucket_id % PALETTE_SIZE;
    let index: i64 = if remainder < 0 {
        remainder + PALETTE_SIZE
    } else {
        remainder
    };
    if index == 0 {
        Color::BrightCyan
    } else if index == 1 {
        Color::BrightMagenta
    } else if index == 2 {
        Color::BrightYellow
    } else if index == 3 {
        Color::BrightGreen
    } else {
        Color::BrightBlue
    }
}

/// What the main menu offers, in the order it is shown.
#[derive(Debug, Clone, Copy, PartialEq, Eq, Structural)]
pub enum MainMenuOption {
    AddCookie,
    ViewAllCookies,
    ViewCookiesByBucket,
    ListBuckets,
    Exit,
}

/// How many entries the main menu has.
pub const MAIN_MENU_LEN: usize = 5;

/// The option at a place in the main menu.
pub open spec fn main_menu_entry(selection: usize) -> Option<MainMenuOption> {
    if selection == 0 {
        Some(MainMenuOption::AddCookie)
    } else if selection == 1 {
        Some(MainMenuOption::ViewAllCookies)
    } else if selection == 2 {
        Some(MainMenuOption::ViewCookiesByBucket)
    } else if selection == 3 {
        Some(MainMenuOption::ListBuckets)
    } else if selection == 4 {
        Some(MainMenuOption::Exit)
    } else {
        None
    }
}

/// The text of each entry of the main menu.
pub open spec fn main_menu_label(option: MainMenuOption) -> Seq<char> {
    match option {
        MainMenuOption::AddCookie => "Add a new cookie"@,
        MainMenuOption::ViewAllCookies => "View all cookies"@,
        MainMenuOption::ViewCookiesByBucket => "View cookies by bucket"@,
        MainMenuOption::ListBuckets => "List all buckets"@,
        MainMenuOption::Exit => "Exit"@,
    }
}

impl MainMenuOption {
    /// The option at place `selection` of the main menu.
    pub fn at(selection: usize) -> (r: Option<MainMenuOption>)
        ensures
            r == main_menu_entry(selection),
            r is Some <==> selection < MAIN_MENU_LEN,
    {
        if selection == 0 {
            Some(MainMenuOption::AddCookie)
        } else if selection == 1 {
            Some(MainMenuOption::ViewAllCookies)
        } else if selection == 2 {
            Some(MainMenuOption::ViewCookiesByBucket)
        } else if selection == 3 {
            Some(MainMenuOption::ListBuckets)
        } else if selection == 4 {
            Some(MainMenuOption::Exit)
        } else {
            None
        }
    }

    /// The text that the menu shows for the option.
    pub fn label(self) -> (r: &'static str)
        ensures
            r@ == main_menu_label(self),
    {
        match self {
            MainMenuOption::AddCookie => "Add a new cookie",
            MainMenuOption::ViewAllCookies => "View all cookies",
            MainMenuOption::ViewCookiesByBucket => "View cookies by bucket",
            MainMenuOption::ListBuckets => "List all buckets",
            MainMenuOption::Exit => "Exit",
        }
    }
}

/// Why the prompt does not take a text as a cookie's content.
#[derive(Debug, Clone, Copy, PartialEq, Eq, Structural)]
pub enum InputProblem {
    /// Nothing was typed.
    Empty,
    /// More characters than a cookie may hold.
    TooLong,
}

/// What the prompt tells the user about a refused text.
pub open spec fn input_problem_text(problem: InputProblem) -> Seq<char> {
    match problem {
        InputProblem::Empty => "Cookie cannot be empty"@,
        InputProblem::TooLong => "Cookie must be 300 characters or less"@,
    }
}

impl InputProblem {
    /// What the prompt tells the user.
    pub fn message(self) -> (r: &'static str)
        ensures
            r@ == input_problem_text(self),
    {
        match self {
            InputProblem::Empty => "Cookie cannot be empty",
            InputProblem::TooLong => "Cookie must be 300 characters or less",
        }
    }
}

/// What keeps `input` from being a cookie's content, if anything does: it
/// must have at least one character and no more than a cookie may hold.
pub open spec fn input_problem(input: Seq<char>) -> Option<InputProblem> {
    if input.len() == 0 {
        Some(InputProblem::Empty)
    } else if input.len() > MAX_CONTENT_LEN {
        Some(InputProblem::TooLong)
    } else {
        None
    }
}

/// Whether `input` can be a cookie's content.
pub fn validate_cookie_input(input: &str) -> (r: Result<(), InputProblem>)
    ensures
        r == (match input_problem(input@) {
            Some(problem) => Err::<(), InputProblem>(problem),
            None => Ok::<(), InputProblem>(()),
        }),
{
    let length: usize = input.unicode_len();
    if length == 0 {
        Err(InputProblem::Empty)
    } else if length > MAX_CONTENT_LEN {
        Err(InputProblem::TooLong)
    } else {
        Ok(())
    }
}

/// A bucket with the number of its cookies.
#[derive(Debug, Clone, PartialEq, Eq)]
pub struct BucketEntry {
    pub bucket: Bucket,
    pub count: i64,
}

/// Mathematical counterpart of [`BucketEntry`].
pub struct BucketEntryView {
    pub bucket: BucketView,
    pub count: i64,
}

impl DeepView for BucketEntry {
    type V = BucketEntryView;

    open spec fn deep_view(&self) -> BucketEntryView {
        BucketEntryView { bucket: self.bucket.deep_view(), count: self.count }
    }
}

/// A cookie with the name to show for its bucket.
#[derive(Debug, Clone, PartialEq, Eq)]
pub struct CookieEntry {
    pub bucket_name: String,
    pub cookie: Cookie,
}

/// Mathematical counterpart of [`CookieEntry`].
pub struct CookieEntryView {
    pub bucket_name: Seq<char>,
    pub cookie: CookieView,
}

impl DeepView for CookieEntry {
    type V = CookieEntryView;

    open spec fn deep_view(&self) -> CookieEntryView {
        CookieEntryView { bucket_name: self.bucket_name@, cookie: self.cookie.deep_view() }
    }
}

/// What the driver is to put on the screen.
#[derive(Debug, Clone, PartialEq, Eq)]
pub enum Screen {
    /// A bucket has been created.
    BucketCreated { bucket: Bucket },
    /// A cookie has been added to this bucket.
    CookieAdded { bucket: Bucket },
    /// There is no cookie at all.
    NoCookies,
    /// There is no bucket at all.
    NoBuckets,
    /// All cookies, in this order.
    AllCookies { entries: Vec<CookieEntry> },
    /// This bucket has no cookie.
    NoCookiesIn { bucket: Bucket },
    /// The cookies of this bucket, in this order.
    CookiesIn { bucket: Bucket, cookies: Vec<Cookie> },
    /// All buckets, in this order, each with the number of its cookies.
    AllBuckets { buckets: Vec<BucketEntry> },
}

/// Mathematical counterpart of [`Screen`].
pub enum ScreenView {
    BucketCreated { bucket: BucketView },
    CookieAdded { bucket: BucketView },
    NoCookies,
    NoBuckets,
    AllCookies { entries: Seq<CookieEntryView> },
    NoCookiesIn { bucket: BucketView },
    CookiesIn { bucket: BucketView, cookies: Seq<CookieView> },
    AllBuckets { buckets: Seq<BucketEntryView> },
}

impl DeepView for Screen {
    type V = ScreenView;

    open spec fn deep_view(&self) -> ScreenView {
        match self {
            Screen::BucketCreated { bucket } => ScreenView::BucketCreated {
                bucket: bucket.deep_view(),
            },
            Screen::CookieAdded { bucket } => ScreenView::CookieAdded { bucket: bucket.deep_view() },
            Screen::NoCookies => ScreenView::NoCookies,
            Screen::NoBuckets => ScreenView::NoBuckets,
            Screen::AllCookies { entries } => ScreenView::AllCookies {
                entries: entries.deep_view(),
            },
            Screen::NoCookiesIn { bucket } => ScreenView::NoCookiesIn { bucket: bucket.deep_view() },
            Screen::CookiesIn { bucket, cookies } => ScreenView::CookiesIn {
                bucket: bucket.deep_view(),
                cookies: cookies.deep_view(),
            },
            Screen::AllBuckets { buckets } => ScreenView::AllBuckets {
                buckets: buckets.deep_view(),
            },
        }
    }
}

impl ScreenView {
    /// Whether the screen stays until the user presses Enter.
    pub open spec fn waits(self) -> bool {
        !(self is BucketCreated || self is CookieAdded)
    }
}

impl Screen {
    /// Whether the driver is to wait for Enter after showing the screen.
    pub fn waits_for_enter(&self) -> (r: bool)
        ensures
            r == self.deep_view().waits(),
    {
        match self {
            Screen::BucketCreated { .. } | Screen::CookieAdded { .. } => false,
            _ => true,
        }
    }
}

/// What a flow asks of the driver.
#[derive(Debug, Clone, PartialEq, Eq)]
pub enum Request {
    /// Run `get_all_buckets`.
    ListBuckets,
    /// Run `count_cookies_in_bucket`.
    CountCookies { bucket_id: i64 },
    /// Run `get_all_cookies`.
    ListCookies,
    /// Run `get_cookies_by_bucket`.
    ListCookiesIn { bucket_id: i64 },
    /// Run `create_bucket`.
    CreateBucket { name: String },
    /// Run `create_cookie`.
    CreateCookie { bucket_id: i64, content: String },
    /// Synchronize the replica with the remote store.
    Sync,
    /// Ask for the name of a bucket to create. `first` says that no bucket
    /// exists yet.
    AskBucketName { first: bool },
    /// Ask for a cookie's content. `problem` says why the text typed before
    /// was not taken, where one was typed.
    AskContent { problem: Option<InputProblem> },
    /// Let the user pick an entry of the main menu.
    ChooseOption,
    /// Let the user pick one of these buckets.
    ChooseBucket { buckets: Vec<Bucket> },
    /// Let the user pick one of these buckets, or, as the last entry, the
    /// creation of a new one.
    ChooseOrCreate { entries: Vec<BucketEntry> },
    /// Show a screen.
    Show(Screen),
}

/// Mathematical counterpart of [`Request`].
pub enum RequestView {
    ListBuckets,
    CountCookies { bucket_id: i64 },
    ListCookies,
    ListCookiesIn { bucket_id: i64 },
    CreateBucket { name: Seq<char> },
    CreateCookie { bucket_id: i64, content: Seq<char> },
    Sync,
    AskBucketName { first: bool },
    AskContent { problem: Option<InputProblem> },
    ChooseOption,
    ChooseBucket { buckets: Seq<BucketView> },
    ChooseOrCreate { entries: Seq<BucketEntryView> },
    Show(ScreenView),
}

impl DeepView for Request {
    type V = RequestView;

    open spec fn deep_view(&self) -> RequestView {
        match self {
            Request::ListBuckets => RequestView::ListBuckets,
            Request::CountCookies { bucket_id } => RequestView::CountCookies {
                bucket_id: *bucket_id,
            },
            Request::ListCookies => RequestView::ListCookies,
            Request::ListCookiesIn { bucket_id } => RequestView::ListCookiesIn {
                bucket_id: *bucket_id,
            },
            Request::CreateBucket { name } => RequestView::CreateBucket { name: name@ },
            Request::CreateCookie { bucket_id, content } => RequestView::CreateCookie {
                bucket_id: *bucket_id,
                content: content@,
            },
            Request::Sync => RequestView::Sync,
            Request::AskBucketName { first } => RequestView::AskBucketName { first: *first },
            Request::AskContent { problem } => RequestView::AskContent { problem: *problem },
            Request::ChooseOption => RequestView::ChooseOption,
            Request::ChooseBucket { buckets } => RequestView::ChooseBucket {
                buckets: buckets.deep_view(),
            },
            Request::ChooseOrCreate { entries } => RequestView::ChooseOrCreate {
                entries: entries.deep_view(),
            },
            Request::Show(screen) => RequestView::Show(screen.deep_view()),
        }
    }
}

/// What the driver reports to a flow.
#[derive(Debug, Clone, PartialEq, Eq)]
pub enum Response {
    /// Nothing has been asked yet.
    Begin,
    /// The buckets that `get_all_buckets` gave.
    Buckets(Vec<Bucket>),
    /// The number that `count_cookies_in_bucket` gave.
    Count(i64),
    /// The cookies that `get_all_cookies` or `get_cookies_by_bucket` gave.
    Cookies(Vec<Cookie>),
    /// The bucket that `create_bucket` gave.
    Created(Bucket),
    /// The identifier that `create_cookie` gave.
    Stored(i64),
    /// The synchronization went through.
    Synced,
    /// What the user typed.
    Text(String),
    /// The place of the entry that the user picked.
    Chosen(usize),
    /// The screen has been shown.
    Shown,
    /// What was asked for failed. The driver keeps the failure and gives it
    /// to the flow's caller.
    Failed,
}

/// Mathematical counterpart of [`Response`].
pub enum ResponseView {
    Begin,
    Buckets(Seq<BucketView>),
    Count(i64),
    Cookies(Seq<CookieView>),
    Created(BucketView),
    Stored(i64),
    Synced,
    Text(Seq<char>),
    Chosen(usize),
    Shown,
    Failed,
}

impl DeepView for Response {
    type V = ResponseView;

    open spec fn deep_view(&self) -> ResponseView {
        match self {
            Response::Begin => ResponseView::Begin,
            Response::Buckets(buckets) => ResponseView::Buckets(buckets.deep_view()),
            Response::Count(count) => ResponseView::Count(*count),
            Response::Cookies(cookies) => ResponseView::Cookies(cookies.deep_view()),
            Response::Created(bucket) => ResponseView::Created(bucket.deep_view()),
            Response::Stored(id) => ResponseView::Stored(*id),
            Response::Synced => ResponseView::Synced,
            Response::Text(text) => ResponseView::Text(text@),
            Response::Chosen(selection) => ResponseView::Chosen(*selection),
            Response::Shown => ResponseView::Shown,
            Response::Failed => ResponseView::Failed,
        }
    }
}

/// What the driver is to do next for a flow that gives a `T`.
#[derive(Debug, PartialEq, Eq)]
pub enum Turn<T> {
    /// Do this and report what came of it.
    Ask(Request),
    /// The flow is over; this is what it gives.
    Done(T),
    /// The flow is over without a result: what was asked for failed, or the
    /// driver reported something that the flow was not waiting for.
    Abort,
}

/// Mathematical counterpart of [`Turn`].
pub enum TurnView<V> {
    Ask(RequestView),
    Done(V),
    Abort,
}

impl<T: DeepView> DeepView for Turn<T> {
    type V = TurnView<T::V>;

    open spec fn deep_view(&self) -> TurnView<T::V> {
        match self {
            Turn::Ask(request) => TurnView::Ask(request.deep_view()),
            Turn::Done(value) => TurnView::Done(value.deep_view()),
            Turn::Abort => TurnView::Abort,
        }
    }
}

/// The name to show for the bucket of a cookie: that of the first bucket
/// with the identifier, and `Unknown` where there is none.
pub open spec fn bucket_name_of(buckets: Seq<BucketView>, bucket_id: i64) -> Seq<char>
    decreases buckets.len(),
{
    if buckets.len() == 0 {
        "Unknown"@
    } else if buckets[0].id == bucket_id {
        buckets[0].name
    } else {
        bucket_name_of(buckets.skip(1), bucket_id)
    }
}

/// The cookies as they are shown in the list of all cookies: each with the
/// name of its bucket.
pub open spec fn cookie_entries(cookies: Seq<CookieView>, buckets: Seq<BucketView>) -> Seq<
    CookieEntryView,
> {
    Seq::new(
        cookies.len(),
        |i: int|
            CookieEntryView {
                bucket_name: bucket_name_of(buckets, cookies[i].bucket_id),
                cookie: cookies[i],
            },
    )
}

/// The buckets as they are shown with their counts: the first
/// `counts.len()` of them.
pub open spec fn bucket_entries(buckets: Seq<BucketView>, counts: Seq<i64>) -> Seq<BucketEntryView> {
    Seq::new(counts.len(), |i: int| BucketEntryView { bucket: buckets[i], count: counts[i] })
}

fn copy_bucket(bucket: &Bucket) -> (r: Bucket)
    ensures
        r.deep_view() == bucket.deep_view(),
{
    Bucket { id: bucket.id, name: bucket.name.clone(), created_at: bucket.created_at }
}

fn copy_cookie(cookie: &Cookie) -> (r: Cookie)
    ensures
        r.deep_view() == cookie.deep_view(),
{
    Cookie {
        id: cookie.id,
        bucket_id: cookie.bucket_id,
        content: cookie.content.clone(),
        created_at: cookie.created_at,
    }
}

fn find_bucket_name(buckets: &Vec<Bucket>, bucket_id: i64) -> (r: String)
    ensures
        r@ == bucket_name_of(buckets.deep_view(), bucket_id),
{
    let ghost all = buckets.deep_view();
    let mut i: usize = 0;
    assert(all.skip(0) =~= all);
    while i < buckets.len()
        invariant
            i <= buckets.len(),
            all == buckets.deep_view(),
            bucket_name_of(all, bucket_id) == bucket_name_of(all.skip(i as int), bucket_id),
        decreases buckets.len() - i,
    {
        assert(all.skip(i as int)[0] == buckets[i as int].deep_view());
        if buckets[i].id == bucket_id {
            return buckets[i].name.clone();
        }
        assert(all.skip(i as int).skip(1) =~= all.skip(i + 1));
        i += 1;
    }
    "Unknown".to_owned()
}

fn make_cookie_entries(cookies: &Vec<Cookie>, buckets: &Vec<Bucket>) -> (r: Vec<CookieEntry>)
    ensures
        r.deep_view() == cookie_entries(cookies.deep_view(), buckets.deep_view()),
{
    let mut out: Vec<CookieEntry> = Vec::new();
    let mut i: usize = 0;
    while i < cookies.len()
        invariant
            i <= cookies.len(),
            out.len() == i,
            forall|k: int|
                0 <= k < i ==> (#[trigger] out[k]).deep_view() == cookie_entries(
                    cookies.deep_view(),
                    buckets.deep_view(),
                )[k],
        decreases cookies.len() - i,
    {
        let entry = CookieEntry {
            bucket_name: find_bucket_name(buckets, cookies[i].bucket_id),
            cookie: copy_cookie(&cookies[i]),
        };
        out.push(entry);
        i += 1;
    }
    assert(out.deep_view() =~= cookie_entries(cookies.deep_view(), buckets.deep_view()));
    out
}

fn make_bucket_entries(buckets: &Vec<Bucket>, counts: &Vec<i64>) -> (r: Vec<BucketEntry>)
    requires
        counts.len() <= buckets.len(),
    ensures
        r.deep_view() == bucket_entries(buckets.deep_view(), counts@),
{
    let mut out: Vec<BucketEntry> = Vec::new();
    let mut i: usize = 0;
    while i < counts.len()
        invariant
            i <= counts.len(),
            counts.len() <= buckets.len(),
            out.len() == i,
            forall|k: int|
                0 <= k < i ==> (#[trigger] out[k]).deep_view() == bucket_entries(
                    buckets.deep_view(),
                    counts@,
                )[k],
        decreases counts.len() - i,
    {
        out.push(BucketEntry { bucket: copy_bucket(&buckets[i]), count: counts[i] });
        i += 1;
    }
    assert(out.deep_view() =~= bucket_entries(buckets.deep_view(), counts@));
    out
}

fn copy_buckets(buckets: &Vec<Bucket>) -> (r: Vec<Bucket>)
    ensures
        r.deep_view() == buckets.deep_view(),
{
    let mut out: Vec<Bucket> = Vec::new();
    let mut i: usize = 0;
    while i < buckets.len()
        invariant
            i <= buckets.len(),
            out.len() == i,
            forall|k: int| 0 <= k < i ==> (#[trigger] out[k]).deep_view() == buckets[k].deep_view(),
        decreases buckets.len() - i,
    {
        out.push(copy_bucket(&buckets[i]));
        i += 1;
    }
    assert(out.deep_view() =~= buckets.deep_view());
    out
}

/// Where the showing of all cookies stands.
#[derive(Debug, Clone, PartialEq, Eq)]
pub enum ViewAll {
    Start,
    /// The cookies have been asked for.
    FetchingCookies,
    /// The cookies are here; the buckets have been asked for.
    FetchingBuckets { cookies: Vec<Cookie> },
    /// The screen is out.
    Showing,
    Finished,
}

/// Mathematical counterpart of [`ViewAll`].
pub enum ViewAllView {
    Start,
    FetchingCookies,
    FetchingBuckets { cookies: Seq<CookieView> },
    Showing,
    Finished,
}

impl DeepView for ViewAll {
    type V = ViewAllView;

    open spec fn deep_view(&self) -> ViewAllView {
        match self {
            ViewAll::Start => ViewAllView::Start,
            ViewAll::FetchingCookies => ViewAllView::FetchingCookies,
            ViewAll::FetchingBuckets { cookies } => ViewAllView::FetchingBuckets {
                cookies: cookies.deep_view(),
            },
            ViewAll::Showing => ViewAllView::Showing,
            ViewAll::Finished => ViewAllView::Finished,
        }
    }
}

/// One step of `view_all_cookies`: the cookies are fetched, then the buckets,
/// and every cookie is shown with the name of its bucket; where there is no
/// cookie, the screen says so.
pub open spec fn view_all_cookies_step(state: ViewAllView, response: ResponseView) -> (
    ViewAllView,
    TurnView<()>,
) {
    match (state, response) {
        (ViewAllView::Start, ResponseView::Begin) => (
            ViewAllView::FetchingCookies,
            TurnView::Ask(RequestView::ListCookies),
        ),
        (ViewAllView::FetchingCookies, ResponseView::Cookies(cookies)) => (
            ViewAllView::FetchingBuckets { cookies },
            TurnView::Ask(RequestView::ListBuckets),
        ),
        (ViewAllView::FetchingBuckets { cookies }, ResponseView::Buckets(buckets)) => (
            ViewAllView::Showing,
            TurnView::Ask(
                RequestView::Show(
                    if cookies.len() == 0 {
                        ScreenView::NoCookies
                    } else {
                        ScreenView::AllCookies { entries: cookie_entries(cookies, buckets) }
                    },
                ),
            ),
        ),
        (ViewAllView::Showing, ResponseView::Shown) => (ViewAllView::Finished, TurnView::Done(())),
        _ => (ViewAllView::Finished, TurnView::Abort),
    }
}

/// Shows all cookies, newest first, each with the name of its bucket.
pub fn view_all_cookies(state: ViewAll, response: Response) -> (r: (ViewAll, Turn<()>))
    ensures
        (r.0.deep_view(), r.1.deep_view()) == view_all_cookies_step(
            state.deep_view(),
            response.deep_view(),
        ),
{
    match (state, response) {
        (ViewAll::Start, Response::Begin) => (
            ViewAll::FetchingCookies,
            Turn::Ask(Request::ListCookies),
        ),
        (ViewAll::FetchingCookies, Response::Cookies(cookies)) => (
            ViewAll::FetchingBuckets { cookies },
            Turn::Ask(Request::ListBuckets),
        ),
        (ViewAll::FetchingBuckets { cookies }, Response::Buckets(buckets)) => {
            let screen = if cookies.len() == 0 {
                Screen::NoCookies
            } else {
                Screen::AllCookies { entries: make_cookie_entries(&cookies, &buckets) }
            };
            (ViewAll::Showing, Turn::Ask(Request::Show(screen)))
        },
        (ViewAll::Showing, Response::Shown) => (ViewAll::Finished, Turn::Done(())),
        _ => (ViewAll::Finished, Turn::Abort),
    }
}

/// Where the showing of one bucket's cookies stands.
#[derive(Debug, Clone, PartialEq, Eq)]
pub enum ViewByBucket {
    Start,
    /// The buckets have been asked for.
    Listing,
    /// The user is picking one of these buckets.
    Choosing { buckets: Vec<Bucket> },
    /// The cookies of this bucket have been asked for.
    Fetching { bucket: Bucket },
    /// The screen is out.
    Showing,
    Finished,
}

/// Mathematical counterpart of [`ViewByBucket`].
pub enum ViewByBucketView {
    Start,
    Listing,
    Choosing { buckets: Seq<BucketView> },
    Fetching { bucket: BucketView },
    Showing,
    Finished,
}

impl DeepView for ViewByBucket {
    type V = ViewByBucketView;

    open spec fn deep_view(&self) -> ViewByBucketView {
        match self {
            ViewByBucket::Start => ViewByBucketView::Start,
            ViewByBucket::Listing => ViewByBucketView::Listing,
            ViewByBucket::Choosing { buckets } => ViewByBucketView::Choosing {
                buckets: buckets.deep_view(),
            },
            ViewByBucket::Fetching { bucket } => ViewByBucketView::Fetching {
                bucket: bucket.deep_view(),
            },
            ViewByBucket::Showing => ViewByBucketView::Showing,
            ViewByBucket::Finished => ViewByBucketView::Finished,
        }
    }
}

/// One step of `view_cookies_by_bucket_flow`: the user picks one of the
/// buckets and its cookies are shown; where there is no bucket, or the bucket
/// has no cookie, the screen says so.
pub open spec fn view_cookies_by_bucket_flow_step(
    state: ViewByBucketView,
    response: ResponseView,
) -> (ViewByBucketView, TurnView<()>) {
    match (state, response) {
        (ViewByBucketView::Start, ResponseView::Begin) => (
            ViewByBucketView::Listing,
            TurnView::Ask(RequestView::ListBuckets),
        ),
        (ViewByBucketView::Listing, ResponseView::Buckets(buckets)) => if buckets.len() == 0 {
            (ViewByBucketView::Showing, TurnView::Ask(RequestView::Show(ScreenView::NoBuckets)))
        } else {
            (
                ViewByBucketView::Choosing { buckets },
                TurnView::Ask(RequestView::ChooseBucket { buckets }),
            )
        },
        (ViewByBucketView::Choosing { buckets }, ResponseView::Chosen(selection)) => if selection
            < buckets.len() {
            (
                ViewByBucketView::Fetching { bucket: buckets[selection as int] },
                TurnView::Ask(RequestView::ListCookiesIn { bucket_id: buckets[selection as int].id }),
            )
        } else {
            (ViewByBucketView::Finished, TurnView::Abort)
        },
        (ViewByBucketView::Fetching { bucket }, ResponseView::Cookies(cookies)) => (
            ViewByBucketView::Showing,
            TurnView::Ask(
                RequestView::Show(
                    if cookies.len() == 0 {
                        ScreenView::NoCookiesIn { bucket }
                    } else {
                        ScreenView::CookiesIn { bucket, cookies }
                    },
                ),
            ),
        ),
        (ViewByBucketView::Showing, ResponseView::Shown) => (
            ViewByBucketView::Finished,
            TurnView::Done(()),
        ),
        _ => (ViewByBucketView::Finished, TurnView::Abort),
    }
}

/// Lets the user pick a bucket and shows its cookies, newest first.
pub fn view_cookies_by_bucket_flow(state: ViewByBucket, response: Response) -> (r: (
    ViewByBucket,
    Turn<()>,
))
    ensures
        (r.0.deep_view(), r.1.deep_view()) == view_cookies_by_bucket_flow_step(
            state.deep_view(),
            response.deep_view(),
        ),
{
    match (state, response) {
        (ViewByBucket::Start, Response::Begin) => (
            ViewByBucket::Listing,
            Turn::Ask(Request::ListBuckets),
        ),
        (ViewByBucket::Listing, Response::Buckets(buckets)) => {
            if buckets.len() == 0 {
                (ViewByBucket::Showing, Turn::Ask(Request::Show(Screen::NoBuckets)))
            } else {
                let shown = copy_buckets(&buckets);
                (
                    ViewByBucket::Choosing { buckets },
                    Turn::Ask(Request::ChooseBucket { buckets: shown }),
                )
            }
        },
        (ViewByBucket::Choosing { buckets }, Response::Chosen(selection)) => {
            if selection < buckets.len() {
                let bucket = copy_bucket(&buckets[selection]);
                let bucket_id: i64 = bucket.id;
                (
                    ViewByBucket::Fetching { bucket },
                    Turn::Ask(Request::ListCookiesIn { bucket_id }),
                )
            } else {
                (ViewByBucket::Finished, Turn::Abort)
            }
        },
        (ViewByBucket::Fetching { bucket }, Response::Cookies(cookies)) => {
            let screen = if cookies.len() == 0 {
                Screen::NoCookiesIn { bucket }
            } else {
                Screen::CookiesIn { bucket, cookies }
            };
            (ViewByBucket::Showing, Turn::Ask(Request::Show(screen)))
        },
        (ViewByBucket::Showing, Response::Shown) => (ViewByBucket::Finished, Turn::Done(())),
        _ => (ViewByBucket::Finished, Turn::Abort),
    }
}

/// Where the listing of the buckets stands.
#[derive(Debug, Clone, PartialEq, Eq)]
pub enum ListBuckets {
    Start,
    /// The buckets have been asked for.
    Listing,
    /// The cookies of `buckets[counts.len()]` are being counted; `counts`
    /// holds the counts of the buckets before it.
    Counting { buckets: Vec<Bucket>, counts: Vec<i64> },
    /// The screen is out.
    Showing,
    Finished,
}

/// Mathematical counterpart of [`ListBuckets`].
pub enum ListBucketsView {
    Start,
    Listing,
    Counting { buckets: Seq<BucketView>, counts: Seq<i64> },
    Showing,
    Finished,
}

impl DeepView for ListBuckets {
    type V = ListBucketsView;

    open spec fn deep_view(&self) -> ListBucketsView {
        match self {
            ListBuckets::Start => ListBucketsView::Start,
            ListBuckets::Listing => ListBucketsView::Listing,
            ListBuckets::Counting { buckets, counts } => ListBucketsView::Counting {
                buckets: buckets.deep_view(),
                counts: counts@,
            },
            ListBuckets::Showing => ListBucketsView::Showing,
            ListBuckets::Finished => ListBucketsView::Finished,
        }
    }
}

/// One step of `list_buckets`: the buckets are fetched, the cookies of each
/// are counted in turn, and all are shown with their counts; where there is
/// no bucket, the screen says so.
pub open spec fn list_buckets_step(state: ListBucketsView, response: ResponseView) -> (
    ListBucketsView,
    TurnView<()>,
) {
    match (state, response) {
        (ListBucketsView::Start, ResponseView::Begin) => (
            ListBucketsView::Listing,
            TurnView::Ask(RequestView::ListBuckets),
        ),
        (ListBucketsView::Listing, ResponseView::Buckets(buckets)) => if buckets.len() == 0 {
            (ListBucketsView::Showing, TurnView::Ask(RequestView::Show(ScreenView::NoBuckets)))
        } else {
            (
                ListBucketsView::Counting { buckets, counts: Seq::empty() },
                TurnView::Ask(RequestView::CountCookies { bucket_id: buckets[0].id }),
            )
        },
        (ListBucketsView::Counting { buckets, counts }, ResponseView::Count(count)) => {
            let counted = counts.push(count);
            if counted.len() < buckets.len() {
                (
                    ListBucketsView::Counting { buckets, counts: counted },
                    TurnView::Ask(
                        RequestView::CountCookies { bucket_id: buckets[counted.len() as int].id },
                    ),
                )
            } else if counted.len() == buckets.len() {
                (
                    ListBucketsView::Showing,
                    TurnView::Ask(
                        RequestView::Show(
                            ScreenView::AllBuckets { buckets: bucket_entries(buckets, counted) },
                        ),
                    ),
                )
            } else {
                (ListBucketsView::Finished, TurnView::Abort)
            }
        },
        (ListBucketsView::Showing, ResponseView::Shown) => (
            ListBucketsView::Finished,
            TurnView::Done(()),
        ),
        _ => (ListBucketsView::Finished, TurnView::Abort),
    }
}

/// Shows all buckets, by name, each with the number of its cookies.
pub fn list_buckets(state: ListBuckets, response: Response) -> (r: (ListBuckets, Turn<()>))
    ensures
        (r.0.deep_view(), r.1.deep_view()) == list_buckets_step(
            state.deep_view(),
            response.deep_view(),
        ),
{
    match (state, response) {
        (ListBuckets::Start, Response::Begin) => (
            ListBuckets::Listing,
            Turn::Ask(Request::ListBuckets),
        ),
        (ListBuckets::Listing, Response::Buckets(buckets)) => {
            if buckets.len() == 0 {
                (ListBuckets::Showing, Turn::Ask(Request::Show(Screen::NoBuckets)))
            } else {
                let bucket_id: i64 = buckets[0].id;
                (
                    ListBuckets::Counting { buckets, counts: Vec::new() },
                    Turn::Ask(Request::CountCookies { bucket_id }),
                )
            }
        },
        (ListBuckets::Counting { buckets, counts }, Response::Count(count)) => {
            if counts.len() >= buckets.len() {
                return (ListBuckets::Finished, Turn::Abort);
            }
            let mut counted = counts;
            counted.push(count);
            if counted.len() < buckets.len() {
                let bucket_id: i64 = buckets[counted.len()].id;
                (
                    ListBuckets::Counting { buckets, counts: counted },
                    Turn::Ask(Request::CountCookies { bucket_id }),
                )
            } else {
                let entries = make_bucket_entries(&buckets, &counted);
                (
                    ListBuckets::Showing,
                    Turn::Ask(Request::Show(Screen::AllBuckets { buckets: entries })),
                )
            }
        },
        (ListBuckets::Showing, Response::Shown) => (ListBuckets::Finished, Turn::Done(())),
        _ => (ListBuckets::Finished, Turn::Abort),
    }
}

/// Where the choice of a bucket for a new cookie stands.
#[derive(Debug, Clone, PartialEq, Eq)]
pub enum SelectBucket {
    Start,
    /// The cookies of the bucket at place `counts.len()` are being counted;
    /// `counts` holds the counts of the buckets before it.
    Counting { counts: Vec<i64> },
    /// The user is picking a bucket, or the creation of one.
    Choosing,
    /// The user is typing the new bucket's name.
    Naming,
    /// The creation of the bucket has been asked for.
    Creating,
    /// The bucket is made; the screen that says so is out.
    Announcing { bucket: Bucket },
    /// The synchronization after the bucket's creation has been asked for.
    Syncing { bucket: Bucket },
    Finished,
}

/// Mathematical counterpart of [`SelectBucket`].
pub enum SelectBucketView {
    Start,
    Counting { counts: Seq<i64> },
    Choosing,
    Naming,
    Creating,
    Announcing { bucket: BucketView },
    Syncing { bucket: BucketView },
    Finished,
}

impl DeepView for SelectBucket {
    type V = SelectBucketView;

    open spec fn deep_view(&self) -> SelectBucketView {
        match self {
            SelectBucket::Start => SelectBucketView::Start,
            SelectBucket::Counting { counts } => SelectBucketView::Counting { counts: counts@ },
            SelectBucket::Choosing => SelectBucketView::Choosing,
            SelectBucket::Naming => SelectBucketView::Naming,
            SelectBucket::Creating => SelectBucketView::Creating,
            SelectBucket::Announcing { bucket } => SelectBucketView::Announcing {
                bucket: bucket.deep_view(),
            },
            SelectBucket::Syncing { bucket } => SelectBucketView::Syncing {
                bucket: bucket.deep_view(),
            },
            SelectBucket::Finished => SelectBucketView::Finished,
        }
    }
}

/// One step of `select_or_create_bucket` over the existing `buckets`: each
/// bucket's cookies are counted, and the user picks one of the buckets or, as
/// the entry after the last bucket, the creation of a new one. A new bucket
/// is created under the name the user types, and the replica is synchronized
/// at once, before the bucket is given to the caller.
pub open spec fn select_or_create_bucket_step(
    buckets: Seq<BucketView>,
    state: SelectBucketView,
    response: ResponseView,
) -> (SelectBucketView, TurnView<BucketView>) {
    match (state, response) {
        (SelectBucketView::Start, ResponseView::Begin) => if buckets.len() == 0 {
            (
                SelectBucketView::Choosing,
                TurnView::Ask(RequestView::ChooseOrCreate { entries: Seq::empty() }),
            )
        } else {
            (
                SelectBucketView::Counting { counts: Seq::empty() },
                TurnView::Ask(RequestView::CountCookies { bucket_id: buckets[0].id }),
            )
        },
        (SelectBucketView::Counting { counts }, ResponseView::Count(count)) => {
            let counted = counts.push(count);
            if counted.len() < buckets.len() {
                (
                    SelectBucketView::Counting { counts: counted },
                    TurnView::Ask(
                        RequestView::CountCookies { bucket_id: buckets[counted.len() as int].id },
                    ),
                )
            } else if counted.len() == buckets.len() {
                (
                    SelectBucketView::Choosing,
                    TurnView::Ask(
                        RequestView::ChooseOrCreate { entries: bucket_entries(buckets, counted) },
                    ),
                )
            } else {
                (SelectBucketView::Finished, TurnView::Abort)
            }
        },
        (SelectBucketView::Choosing, ResponseView::Chosen(selection)) => if selection
            < buckets.len() {
            (SelectBucketView::Finished, TurnView::Done(buckets[selection as int]))
        } else if selection == buckets.len() {
            (SelectBucketView::Naming, TurnView::Ask(RequestView::AskBucketName { first: false }))
        } else {
            (SelectBucketView::Finished, TurnView::Abort)
        },
        (SelectBucketView::Naming, ResponseView::Text(name)) => (
            SelectBucketView::Creating,
            TurnView::Ask(RequestView::CreateBucket { name }),
        ),
        (SelectBucketView::Creating, ResponseView::Created(bucket)) => (
            SelectBucketView::Announcing { bucket },
            TurnView::Ask(RequestView::Show(ScreenView::BucketCreated { bucket })),
        ),
        (SelectBucketView::Announcing { bucket }, ResponseView::Shown) => (
            SelectBucketView::Syncing { bucket },
            TurnView::Ask(RequestView::Sync),
        ),
        (SelectBucketView::Syncing { bucket }, ResponseView::Synced) => (
            SelectBucketView::Finished,
            TurnView::Done(bucket),
        ),
        _ => (SelectBucketView::Finished, TurnView::Abort),
    }
}

/// Lets the user pick one of `buckets` or create a new one.
pub fn select_or_create_bucket(
    buckets: &Vec<Bucket>,
    state: SelectBucket,
    response: Response,
) -> (r: (SelectBucket, Turn<Bucket>))
    ensures
        (r.0.deep_view(), r.1.deep_view()) == select_or_create_bucket_step(
            buckets.deep_view(),
            state.deep_view(),
            response.deep_view(),
        ),
{
    match (state, response) {
        (SelectBucket::Start, Response::Begin) => {
            if buckets.len() == 0 {
                let entries: Vec<BucketEntry> = Vec::new();
                assert(entries.deep_view() =~= Seq::<BucketEntryView>::empty());
                (SelectBucket::Choosing, Turn::Ask(Request::ChooseOrCreate { entries }))
            } else {
                let bucket_id: i64 = buckets[0].id;
                (
                    SelectBucket::Counting { counts: Vec::new() },
                    Turn::Ask(Request::CountCookies { bucket_id }),
                )
            }
        },
        (SelectBucket::Counting { counts }, Response::Count(count)) => {
            if counts.len() >= buckets.len() {
                return (SelectBucket::Finished, Turn::Abort);
            }
            let mut counted = counts;
            counted.push(count);
            if counted.len() < buckets.len() {
                let bucket_id: i64 = buckets[counted.len()].id;
                (
                    SelectBucket::Counting { counts: counted },
                    Turn::Ask(Request::CountCookies { bucket_id }),
                )
            } else {
                let entries = make_bucket_entries(buckets, &counted);
                (SelectBucket::Choosing, Turn::Ask(Request::ChooseOrCreate { entries }))
            }
        },
        (SelectBucket::Choosing, Response::Chosen(selection)) => {
            if selection < buckets.len() {
                (SelectBucket::Finished, Turn::Done(copy_bucket(&buckets[selection])))
            } else if selection == buckets.len() {
                (SelectBucket::Naming, Turn::Ask(Request::AskBucketName { first: false }))
            } else {
                (SelectBucket::Finished, Turn::Abort)
            }
        },
        (SelectBucket::Naming, Response::Text(name)) => (
            SelectBucket::Creating,
            Turn::Ask(Request::CreateBucket { name }),
        ),
        (SelectBucket::Creating, Response::Created(bucket)) => {
            let shown = copy_bucket(&bucket);
            (
                SelectBucket::Announcing { bucket },
                Turn::Ask(Request::Show(Screen::BucketCreated { bucket: shown })),
            )
        },
        (SelectBucket::Announcing { bucket }, Response::Shown) => (
            SelectBucket::Syncing { bucket },
            Turn::Ask(Request::Sync),
        ),
        (SelectBucket::Syncing { bucket }, Response::Synced) => (
            SelectBucket::Finished,
            Turn::Done(bucket),
        ),
        _ => (SelectBucket::Finished, Turn::Abort),
    }
}

/// Where the adding of a cookie stands.
#[derive(Debug, Clone, PartialEq, Eq)]
pub enum AddCookie {
    Start,
    /// The buckets have been asked for.
    Listing,
    /// There is no bucket yet; the user is typing the first one's name.
    NamingFirst,
    /// The creation of the first bucket has been asked for.
    CreatingFirst,
    /// The synchronization after the first bucket's creation has been asked
    /// for.
    SyncingFirst { bucket: Bucket },
    /// The user is choosing among `buckets`, or creating a bucket.
    Selecting { buckets: Vec<Bucket>, choice: SelectBucket },
    /// The user is typing the content of a cookie for this bucket.
    Writing { bucket: Bucket },
    /// The creation of the cookie has been asked for.
    Storing { bucket: Bucket },
    /// The cookie is stored; the screen that says so is out.
    Confirming,
    Finished,
}

/// Mathematical counterpart of [`AddCookie`].
pub enum AddCookieView {
    Start,
    Listing,
    NamingFirst,
    CreatingFirst,
    SyncingFirst { bucket: BucketView },
    Selecting { buckets: Seq<BucketView>, choice: SelectBucketView },
    Writing { bucket: BucketView },
    Storing { bucket: BucketView },
    Confirming,
    Finished,
}

impl DeepView for AddCookie {
    type V = AddCookieView;

    open spec fn deep_view(&self) -> AddCookieView {
        match self {
            AddCookie::Start => AddCookieView::Start,
            AddCookie::Listing => AddCookieView::Listing,
            AddCookie::NamingFirst => AddCookieView::NamingFirst,
            AddCookie::CreatingFirst => AddCookieView::CreatingFirst,
            AddCookie::SyncingFirst { bucket } => AddCookieView::SyncingFirst {
                bucket: bucket.deep_view(),
            },
            AddCookie::Selecting { buckets, choice } => AddCookieView::Selecting {
                buckets: buckets.deep_view(),
                choice: choice.deep_view(),
            },
            AddCookie::Writing { bucket } => AddCookieView::Writing { bucket: bucket.deep_view() },
            AddCookie::Storing { bucket } => AddCookieView::Storing { bucket: bucket.deep_view() },
            AddCookie::Confirming => AddCookieView::Confirming,
            AddCookie::Finished => AddCookieView::Finished,
        }
    }
}

/// How `add_cookie_flow` goes on after a step of the choice of a bucket:
/// with the content prompt once the bucket is there.
pub open spec fn after_choice(
    buckets: Seq<BucketView>,
    step: (SelectBucketView, TurnView<BucketView>),
) -> (AddCookieView, TurnView<()>) {
    match step.1 {
        TurnView::Ask(request) => (
            AddCookieView::Selecting { buckets, choice: step.0 },
            TurnView::Ask(request),
        ),
        TurnView::Done(bucket) => (
            AddCookieView::Writing { bucket },
            TurnView::Ask(RequestView::AskContent { problem: None }),
        ),
        TurnView::Abort => (AddCookieView::Finished, TurnView::Abort),
    }
}

/// One step of `add_cookie_flow`: where no bucket exists, the first one is
/// created under the name the user types and the replica is synchronized at
/// once; otherwise the user chooses as in `select_or_create_bucket`. Then
/// the user types the content, and is asked again for as long as the text
/// is empty or too long; the cookie is created in that bucket with the first
/// text that can be one.
pub open spec fn add_cookie_flow_step(state: AddCookieView, response: ResponseView) -> (
    AddCookieView,
    TurnView<()>,
) {
    match (state, response) {
        (AddCookieView::Start, ResponseView::Begin) => (
            AddCookieView::Listing,
            TurnView::Ask(RequestView::ListBuckets),
        ),
        (AddCookieView::Listing, ResponseView::Buckets(buckets)) => if buckets.len() == 0 {
            (AddCookieView::NamingFirst, TurnView::Ask(RequestView::AskBucketName { first: true }))
        } else {
            after_choice(
                buckets,
                select_or_create_bucket_step(
                    buckets,
                    SelectBucketView::Start,
                    ResponseView::Begin,
                ),
            )
        },
        (AddCookieView::NamingFirst, ResponseView::Text(name)) => (
            AddCookieView::CreatingFirst,
            TurnView::Ask(RequestView::CreateBucket { name }),
        ),
        (AddCookieView::CreatingFirst, ResponseView::Created(bucket)) => (
            AddCookieView::SyncingFirst { bucket },
            TurnView::Ask(RequestView::Sync),
        ),
        (AddCookieView::SyncingFirst { bucket }, ResponseView::Synced) => (
            AddCookieView::Writing { bucket },
            TurnView::Ask(RequestView::AskContent { problem: None }),
        ),
        (AddCookieView::Selecting { buckets, choice }, _) => after_choice(
            buckets,
            select_or_create_bucket_step(buckets, choice, response),
        ),
        (AddCookieView::Writing { bucket }, ResponseView::Text(content)) => match input_problem(
            content,
        ) {
            Some(problem) => (
                AddCookieView::Writing { bucket },
                TurnView::Ask(RequestView::AskContent { problem: Some(problem) }),
            ),
            None => (
                AddCookieView::Storing { bucket },
                TurnView::Ask(RequestView::CreateCookie { bucket_id: bucket.id, content }),
            ),
        },
        (AddCookieView::Storing { bucket }, ResponseView::Stored(_)) => (
            AddCookieView::Confirming,
            TurnView::Ask(RequestView::Show(ScreenView::CookieAdded { bucket })),
        ),
        (AddCookieView::Confirming, ResponseView::Shown) => (
            AddCookieView::Finished,
            TurnView::Done(()),
        ),
        _ => (AddCookieView::Finished, TurnView::Abort),
    }
}

fn go_on_after_choice(buckets: Vec<Bucket>, step: (SelectBucket, Turn<Bucket>)) -> (r: (
    AddCookie,
    Turn<()>,
))
    ensures
        (r.0.deep_view(), r.1.deep_view()) == after_choice(
            buckets.deep_view(),
            (step.0.deep_view(), step.1.deep_view()),
        ),
{
    match step.1 {
        Turn::Ask(request) => (
            AddCookie::Selecting { buckets, choice: step.0 },
            Turn::Ask(request),
        ),
        Turn::Done(bucket) => (
            AddCookie::Writing { bucket },
            Turn::Ask(Request::AskContent { problem: None }),
        ),
        Turn::Abort => (AddCookie::Finished, Turn::Abort),
    }
}

/// Adds a cookie to a bucket that the user picks or creates.
pub fn add_cookie_flow(state: AddCookie, response: Response) -> (r: (AddCookie, Turn<()>))
    ensures
        (r.0.deep_view(), r.1.deep_view()) == add_cookie_flow_step(
            state.deep_view(),
            response.deep_view(),
        ),
{
    match (state, response) {
        (AddCookie::Start, Response::Begin) => (
            AddCookie::Listing,
            Turn::Ask(Request::ListBuckets),
        ),
        (AddCookie::Listing, Response::Buckets(buckets)) => {
            if buckets.len() == 0 {
                (AddCookie::NamingFirst, Turn::Ask(Request::AskBucketName { first: true }))
            } else {
                let step = select_or_create_bucket(&buckets, SelectBucket::Start, Response::Begin);
                go_on_after_choice(buckets, step)
            }
        },
        (AddCookie::NamingFirst, Response::Text(name)) => (
            AddCookie::CreatingFirst,
            Turn::Ask(Request::CreateBucket { name }),
        ),
        (AddCookie::CreatingFirst, Response::Created(bucket)) => (
            AddCookie::SyncingFirst { bucket },
            Turn::Ask(Request::Sync),
        ),
        (AddCookie::SyncingFirst { bucket }, Response::Synced) => (
            AddCookie::Writing { bucket },
            Turn::Ask(Request::AskContent { problem: None }),
        ),
        (AddCookie::Selecting { buckets, choice }, response) => {
            let step = select_or_create_bucket(&buckets, choice, response);
            go_on_after_choice(buckets, step)
        },
        (AddCookie::Writing { bucket }, Response::Text(content)) => {
            match validate_cookie_input(content.as_str()) {
                Err(problem) => (
                    AddCookie::Writing { bucket },
                    Turn::Ask(Request::AskContent { problem: Some(problem) }),
                ),
                Ok(()) => {
                    let bucket_id: i64 = bucket.id;
                    (
                        AddCookie::Storing { bucket },
                        Turn::Ask(Request::CreateCookie { bucket_id, content }),
                    )
                },
            }
        },
        (AddCookie::Storing { bucket }, Response::Stored(_)) => (
            AddCookie::Confirming,
            Turn::Ask(Request::Show(Screen::CookieAdded { bucket })),
        ),
        (AddCookie::Confirming, Response::Shown) => (AddCookie::Finished, Turn::Done(())),
        _ => (AddCookie::Finished, Turn::Abort),
    }
}

/// Where one round of the main menu stands.
#[derive(Debug, Clone, PartialEq, Eq)]
pub enum MainMenu {
    Start,
    /// The user is picking an entry.
    Choosing,
    /// A cookie is being added.
    Adding(AddCookie),
    /// All cookies are being shown.
    ViewingAll(ViewAll),
    /// The cookies of one bucket are being shown.
    ViewingBucket(ViewByBucket),
    /// The buckets are being listed.
    Listing(ListBuckets),
    Finished,
}

/// Mathematical counterpart of [`MainMenu`].
pub enum MainMenuView {
    Start,
    Choosing,
    Adding(AddCookieView),
    ViewingAll(ViewAllView),
    ViewingBucket(ViewByBucketView),
    Listing(ListBucketsView),
    Finished,
}

impl DeepView for MainMenu {
    type V = MainMenuView;

    open spec fn deep_view(&self) -> MainMenuView {
        match self {
            MainMenu::Start => MainMenuView::Start,
            MainMenu::Choosing => MainMenuView::Choosing,
            MainMenu::Adding(flow) => MainMenuView::Adding(flow.deep_view()),
            MainMenu::ViewingAll(flow) => MainMenuView::ViewingAll(flow.deep_view()),
            MainMenu::ViewingBucket(flow) => MainMenuView::ViewingBucket(flow.deep_view()),
            MainMenu::Listing(flow) => MainMenuView::Listing(flow.deep_view()),
            MainMenu::Finished => MainMenuView::Finished,
        }
    }
}

/// How a round of the menu goes on after a step of the flow it runs: the
/// round is over when the flow is, and does not end the program.
pub open spec fn after_flow(running: MainMenuView, turn: TurnView<()>) -> (
    MainMenuView,
    TurnView<bool>,
) {
    match turn {
        TurnView::Ask(request) => (running, TurnView::Ask(request)),
        TurnView::Done(_) => (MainMenuView::Finished, TurnView::Done(false)),
        TurnView::Abort => (MainMenuView::Finished, TurnView::Abort),
    }
}

/// One step of `show_main_menu`: the user picks one of the five entries; the
/// flow of that entry runs to its end and the round gives `false`, or, for
/// the last entry, the round gives `true` at once: the program is to end.
pub open spec fn show_main_menu_step(state: MainMenuView, response: ResponseView) -> (
    MainMenuView,
    TurnView<bool>,
) {
    match (state, response) {
        (MainMenuView::Start, ResponseView::Begin) => (
            MainMenuView::Choosing,
            TurnView::Ask(RequestView::ChooseOption),
        ),
        (MainMenuView::Choosing, ResponseView::Chosen(selection)) => match main_menu_entry(
            selection,
        ) {
            Some(MainMenuOption::AddCookie) => {
                let step = add_cookie_flow_step(AddCookieView::Start, ResponseView::Begin);
                after_flow(MainMenuView::Adding(step.0), step.1)
            },
            Some(MainMenuOption::ViewAllCookies) => {
                let step = view_all_cookies_step(ViewAllView::Start, ResponseView::Begin);
                after_flow(MainMenuView::ViewingAll(step.0), step.1)
            },
            Some(MainMenuOption::ViewCookiesByBucket) => {
                let step = view_cookies_by_bucket_flow_step(
                    ViewByBucketView::Start,
                    ResponseView::Begin,
                );
                after_flow(MainMenuView::ViewingBucket(step.0), step.1)
            },
            Some(MainMenuOption::ListBuckets) => {
                let step = list_buckets_step(ListBucketsView::Start, ResponseView::Begin);
                after_flow(MainMenuView::Listing(step.0), step.1)
            },
            Some(MainMenuOption::Exit) => (MainMenuView::Finished, TurnView::Done(true)),
            None => (MainMenuView::Finished, TurnView::Abort),
        },
        (MainMenuView::Adding(flow), _) => {
            let step = add_cookie_flow_step(flow, response);
            after_flow(MainMenuView::Adding(step.0), step.1)
        },
        (MainMenuView::ViewingAll(flow), _) => {
            let step = view_all_cookies_step(flow, response);
            after_flow(MainMenuView::ViewingAll(step.0), step.1)
        },
        (MainMenuView::ViewingBucket(flow), _) => {
            let step = view_cookies_by_bucket_flow_step(flow, response);
            after_flow(MainMenuView::ViewingBucket(step.0), step.1)
        },
        (MainMenuView::Listing(flow), _) => {
            let step = list_buckets_step(flow, response);
            after_flow(MainMenuView::Listing(step.0), step.1)
        },
        _ => (MainMenuView::Finished, TurnView::Abort),
    }
}

fn go_on_after_flow(running: MainMenu, turn: Turn<()>) -> (r: (MainMenu, Turn<bool>))
    ensures
        (r.0.deep_view(), r.1.deep_view()) == after_flow(running.deep_view(), turn.deep_view()),
{
    match turn {
        Turn::Ask(request) => (running, Turn::Ask(request)),
        Turn::Done(_) => (MainMenu::Finished, Turn::Done(false)),
        Turn::Abort => (MainMenu::Finished, Turn::Abort),
    }
}

/// Runs one round of the main menu and says whether the program is to end.
pub fn show_main_menu(state: MainMenu, response: Response) -> (r: (MainMenu, Turn<bool>))
    ensures
        (r.0.deep_view(), r.1.deep_view()) == show_main_menu_step(
            state.deep_view(),
            response.deep_view(),
        ),
{
    match (state, response) {
        (MainMenu::Start, Response::Begin) => (MainMenu::Choosing, Turn::Ask(Request::ChooseOption)),
        (MainMenu::Choosing, Response::Chosen(selection)) => match MainMenuOption::at(selection) {
            Some(MainMenuOption::AddCookie) => {
                let step = add_cookie_flow(AddCookie::Start, Response::Begin);
                go_on_after_flow(MainMenu::Adding(step.0), step.1)
            },
            Some(MainMenuOption::ViewAllCookies) => {
                let step = view_all_cookies(ViewAll::Start, Response::Begin);
                go_on_after_flow(MainMenu::ViewingAll(step.0), step.1)
            },
            Some(MainMenuOption::ViewCookiesByBucket) => {
                let step = view_cookies_by_bucket_flow(ViewByBucket::Start, Response::Begin);
                go_on_after_flow(MainMenu::ViewingBucket(step.0), step.1)
            },
            Some(MainMenuOption::ListBuckets) => {
                let step = list_buckets(ListBuckets::Start, Response::Begin);
                go_on_after_flow(MainMenu::Listing(step.0), step.1)
            },
            Some(MainMenuOption::Exit) => (MainMenu::Finished, Turn::Done(true)),
            None => (MainMenu::Finished, Turn::Abort),
        },
        (MainMenu::Adding(flow), response) => {
            let step = add_cookie_flow(flow, response);
            go_on_after_flow(MainMenu::Adding(step.0), step.1)
        },
        (MainMenu::ViewingAll(flow), response) => {
            let step = view_all_cookies(flow, response);
            go_on_after_flow(MainMenu::ViewingAll(step.0), step.1)
        },
        (MainMenu::ViewingBucket(flow), response) => {
            let step = view_cookies_by_bucket_flow(flow, response);
            go_on_after_flow(MainMenu::ViewingBucket(step.0), step.1)
        },
        (MainMenu::Listing(flow), response) => {
            let step = list_buckets(flow, response);
            go_on_after_flow(MainMenu::Listing(step.0), step.1)
        },
        _ => (MainMenu::Finished, Turn::Abort),
    }
}

} // verus!
