use cookie_jar::menu::{
    add_cookie_flow, get_bucket_color, list_buckets, select_or_create_bucket, show_main_menu,
    validate_cookie_input, view_all_cookies, view_cookies_by_bucket_flow, AddCookie, BucketEntry,
    Color, CookieEntry, InputProblem, ListBuckets, MainMenu, MainMenuOption, Request, Response,
    Screen, SelectBucket, Turn, ViewAll, ViewByBucket, MAIN_MENU_LEN, PALETTE_SIZE,
};
use cookie_jar::models::{Bucket, Cookie};

fn bucket(id: i64, name: &str) -> Bucket {
    Bucket { id, name: name.to_string(), created_at: 1_700_000_000 + id }
}

fn cookie(id: i64, bucket_id: i64, content: &str) -> Cookie {
    Cookie { id, bucket_id, content: content.to_string(), created_at: 1_700_000_100 + id }
}

#[test]
fn a_bucket_keeps_its_color() {
    assert_eq!(PALETTE_SIZE, 5);
    assert_eq!(get_bucket_color(0), Color::BrightCyan);
    assert_eq!(get_bucket_color(1), Color::BrightMagenta);
    assert_eq!(get_bucket_color(2), Color::BrightYellow);
    assert_eq!(get_bucket_color(3), Color::BrightGreen);
    assert_eq!(get_bucket_color(4), Color::BrightBlue);
    assert_eq!(get_bucket_color(5), Color::BrightCyan);
    assert_eq!(get_bucket_color(7), Color::BrightYellow);
    assert_eq!(get_bucket_color(1_000_003), Color::BrightGreen);
    assert_eq!(get_bucket_color(i64::MAX), Color::BrightYellow);
    assert_eq!(get_bucket_color(7), get_bucket_color(7));
}

#[test]
fn colors_go_round_below_zero_too() {
    assert_eq!(get_bucket_color(-1), Color::BrightBlue);
    assert_eq!(get_bucket_color(-5), Color::BrightCyan);
    assert_eq!(get_bucket_color(-6), Color::BrightBlue);
    assert_eq!(get_bucket_color(i64::MIN), Color::BrightYellow);
}

#[test]
fn the_main_menu_has_five_entries_in_order() {
    assert_eq!(MAIN_MENU_LEN, 5);
    assert_eq!(MainMenuOption::at(0), Some(MainMenuOption::AddCookie));
    assert_eq!(MainMenuOption::at(1), Some(MainMenuOption::ViewAllCookies));
    assert_eq!(MainMenuOption::at(2), Some(MainMenuOption::ViewCookiesByBucket));
    assert_eq!(MainMenuOption::at(3), Some(MainMenuOption::ListBuckets));
    assert_eq!(MainMenuOption::at(4), Some(MainMenuOption::Exit));
    assert_eq!(MainMenuOption::at(5), None);
    assert_eq!(MainMenuOption::at(usize::MAX), None);
    assert_eq!(MainMenuOption::AddCookie.label(), "Add a new cookie");
    assert_eq!(MainMenuOption::ViewAllCookies.label(), "View all cookies");
    assert_eq!(MainMenuOption::ViewCookiesByBucket.label(), "View cookies by bucket");
    assert_eq!(MainMenuOption::ListBuckets.label(), "List all buckets");
    assert_eq!(MainMenuOption::Exit.label(), "Exit");
}

#[test]
fn the_prompt_takes_one_to_300_characters() {
    assert_eq!(validate_cookie_input(""), Err(InputProblem::Empty));
    assert_eq!(validate_cookie_input("x"), Ok(()));
    assert_eq!(validate_cookie_input(&"x".repeat(300)), Ok(()));
    assert_eq!(validate_cookie_input(&"x".repeat(301)), Err(InputProblem::TooLong));
    assert_eq!(validate_cookie_input(&"é".repeat(300)), Ok(()));
    assert_eq!(validate_cookie_input(&"é".repeat(301)), Err(InputProblem::TooLong));
    assert_eq!(InputProblem::Empty.message(), "Cookie cannot be empty");
    assert_eq!(InputProblem::TooLong.message(), "Cookie must be 300 characters or less");
}

#[test]
fn only_the_confirmations_do_not_wait_for_enter() {
    assert!(!Screen::BucketCreated { bucket: bucket(1, "Work") }.waits_for_enter());
    assert!(!Screen::CookieAdded { bucket: bucket(1, "Work") }.waits_for_enter());
    assert!(Screen::NoCookies.waits_for_enter());
    assert!(Screen::NoBuckets.waits_for_enter());
    assert!(Screen::AllCookies { entries: vec![] }.waits_for_enter());
    assert!(Screen::NoCookiesIn { bucket: bucket(1, "Work") }.waits_for_enter());
    assert!(Screen::CookiesIn { bucket: bucket(1, "Work"), cookies: vec![] }.waits_for_enter());
    assert!(Screen::AllBuckets { buckets: vec![] }.waits_for_enter());
}

#[test]
fn all_cookies_are_shown_with_the_names_of_their_buckets() {
    let (state, turn) = view_all_cookies(ViewAll::Start, Response::Begin);
    assert_eq!(turn, Turn::Ask(Request::ListCookies));
    let cookies = vec![cookie(3, 2, "third"), cookie(2, 9, "second"), cookie(1, 1, "first")];
    let (state, turn) = view_all_cookies(state, Response::Cookies(cookies.clone()));
    assert_eq!(state, ViewAll::FetchingBuckets { cookies: cookies.clone() });
    assert_eq!(turn, Turn::Ask(Request::ListBuckets));
    let buckets = vec![bucket(2, "Home"), bucket(1, "Work")];
    let (state, turn) = view_all_cookies(state, Response::Buckets(buckets));
    assert_eq!(state, ViewAll::Showing);
    assert_eq!(
        turn,
        Turn::Ask(Request::Show(Screen::AllCookies {
            entries: vec![
                CookieEntry { bucket_name: "Home".to_string(), cookie: cookie(3, 2, "third") },
                CookieEntry { bucket_name: "Unknown".to_string(), cookie: cookie(2, 9, "second") },
                CookieEntry { bucket_name: "Work".to_string(), cookie: cookie(1, 1, "first") },
            ]
        }))
    );
    let (state, turn) = view_all_cookies(state, Response::Shown);
    assert_eq!(state, ViewAll::Finished);
    assert_eq!(turn, Turn::Done(()));
}

#[test]
fn no_cookies_at_all_is_said_so() {
    let state = ViewAll::FetchingBuckets { cookies: vec![] };
    let (state, turn) = view_all_cookies(state, Response::Buckets(vec![bucket(1, "Work")]));
    assert_eq!(state, ViewAll::Showing);
    assert_eq!(turn, Turn::Ask(Request::Show(Screen::NoCookies)));
}

#[test]
fn a_failure_ends_a_flow() {
    let (state, turn) = view_all_cookies(ViewAll::FetchingCookies, Response::Failed);
    assert_eq!(state, ViewAll::Finished);
    assert_eq!(turn, Turn::Abort);
    let (state, turn) = list_buckets(ListBuckets::Listing, Response::Failed);
    assert_eq!(state, ListBuckets::Finished);
    assert_eq!(turn, Turn::Abort);
    let (state, turn) = view_cookies_by_bucket_flow(ViewByBucket::Listing, Response::Failed);
    assert_eq!(state, ViewByBucket::Finished);
    assert_eq!(turn, Turn::Abort);
    let (state, turn) = add_cookie_flow(AddCookie::CreatingFirst, Response::Failed);
    assert_eq!(state, AddCookie::Finished);
    assert_eq!(turn, Turn::Abort);
    let (state, turn) = add_cookie_flow(AddCookie::Start, Response::Shown);
    assert_eq!(state, AddCookie::Finished);
    assert_eq!(turn, Turn::Abort);
    let buckets = vec![bucket(1, "Work")];
    let (state, turn) = select_or_create_bucket(&buckets, SelectBucket::Creating, Response::Failed);
    assert_eq!(state, SelectBucket::Finished);
    assert_eq!(turn, Turn::Abort);
    let (state, turn) =
        show_main_menu(MainMenu::Adding(AddCookie::Listing), Response::Failed);
    assert_eq!(state, MainMenu::Finished);
    assert_eq!(turn, Turn::Abort);
}

#[test]
fn the_cookies_of_a_picked_bucket_are_shown() {
    let (state, turn) = view_cookies_by_bucket_flow(ViewByBucket::Start, Response::Begin);
    assert_eq!(turn, Turn::Ask(Request::ListBuckets));
    let buckets = vec![bucket(2, "Home"), bucket(1, "Work")];
    let (state, turn) = view_cookies_by_bucket_flow(state, Response::Buckets(buckets.clone()));
    assert_eq!(state, ViewByBucket::Choosing { buckets: buckets.clone() });
    assert_eq!(turn, Turn::Ask(Request::ChooseBucket { buckets }));
    let (state, turn) = view_cookies_by_bucket_flow(state, Response::Chosen(1));
    assert_eq!(state, ViewByBucket::Fetching { bucket: bucket(1, "Work") });
    assert_eq!(turn, Turn::Ask(Request::ListCookiesIn { bucket_id: 1 }));
    let cookies = vec![cookie(5, 1, "later"), cookie(4, 1, "earlier")];
    let (state, turn) = view_cookies_by_bucket_flow(state, Response::Cookies(cookies.clone()));
    assert_eq!(
        turn,
        Turn::Ask(Request::Show(Screen::CookiesIn { bucket: bucket(1, "Work"), cookies }))
    );
    let (state, turn) = view_cookies_by_bucket_flow(state, Response::Shown);
    assert_eq!(state, ViewByBucket::Finished);
    assert_eq!(turn, Turn::Done(()));
}

#[test]
fn picking_without_buckets_or_cookies_is_said_so() {
    let (state, turn) = view_cookies_by_bucket_flow(ViewByBucket::Listing, Response::Buckets(vec![]));
    assert_eq!(state, ViewByBucket::Showing);
    assert_eq!(turn, Turn::Ask(Request::Show(Screen::NoBuckets)));
    let state = ViewByBucket::Fetching { bucket: bucket(1, "Work") };
    let (_, turn) = view_cookies_by_bucket_flow(state, Response::Cookies(vec![]));
    assert_eq!(turn, Turn::Ask(Request::Show(Screen::NoCookiesIn { bucket: bucket(1, "Work") })));
    let state = ViewByBucket::Choosing { buckets: vec![bucket(1, "Work")] };
    let (state, turn) = view_cookies_by_bucket_flow(state, Response::Chosen(1));
    assert_eq!(state, ViewByBucket::Finished);
    assert_eq!(turn, Turn::Abort);
}

#[test]
fn buckets_are_listed_with_their_counts() {
    let (state, turn) = list_buckets(ListBuckets::Start, Response::Begin);
    assert_eq!(turn, Turn::Ask(Request::ListBuckets));
    let buckets = vec![bucket(2, "Home"), bucket(1, "Work")];
    let (state, turn) = list_buckets(state, Response::Buckets(buckets.clone()));
    assert_eq!(state, ListBuckets::Counting { buckets: buckets.clone(), counts: vec![] });
    assert_eq!(turn, Turn::Ask(Request::CountCookies { bucket_id: 2 }));
    let (state, turn) = list_buckets(state, Response::Count(0));
    assert_eq!(state, ListBuckets::Counting { buckets, counts: vec![0] });
    assert_eq!(turn, Turn::Ask(Request::CountCookies { bucket_id: 1 }));
    let (state, turn) = list_buckets(state, Response::Count(7));
    assert_eq!(state, ListBuckets::Showing);
    assert_eq!(
        turn,
        Turn::Ask(Request::Show(Screen::AllBuckets {
            buckets: vec![
                BucketEntry { bucket: bucket(2, "Home"), count: 0 },
                BucketEntry { bucket: bucket(1, "Work"), count: 7 },
            ]
        }))
    );
    let (state, turn) = list_buckets(state, Response::Shown);
    assert_eq!(state, ListBuckets::Finished);
    assert_eq!(turn, Turn::Done(()));
    let (_, turn) = list_buckets(ListBuckets::Listing, Response::Buckets(vec![]));
    assert_eq!(turn, Turn::Ask(Request::Show(Screen::NoBuckets)));
}

#[test]
fn an_existing_bucket_is_picked_without_a_sync() {
    let buckets = vec![bucket(2, "Home"), bucket(1, "Work")];
    let (state, turn) = select_or_create_bucket(&buckets, SelectBucket::Start, Response::Begin);
    assert_eq!(turn, Turn::Ask(Request::CountCookies { bucket_id: 2 }));
    let (state, turn) = select_or_create_bucket(&buckets, state, Response::Count(3));
    assert_eq!(turn, Turn::Ask(Request::CountCookies { bucket_id: 1 }));
    let (state, turn) = select_or_create_bucket(&buckets, state, Response::Count(4));
    assert_eq!(state, SelectBucket::Choosing);
    assert_eq!(
        turn,
        Turn::Ask(Request::ChooseOrCreate {
            entries: vec![
                BucketEntry { bucket: bucket(2, "Home"), count: 3 },
                BucketEntry { bucket: bucket(1, "Work"), count: 4 },
            ]
        })
    );
    let (state, turn) = select_or_create_bucket(&buckets, state, Response::Chosen(1));
    assert_eq!(state, SelectBucket::Finished);
    assert_eq!(turn, Turn::Done(bucket(1, "Work")));
}

#[test]
fn a_new_bucket_is_synchronized_before_it_is_handed_out() {
    let buckets = vec![bucket(2, "Home"), bucket(1, "Work")];
    let (state, turn) = select_or_create_bucket(&buckets, SelectBucket::Choosing, Response::Chosen(2));
    assert_eq!(state, SelectBucket::Naming);
    assert_eq!(turn, Turn::Ask(Request::AskBucketName { first: false }));
    let (state, turn) =
        select_or_create_bucket(&buckets, state, Response::Text("Garden".to_string()));
    assert_eq!(state, SelectBucket::Creating);
    assert_eq!(turn, Turn::Ask(Request::CreateBucket { name: "Garden".to_string() }));
    let (state, turn) =
        select_or_create_bucket(&buckets, state, Response::Created(bucket(3, "Garden")));
    assert_eq!(
        turn,
        Turn::Ask(Request::Show(Screen::BucketCreated { bucket: bucket(3, "Garden") }))
    );
    let (state, turn) = select_or_create_bucket(&buckets, state, Response::Shown);
    assert_eq!(state, SelectBucket::Syncing { bucket: bucket(3, "Garden") });
    assert_eq!(turn, Turn::Ask(Request::Sync));
    let (state, turn) = select_or_create_bucket(&buckets, state, Response::Synced);
    assert_eq!(state, SelectBucket::Finished);
    assert_eq!(turn, Turn::Done(bucket(3, "Garden")));
    let (state, turn) =
        select_or_create_bucket(&buckets, SelectBucket::Choosing, Response::Chosen(3));
    assert_eq!(state, SelectBucket::Finished);
    assert_eq!(turn, Turn::Abort);
    let failed = SelectBucket::Syncing { bucket: bucket(3, "Garden") };
    let (_, turn) = select_or_create_bucket(&buckets, failed, Response::Failed);
    assert_eq!(turn, Turn::Abort);
}

#[test]
fn the_first_cookie_makes_the_first_bucket() {
    let (state, turn) = add_cookie_flow(AddCookie::Start, Response::Begin);
    assert_eq!(turn, Turn::Ask(Request::ListBuckets));
    let (state, turn) = add_cookie_flow(state, Response::Buckets(vec![]));
    assert_eq!(state, AddCookie::NamingFirst);
    assert_eq!(turn, Turn::Ask(Request::AskBucketName { first: true }));
    let (state, turn) = add_cookie_flow(state, Response::Text("Work".to_string()));
    assert_eq!(turn, Turn::Ask(Request::CreateBucket { name: "Work".to_string() }));
    let (state, turn) = add_cookie_flow(state, Response::Created(bucket(1, "Work")));
    assert_eq!(state, AddCookie::SyncingFirst { bucket: bucket(1, "Work") });
    assert_eq!(turn, Turn::Ask(Request::Sync));
    let (state, turn) = add_cookie_flow(state, Response::Synced);
    assert_eq!(state, AddCookie::Writing { bucket: bucket(1, "Work") });
    assert_eq!(turn, Turn::Ask(Request::AskContent { problem: None }));
    let (state, turn) = add_cookie_flow(state, Response::Text("Shipped the release".to_string()));
    assert_eq!(
        turn,
        Turn::Ask(Request::CreateCookie {
            bucket_id: 1,
            content: "Shipped the release".to_string()
        })
    );
    let (state, turn) = add_cookie_flow(state, Response::Stored(1));
    assert_eq!(state, AddCookie::Confirming);
    assert_eq!(turn, Turn::Ask(Request::Show(Screen::CookieAdded { bucket: bucket(1, "Work") })));
    let (state, turn) = add_cookie_flow(state, Response::Shown);
    assert_eq!(state, AddCookie::Finished);
    assert_eq!(turn, Turn::Done(()));
}

#[test]
fn a_cookie_goes_to_the_bucket_that_was_picked() {
    let buckets = vec![bucket(2, "Home"), bucket(1, "Work")];
    let (state, turn) = add_cookie_flow(AddCookie::Listing, Response::Buckets(buckets.clone()));
    assert_eq!(
        state,
        AddCookie::Selecting {
            buckets: buckets.clone(),
            choice: SelectBucket::Counting { counts: vec![] }
        }
    );
    assert_eq!(turn, Turn::Ask(Request::CountCookies { bucket_id: 2 }));
    let (state, _) = add_cookie_flow(state, Response::Count(1));
    let (state, turn) = add_cookie_flow(state, Response::Count(2));
    assert_eq!(state, AddCookie::Selecting { buckets, choice: SelectBucket::Choosing });
    assert!(matches!(turn, Turn::Ask(Request::ChooseOrCreate { .. })));
    let (state, turn) = add_cookie_flow(state, Response::Chosen(0));
    assert_eq!(state, AddCookie::Writing { bucket: bucket(2, "Home") });
    assert_eq!(turn, Turn::Ask(Request::AskContent { problem: None }));
    let (_, turn) = add_cookie_flow(state, Response::Text("Watered the plants".to_string()));
    assert_eq!(
        turn,
        Turn::Ask(Request::CreateCookie {
            bucket_id: 2,
            content: "Watered the plants".to_string()
        })
    );
}

#[test]
fn a_bucket_made_on_the_way_is_synchronized_before_the_cookie() {
    let buckets = vec![bucket(1, "Work")];
    let state = AddCookie::Selecting { buckets: buckets.clone(), choice: SelectBucket::Creating };
    let (state, turn) = add_cookie_flow(state, Response::Created(bucket(2, "Home")));
    assert_eq!(
        turn,
        Turn::Ask(Request::Show(Screen::BucketCreated { bucket: bucket(2, "Home") }))
    );
    let (state, turn) = add_cookie_flow(state, Response::Shown);
    assert_eq!(turn, Turn::Ask(Request::Sync));
    let (state, turn) = add_cookie_flow(state, Response::Synced);
    assert_eq!(state, AddCookie::Writing { bucket: bucket(2, "Home") });
    assert_eq!(turn, Turn::Ask(Request::AskContent { problem: None }));
}

#[test]
fn a_round_of_the_menu_runs_the_picked_flow() {
    let (state, turn) = show_main_menu(MainMenu::Start, Response::Begin);
    assert_eq!(state, MainMenu::Choosing);
    assert_eq!(turn, Turn::Ask(Request::ChooseOption));
    let (state, turn) = show_main_menu(MainMenu::Choosing, Response::Chosen(0));
    assert_eq!(state, MainMenu::Adding(AddCookie::Listing));
    assert_eq!(turn, Turn::Ask(Request::ListBuckets));
    let (state, turn) = show_main_menu(MainMenu::Choosing, Response::Chosen(1));
    assert_eq!(state, MainMenu::ViewingAll(ViewAll::FetchingCookies));
    assert_eq!(turn, Turn::Ask(Request::ListCookies));
    let (state, turn) = show_main_menu(state, Response::Cookies(vec![]));
    assert_eq!(state, MainMenu::ViewingAll(ViewAll::FetchingBuckets { cookies: vec![] }));
    assert_eq!(turn, Turn::Ask(Request::ListBuckets));
    let (state, turn) = show_main_menu(state, Response::Buckets(vec![]));
    assert_eq!(turn, Turn::Ask(Request::Show(Screen::NoCookies)));
    let (state, turn) = show_main_menu(state, Response::Shown);
    assert_eq!(state, MainMenu::Finished);
    assert_eq!(turn, Turn::Done(false));
    let (state, turn) = show_main_menu(MainMenu::Choosing, Response::Chosen(2));
    assert_eq!(state, MainMenu::ViewingBucket(ViewByBucket::Listing));
    assert_eq!(turn, Turn::Ask(Request::ListBuckets));
    let (state, turn) = show_main_menu(MainMenu::Choosing, Response::Chosen(3));
    assert_eq!(state, MainMenu::Listing(ListBuckets::Listing));
    assert_eq!(turn, Turn::Ask(Request::ListBuckets));
}

#[test]
fn the_last_entry_of_the_menu_ends_the_program() {
    let (state, turn) = show_main_menu(MainMenu::Choosing, Response::Chosen(4));
    assert_eq!(state, MainMenu::Finished);
    assert_eq!(turn, Turn::Done(true));
    let (state, turn) = show_main_menu(MainMenu::Choosing, Response::Chosen(5));
    assert_eq!(state, MainMenu::Finished);
    assert_eq!(turn, Turn::Abort);
}

#[test]
fn a_text_that_cannot_be_a_cookie_is_asked_for_again() {
    let writing = AddCookie::Writing { bucket: bucket(1, "Work") };
    let (state, turn) = add_cookie_flow(writing.clone(), Response::Text(String::new()));
    assert_eq!(state, writing);
    assert_eq!(turn, Turn::Ask(Request::AskContent { problem: Some(InputProblem::Empty) }));
    let (state, turn) = add_cookie_flow(state, Response::Text("x".repeat(301)));
    assert_eq!(state, writing);
    assert_eq!(turn, Turn::Ask(Request::AskContent { problem: Some(InputProblem::TooLong) }));
    let (state, turn) = add_cookie_flow(state, Response::Text("é".repeat(301)));
    assert_eq!(state, writing);
    assert_eq!(turn, Turn::Ask(Request::AskContent { problem: Some(InputProblem::TooLong) }));
    let (state, turn) = add_cookie_flow(state, Response::Text("x".repeat(300)));
    assert_eq!(state, AddCookie::Storing { bucket: bucket(1, "Work") });
    assert_eq!(
        turn,
        Turn::Ask(Request::CreateCookie { bucket_id: 1, content: "x".repeat(300) })
    );
    let (state, turn) = add_cookie_flow(writing, Response::Text("x".to_string()));
    assert_eq!(state, AddCookie::Storing { bucket: bucket(1, "Work") });
    assert_eq!(turn, Turn::Ask(Request::CreateCookie { bucket_id: 1, content: "x".to_string() }));
}
