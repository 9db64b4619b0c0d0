use cookie_jar::config::ConfigError;
use cookie_jar::db::{Database, SYNC_INTERVAL_SECS};
use cookie_jar::session::{advance, Command, Order, Outcome, Phase};

fn go_on(command: Command) -> Order {
    Order { command, report: false, failed: false }
}

#[test]
fn the_replica_needs_both_credentials() {
    let path = "/home/ada/.cookie_jar/cookie_jar.db".to_string();
    let url = Some("libsql://jar.example".to_string());
    let token = Some("token".to_string());
    assert_eq!(
        Database::new(path.clone(), url.clone(), token.clone()),
        Ok(Database {
            local_path: path.clone(),
            url: "libsql://jar.example".to_string(),
            auth_token: "token".to_string(),
            sync_interval_secs: 60,
        })
    );
    assert_eq!(SYNC_INTERVAL_SECS, 60);
    assert_eq!(
        Database::new(path.clone(), None, token.clone()),
        Err(ConfigError::MissingDatabaseUrl)
    );
    assert_eq!(Database::new(path.clone(), url, None), Err(ConfigError::MissingAuthToken));
    assert_eq!(Database::new(path, None, None), Err(ConfigError::MissingDatabaseUrl));
    assert_eq!(
        ConfigError::MissingDatabaseUrl.message(),
        "TURSO_DATABASE_URL must be set in .env file"
    );
    assert_eq!(
        ConfigError::MissingAuthToken.message(),
        "TURSO_AUTH_TOKEN must be set in .env file"
    );
    assert_eq!(
        ConfigError::HomeNotFound.message(),
        "Could not determine home directory. Please set HOME or USERPROFILE environment variable."
    );
}

#[test]
fn a_run_opens_connects_prepares_and_synchronizes_before_the_menu() {
    let (phase, order) = advance(Phase::Disconnected, Outcome::Begin);
    assert_eq!((phase, order), (Phase::Opening, go_on(Command::Open)));
    let (phase, order) = advance(phase, Outcome::Succeeded);
    assert_eq!((phase, order), (Phase::Connecting, go_on(Command::Connect)));
    let (phase, order) = advance(phase, Outcome::Succeeded);
    assert_eq!((phase, order), (Phase::PreparingSchema, go_on(Command::InitSchema)));
    let (phase, order) = advance(phase, Outcome::Succeeded);
    assert_eq!((phase, order), (Phase::FirstSync, go_on(Command::Sync)));
    let (phase, order) = advance(phase, Outcome::Succeeded);
    assert_eq!((phase, order), (Phase::AtMenu, go_on(Command::ShowMenu)));
}

#[test]
fn every_round_is_followed_by_a_synchronization() {
    let (phase, order) = advance(Phase::AtMenu, Outcome::RoundOver { exit: false });
    assert_eq!((phase, order), (Phase::SyncingAfterRound, go_on(Command::Sync)));
    let (phase, order) = advance(phase, Outcome::Succeeded);
    assert_eq!((phase, order), (Phase::AtMenu, go_on(Command::ShowMenu)));
}

#[test]
fn leaving_synchronizes_once_more() {
    let (phase, order) = advance(Phase::AtMenu, Outcome::RoundOver { exit: true });
    assert_eq!((phase, order), (Phase::SyncingBeforeExit, go_on(Command::Sync)));
    let (phase, order) = advance(phase, Outcome::Succeeded);
    assert_eq!((phase, order), (Phase::Stopped, go_on(Command::Stop)));
    let (phase, order) = advance(Phase::SyncingBeforeExit, Outcome::Failed);
    assert_eq!(phase, Phase::Stopped);
    assert_eq!(order, Order { command: Command::Stop, report: true, failed: true });
}

#[test]
fn a_failure_during_startup_ends_the_run() {
    for phase in [Phase::Opening, Phase::Connecting, Phase::PreparingSchema, Phase::FirstSync] {
        let (next, order) = advance(phase, Outcome::Failed);
        assert_eq!(next, Phase::Stopped);
        assert_eq!(order, Order { command: Command::Stop, report: true, failed: true });
    }
}

#[test]
fn a_failure_after_startup_is_reported_and_the_run_goes_on() {
    let again = Order { command: Command::ShowMenu, report: true, failed: false };
    assert_eq!(advance(Phase::AtMenu, Outcome::Failed), (Phase::AtMenu, again));
    assert_eq!(advance(Phase::SyncingAfterRound, Outcome::Failed), (Phase::AtMenu, again));
}

#[test]
fn a_report_out_of_turn_ends_the_run() {
    let stop = Order { command: Command::Stop, report: true, failed: true };
    assert_eq!(advance(Phase::Disconnected, Outcome::Succeeded), (Phase::Stopped, stop));
    assert_eq!(advance(Phase::Stopped, Outcome::Begin), (Phase::Stopped, stop));
    assert_eq!(advance(Phase::AtMenu, Outcome::Succeeded), (Phase::Stopped, stop));
    assert_eq!(
        advance(Phase::Opening, Outcome::RoundOver { exit: false }),
        (Phase::Stopped, stop)
    );
}
