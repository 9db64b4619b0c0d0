//! The life of one run of the program: opening the replica, keeping it in
//! step with the remote store, and ending.
//!
//! As with the operations, nothing here opens or synchronizes anything. The
//! driver does what it is ordered to and reports how it went.

use vstd::prelude::*;

verus! {

/// Where a run of the program stands.
#[derive(Debug, Clone, Copy, PartialEq, Eq, Structural)]
pub enum Phase {
    /// Nothing is open.
    Disconnected,
    /// The replica is being opened.
    Opening,
    /// The replica is open; a connection is being made.
    Connecting,
    /// The tables are being created.
    PreparingSchema,
    /// The first synchronization is under way.
    FirstSync,
    /// A round of the menu is running.
    AtMenu,
    /// The synchronization after a round is under way.
    SyncingAfterRound,
    /// The last synchronization is under way.
    SyncingBeforeExit,
    /// The run is over.
    Stopped,
}

/// What the driver reports to the session.
#[derive(Debug, Clone, Copy, PartialEq, Eq, Structural)]
pub enum Outcome {
    /// Nothing has been ordered yet.
    Begin,
    /// What was ordered went through.
    Succeeded,
    /// What was ordered failed.
    Failed,
    /// The round of the menu is over; `exit` says that the user chose to
    /// leave.
    RoundOver { exit: bool },
}

/// What the driver is to do.
#[derive(Debug, Clone, Copy, PartialEq, Eq, Structural)]
pub enum Command {
    /// Open the replica.
    Open,
    /// Make a connection to it.
    Connect,
    /// Run `init_schema`.
    InitSchema,
    /// Synchronize the replica with the remote store.
    Sync,
    /// Run a round of the menu.
    ShowMenu,
    /// End the run.
    Stop,
}

/// An order to the driver.
#[derive(Debug, Clone, Copy, PartialEq, Eq, Structural)]
pub struct Order {
    /// What to do next.
    pub command: Command,
    /// Whether to tell the user first of the failure just reported.
    pub report: bool,
    /// For `Stop`: whether the run ends in failure.
    pub failed: bool,
}

impl Phase {
    /// Whether the replica is open.
    pub open spec fn connected(self) -> bool {
        !(self is Disconnected || self is Opening || self is Stopped)
    }
}

/// The order that goes on with the run.
pub open spec fn proceed(command: Command) -> Order {
    Order { command, report: false, failed: false }
}

/// The order that ends the run in failure.
pub open spec fn give_up() -> Order {
    Order { command: Command::Stop, report: true, failed: true }
}

/// One step of a run. Until the menu is first shown every failure ends the
/// run. From then on a failure is reported and the run goes on: after a
/// failed round without a synchronization, after a failed synchronization
/// with the next round. The run ends with the user's choice, after one last
/// synchronization; if that one fails the run ends all the same, in failure,
/// and nothing is tried again.
pub open spec fn session_step(phase: Phase, outcome: Outcome) -> (Phase, Order) {
    match (phase, outcome) {
        (Phase::Disconnected, Outcome::Begin) => (Phase::Opening, proceed(Command::Open)),
        (Phase::Opening, Outcome::Succeeded) => (Phase::Connecting, proceed(Command::Connect)),
        (Phase::Connecting, Outcome::Succeeded) => (
            Phase::PreparingSchema,
            proceed(Command::InitSchema),
        ),
        (Phase::PreparingSchema, Outcome::Succeeded) => (Phase::FirstSync, proceed(Command::Sync)),
        (Phase::FirstSync, Outcome::Succeeded) => (Phase::AtMenu, proceed(Command::ShowMenu)),
        (Phase::AtMenu, Outcome::RoundOver { exit }) => if exit {
            (Phase::SyncingBeforeExit, proceed(Command::Sync))
        } else {
            (Phase::SyncingAfterRound, proceed(Command::Sync))
        },
        (Phase::AtMenu, Outcome::Failed) => (
            Phase::AtMenu,
            Order { command: Command::ShowMenu, report: true, failed: false },
        ),
        (Phase::SyncingAfterRound, Outcome::Succeeded) => (
            Phase::AtMenu,
            proceed(Command::ShowMenu),
        ),
        (Phase::SyncingAfterRound, Outcome::Failed) => (
            Phase::AtMenu,
            Order { command: Command::ShowMenu, report: true, failed: false },
        ),
        (Phase::SyncingBeforeExit, Outcome::Succeeded) => (Phase::Stopped, proceed(Command::Stop)),
        _ => (Phase::Stopped, give_up()),
    }
}

fn go_on(command: Command) -> (order: Order)
    ensures
        order == proceed(command),
{
    Order { command, report: false, failed: false }
}

/// Decides what the driver does next in a run of the program.
pub fn advance(phase: Phase, outcome: Outcome) -> (r: (Phase, Order))
    ensures
        r == session_step(phase, outcome),
{
    match (phase, outcome) {
        (Phase::Disconnected, Outcome::Begin) => (Phase::Opening, go_on(Command::Open)),
        (Phase::Opening, Outcome::Succeeded) => (Phase::Connecting, go_on(Command::Connect)),
        (Phase::Connecting, Outcome::Succeeded) => (
            Phase::PreparingSchema,
            go_on(Command::InitSchema),
        ),
        (Phase::PreparingSchema, Outcome::Succeeded) => (Phase::FirstSync, go_on(Command::Sync)),
        (Phase::FirstSync, Outcome::Succeeded) => (Phase::AtMenu, go_on(Command::ShowMenu)),
        (Phase::AtMenu, Outcome::RoundOver { exit }) => {
            if exit {
                (Phase::SyncingBeforeExit, go_on(Command::Sync))
            } else {
                (Phase::SyncingAfterRound, go_on(Command::Sync))
            }
        },
        (Phase::AtMenu, Outcome::Failed) | (Phase::SyncingAfterRound, Outcome::Failed) => (
            Phase::AtMenu,
            Order { command: Command::ShowMenu, report: true, failed: false },
        ),
        (Phase::SyncingAfterRound, Outcome::Succeeded) => (Phase::AtMenu, go_on(Command::ShowMenu)),
        (Phase::SyncingBeforeExit, Outcome::Succeeded) => (Phase::Stopped, go_on(Command::Stop)),
        _ => (Phase::Stopped, Order { command: Command::Stop, report: true, failed: true }),
    }
}

} // verus!
