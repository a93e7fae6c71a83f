//! The order in which the bot starts up and shuts down.
//!
//! The program around this crate does the work that leaves the process: it
//! loads the configuration file, reads the token, asks the service about the
//! application, builds and runs the client, and waits for an interrupt. After
//! each piece of work it reports what happened as an [`Event`]; [`step`]
//! answers with the next [`Phase`] and the [`Action`] to perform.

use crate::config::ApplicationInfo;
use vstd::prelude::*;

verus! {

/// Why a start-up was abandoned.
#[derive(Clone, Copy, Debug, PartialEq, Eq, Structural)]
pub enum Fatal {
    /// The configuration file could not be loaded.
    ConfigMissing,
    /// The environment holds no token.
    TokenMissing,
    /// The application metadata could not be fetched.
    InfoUnavailable,
    /// The client could not be constructed.
    ClientFailed,
}

/// Where the bot stands between launch and exit.
#[derive(Clone, Copy, Debug, PartialEq, Eq, Structural)]
pub enum Phase {
    /// The configuration file is being loaded.
    LoadingConfig,
    /// The token is being read from the environment.
    ReadingToken,
    /// The application metadata is being fetched.
    FetchingInfo,
    /// The client is being constructed.
    BuildingClient,
    /// The client's event loop runs and an interrupt is awaited.
    Running,
    /// An interrupt arrived; the shards were told to shut down.
    Draining,
    /// The event loop returned; the process exits normally.
    Finished,
    /// Start-up failed; the process aborts.
    Aborted(Fatal),
}

/// What the surrounding program reports back.
#[derive(Clone, Copy, Debug, PartialEq, Eq, Structural)]
pub enum Event {
    ConfigLoaded,
    ConfigMissing,
    TokenFound,
    TokenMissing,
    InfoFetched(ApplicationInfo),
    InfoFailed,
    ClientBuilt,
    ClientFailed,
    /// The operating system delivered an interrupt signal.
    Interrupted,
    /// The client's event loop returned, with an error if `failed`.
    RunEnded { failed: bool },
}

/// What the surrounding program is asked to do next.
#[derive(Clone, Copy, Debug, PartialEq, Eq, Structural)]
pub enum Action {
    /// Load the configuration file into the environment.
    LoadConfig,
    /// Set up logging and read the token from the environment.
    ReadToken,
    /// Fetch the application metadata over HTTP.
    FetchInfo,
    /// Construct the client for the application just described.
    BuildClient(ApplicationInfo),
    /// Start the event loop and begin waiting for an interrupt.
    Run,
    /// Ask every shard to shut down.
    ShutDownShards,
    /// Print the diagnostic for the failure and abort.
    Abort(Fatal),
    /// Log the event loop's error, then exit normally.
    ReportRunError,
    /// Exit normally.
    Exit,
    /// Nothing to do.
    Nothing,
}

impl Phase {
    /// No event changes a finished or aborted start-up.
    pub open spec fn terminal(self) -> bool {
        self is Finished || self is Aborted
    }

    /// Whether the process has reached its end.
    pub fn is_terminal(&self) -> (end: bool)
        ensures
            end == self.terminal(),
    {
        match self {
            Phase::Finished => true,
            Phase::Aborted(_) => true,
            _ => false,
        }
    }
}

impl Action {
    /// The actions that reach out over the network.
    pub open spec fn network(self) -> bool {
        self is FetchInfo || self is BuildClient || self is Run || self is ShutDownShards
    }

    /// Whether performing the action involves the network.
    pub fn uses_network(&self) -> (net: bool)
        ensures
            net == self.network(),
    {
        match self {
            Action::FetchInfo => true,
            Action::BuildClient(_) => true,
            Action::Run => true,
            Action::ShutDownShards => true,
            _ => false,
        }
    }
}

/// How the event loop's return is answered: an error is reported, success is
/// not; either way the process then exits normally.
pub open spec fn closing_action(failed: bool) -> Action {
    if failed {
        Action::ReportRunError
    } else {
        Action::Exit
    }
}

/// The transition table. A failure during start-up aborts with its cause; an
/// interrupt while running asks for one shutdown; the event loop's return ends
/// the process; an event that does not belong to the phase changes nothing.
pub open spec fn transition(phase: Phase, event: Event) -> (Phase, Action) {
    match (phase, event) {
        (Phase::LoadingConfig, Event::ConfigLoaded) => (Phase::ReadingToken, Action::ReadToken),
        (Phase::LoadingConfig, Event::ConfigMissing) => (
            Phase::Aborted(Fatal::ConfigMissing),
            Action::Abort(Fatal::ConfigMissing),
        ),
        (Phase::ReadingToken, Event::TokenFound) => (Phase::FetchingInfo, Action::FetchInfo),
        (Phase::ReadingToken, Event::TokenMissing) => (
            Phase::Aborted(Fatal::TokenMissing),
            Action::Abort(Fatal::TokenMissing),
        ),
        (Phase::FetchingInfo, Event::InfoFetched(info)) => (
            Phase::BuildingClient,
            Action::BuildClient(info),
        ),
        (Phase::FetchingInfo, Event::InfoFailed) => (
            Phase::Aborted(Fatal::InfoUnavailable),
            Action::Abort(Fatal::InfoUnavailable),
        ),
        (Phase::BuildingClient, Event::ClientBuilt) => (Phase::Running, Action::Run),
        (Phase::BuildingClient, Event::ClientFailed) => (
            Phase::Aborted(Fatal::ClientFailed),
            Action::Abort(Fatal::ClientFailed),
        ),
        (Phase::Running, Event::Interrupted) => (Phase::Draining, Action::ShutDownShards),
        (Phase::Running, Event::RunEnded { failed }) => (Phase::Finished, closing_action(failed)),
        (Phase::Draining, Event::RunEnded { failed }) => (Phase::Finished, closing_action(failed)),
        _ => (phase, Action::Nothing),
    }
}

/// The phase and the first action of a fresh process.
pub fn start() -> (first: (Phase, Action))
    ensures
        first == (Phase::LoadingConfig, Action::LoadConfig),
{
    (Phase::LoadingConfig, Action::LoadConfig)
}

/// Answers one event: the phase to move to and the action to perform.
pub fn step(phase: Phase, event: Event) -> (next: (Phase, Action))
    ensures
        next == transition(phase, event),
{
    match phase {
        Phase::LoadingConfig => match event {
            Event::ConfigLoaded => (Phase::ReadingToken, Action::ReadToken),
            Event::ConfigMissing => abort(Fatal::ConfigMissing),
            _ => (phase, Action::Nothing),
        },
        Phase::ReadingToken => match event {
            Event::TokenFound => (Phase::FetchingInfo, Action::FetchInfo),
            Event::TokenMissing => abort(Fatal::TokenMissing),
            _ => (phase, Action::Nothing),
        },
        Phase::FetchingInfo => match event {
            Event::InfoFetched(info) => (Phase::BuildingClient, Action::BuildClient(info)),
            Event::InfoFailed => abort(Fatal::InfoUnavailable),
            _ => (phase, Action::Nothing),
        },
        Phase::BuildingClient => match event {
            Event::ClientBuilt => (Phase::Running, Action::Run),
            Event::ClientFailed => abort(Fatal::ClientFailed),
            _ => (phase, Action::Nothing),
        },
        Phase::Running => match event {
            Event::Interrupted => (Phase::Draining, Action::ShutDownShards),
            Event::RunEnded { failed } => finish(failed),
            _ => (phase, Action::Nothing),
        },
        Phase::Draining => match event {
            Event::RunEnded { failed } => finish(failed),
            _ => (phase, Action::Nothing),
        },
        Phase::Finished => (phase, Action::Nothing),
        Phase::Aborted(_) => (phase, Action::Nothing),
    }
}

fn abort(cause: Fatal) -> (next: (Phase, Action))
    ensures
        next == (Phase::Aborted(cause), Action::Abort(cause)),
{
    (Phase::Aborted(cause), Action::Abort(cause))
}

fn finish(failed: bool) -> (next: (Phase, Action))
    ensures
        next == (Phase::Finished, closing_action(failed)),
{
    if failed {
        (Phase::Finished, Action::ReportRunError)
    } else {
        (Phase::Finished, Action::Exit)
    }
}

} // verus!
