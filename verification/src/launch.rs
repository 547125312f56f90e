//! One launch of the server as a state machine.
//!
//! A launch never acts by itself. It names the next thing to do
//! ([`Launch::action`]); the caller does it and reports what came of it
//! ([`Launch::step`]). After [`Action::Redirect`] or [`Action::Fail`] the
//! launch is over.

use vstd::prelude::*;
use crate::config::production_env;
use crate::config::Env;
use crate::config::LaunchConfig;
use crate::error::LaunchError;
use crate::error::LaunchErrorView;
use crate::notes::lines;
use crate::notes::starting_note;
use crate::notes::starting_text;
use crate::notes::waiting_note;
use crate::notes::waiting_text;
use crate::notes::MAX_ATTEMPTS;
use crate::notes::PROGRESS_EVERY;
use crate::notes::RESPONDING_NOTE;
use crate::notes::SPAWNED_NOTE;
use crate::notes::TIMEOUT_NOTE;
use crate::paths::debug_text;
use crate::paths::option_text;
use crate::paths::path_debug_text;
use crate::paths::resolved_entry_point;
use crate::paths::server_entry_point;
use crate::probe::ProbeOutcome;

verus! {

/// Name of the bundled program that runs the server.
pub const SIDECAR: &'static str = "node";

/// Where the server listens, and where the window is sent.
pub const SERVER_URL: &'static str = "http://localhost:3000";

/// Seconds to wait before each readiness probe.
pub const PROBE_INTERVAL_SECS: u64 = 1;

/// What the caller reports back after carrying out an action.
#[derive(Debug)]
pub enum Event {
    /// Answer to `CheckEntryPoint`: whether the file is on disk.
    EntryPointChecked { exists: bool },
    /// Answer to `Spawn`: the child process runs.
    Spawned,
    /// Answer to `Spawn`: the child process could not be created.
    SpawnFailed { reason: String },
    /// Answer to `Probe`: what the request came back with.
    Probed { outcome: ProbeOutcome },
}

/// An `Event` with its texts as sequences of characters.
pub enum EventView {
    EntryPointChecked { exists: bool },
    Spawned,
    SpawnFailed { reason: Seq<char> },
    Probed { outcome: ProbeOutcome },
}

impl View for Event {
    type V = EventView;

    open spec fn view(&self) -> EventView {
        match self {
            Event::EntryPointChecked { exists } => EventView::EntryPointChecked { exists: *exists },
            Event::Spawned => EventView::Spawned,
            Event::SpawnFailed { reason } => EventView::SpawnFailed { reason: reason@ },
            Event::Probed { outcome } => EventView::Probed { outcome: *outcome },
        }
    }
}

/// What the caller is to do next.
#[derive(Debug)]
pub enum Action {
    /// Find out whether the file at `path` exists.
    CheckEntryPoint { path: String },
    /// Start `program` with `entry_point` as its only argument and `env` as
    /// its environment, and begin forwarding its output.
    Spawn { program: String, entry_point: String, env: LaunchConfig },
    /// Wait `wait_secs` seconds, then send a GET request to `url`.
    Probe { wait_secs: u64, url: String },
    /// Send the window to `url`. The launch has succeeded.
    Redirect { url: String },
    /// Give up. The launch has failed with `error`.
    Fail { error: LaunchError },
}

/// An `Action` with its texts as sequences of characters.
pub enum ActionView {
    CheckEntryPoint { path: Seq<char> },
    Spawn { program: Seq<char>, entry_point: Seq<char>, env: Env },
    Probe { wait_secs: u64, url: Seq<char> },
    Redirect { url: Seq<char> },
    Fail { error: LaunchErrorView },
}

impl View for Action {
    type V = ActionView;

    open spec fn view(&self) -> ActionView {
        match self {
            Action::CheckEntryPoint { path } => ActionView::CheckEntryPoint { path: path@ },
            Action::Spawn { program, entry_point, env } => ActionView::Spawn {
                program: program@,
                entry_point: entry_point@,
                env: env@,
            },
            Action::Probe { wait_secs, url } => ActionView::Probe {
                wait_secs: *wait_secs,
                url: url@,
            },
            Action::Redirect { url } => ActionView::Redirect { url: url@ },
            Action::Fail { error } => ActionView::Fail { error: error@ },
        }
    }
}

/// The state of a launch, as contracts speak of it.
pub enum LaunchView {
    /// Waiting to hear whether the entry point at `path` exists.
    Checking { path: Seq<char> },
    /// Waiting to hear whether the child process was created.
    Spawning { path: Seq<char> },
    /// Waiting for the answer to probe number `attempts + 1`.
    Probing { attempts: nat },
    /// Over, with success, after `attempts` probes; `responded` tells
    /// whether the last of them got a success-range answer.
    Ready { attempts: nat, responded: bool },
    /// Over, with `error`.
    Failed { error: LaunchErrorView },
}

impl LaunchView {
    /// The state in which a launch begins, given the location of the
    /// running executable if it is known.
    pub open spec fn start(executable: Option<Seq<char>>) -> LaunchView {
        match resolved_entry_point(executable) {
            Ok(path) => LaunchView::Checking { path },
            Err(error) => LaunchView::Failed { error },
        }
    }

    /// The lines logged when a launch begins.
    pub open spec fn start_log(executable: Option<Seq<char>>) -> Seq<Seq<char>> {
        match resolved_entry_point(executable) {
            Ok(path) => seq![starting_text(path_debug_text(path))],
            Err(_) => seq![],
        }
    }

    /// States that a launch can be in: the probe budget is never exceeded,
    /// and a launch that is ready without an answer has used all of it.
    pub open spec fn wf(self) -> bool {
        match self {
            LaunchView::Probing { attempts } => attempts < MAX_ATTEMPTS,
            LaunchView::Ready { attempts, responded } => {
                &&& 1 <= attempts <= MAX_ATTEMPTS
                &&& (responded || attempts == MAX_ATTEMPTS)
            },
            _ => true,
        }
    }

    /// The number of probes answered so far.
    pub open spec fn attempts(self) -> nat {
        match self {
            LaunchView::Probing { attempts } => attempts,
            LaunchView::Ready { attempts, .. } => attempts,
            _ => 0,
        }
    }

    /// Whether the launch is over.
    pub open spec fn finished(self) -> bool {
        self is Ready || self is Failed
    }

    /// How the launch ended, if it is over.
    pub open spec fn outcome(self) -> Option<Result<(), LaunchErrorView>> {
        match self {
            LaunchView::Ready { .. } => Some(Ok(())),
            LaunchView::Failed { error } => Some(Err(error)),
            _ => None,
        }
    }

    /// What is to be done in this state.
    pub open spec fn pending(self) -> ActionView {
        match self {
            LaunchView::Checking { path } => ActionView::CheckEntryPoint { path },
            LaunchView::Spawning { path } => ActionView::Spawn {
                program: SIDECAR@,
                entry_point: path,
                env: production_env(),
            },
            LaunchView::Probing { .. } => ActionView::Probe {
                wait_secs: PROBE_INTERVAL_SECS,
                url: SERVER_URL@,
            },
            LaunchView::Ready { .. } => ActionView::Redirect { url: SERVER_URL@ },
            LaunchView::Failed { error } => ActionView::Fail { error },
        }
    }

    /// Whether `event` answers the action that is pending in this state.
    pub open spec fn expects(self, event: EventView) -> bool {
        match self {
            LaunchView::Checking { .. } => event is EntryPointChecked,
            LaunchView::Spawning { .. } => event is Spawned || event is SpawnFailed,
            LaunchView::Probing { .. } => event is Probed,
            _ => false,
        }
    }

    /// The state after `event`. An event that does not answer the pending
    /// action changes nothing.
    pub open spec fn next(self, event: EventView) -> LaunchView {
        match (self, event) {
            (LaunchView::Checking { path }, EventView::EntryPointChecked { exists }) => if exists {
                LaunchView::Spawning { path }
            } else {
                LaunchView::Failed { error: LaunchErrorView::ServerNotFound { path } }
            },
            (LaunchView::Spawning { .. }, EventView::Spawned) => LaunchView::Probing {
                attempts: 0,
            },
            (LaunchView::Spawning { .. }, EventView::SpawnFailed { reason }) => LaunchView::Failed {
                error: LaunchErrorView::Spawn { reason },
            },
            (LaunchView::Probing { attempts }, EventView::Probed { outcome }) => if outcome.ready() {
                LaunchView::Ready { attempts: attempts + 1, responded: true }
            } else if attempts + 1 >= MAX_ATTEMPTS {
                LaunchView::Ready { attempts: attempts + 1, responded: false }
            } else {
                LaunchView::Probing { attempts: attempts + 1 }
            },
            _ => self,
        }
    }

    /// The lines logged on `event`: that the child runs; that the server
    /// answered; after every fifth attempt that found the server
    /// unreachable, how far the probing is; and, when the last attempt
    /// went by without a success-range answer, that time is up.
    pub open spec fn transition_log(self, event: EventView) -> Seq<Seq<char>> {
        match (self, event) {
            (LaunchView::Spawning { .. }, EventView::Spawned) => seq![SPAWNED_NOTE@],
            (LaunchView::Probing { attempts }, EventView::Probed { outcome }) => if outcome.ready() {
                seq![RESPONDING_NOTE@]
            } else {
                progress_log(attempts + 1, outcome) + timeout_log(attempts + 1)
            },
            _ => seq![],
        }
    }
}

/// The progress line, if any, after failed attempt number `attempt`: one
/// is due on every fifth attempt, and only when the server was unreachable.
pub open spec fn progress_log(attempt: nat, outcome: ProbeOutcome) -> Seq<Seq<char>> {
    if outcome is Unreachable && attempt % (PROGRESS_EVERY as nat) == 0 {
        seq![waiting_text(attempt)]
    } else {
        seq![]
    }
}

/// The timeout warning, if failed attempt number `attempt` was the last.
pub open spec fn timeout_log(attempt: nat) -> Seq<Seq<char>> {
    if attempt >= MAX_ATTEMPTS {
        seq![TIMEOUT_NOTE@]
    } else {
        seq![]
    }
}

#[derive(Debug)]
enum Stage {
    Checking { path: String },
    Spawning { path: String },
    Probing { attempts: u32 },
    Ready { attempts: u32, responded: bool },
    Failed { error: LaunchError },
}

impl Stage {
    spec fn model(self) -> LaunchView {
        match self {
            Stage::Checking { path } => LaunchView::Checking { path: path@ },
            Stage::Spawning { path } => LaunchView::Spawning { path: path@ },
            Stage::Probing { attempts } => LaunchView::Probing { attempts: attempts as nat },
            Stage::Ready { attempts, responded } => LaunchView::Ready {
                attempts: attempts as nat,
                responded,
            },
            Stage::Failed { error } => LaunchView::Failed { error: error@ },
        }
    }
}

/// One launch of the server. Every value of this type is a state that a
/// launch can be in.
#[derive(Debug)]
pub struct Launch {
    stage: Stage,
}

impl View for Launch {
    type V = LaunchView;

    closed spec fn view(&self) -> LaunchView {
        self.stage.model()
    }
}

impl Launch {
    #[verifier::type_invariant]
    spec fn well_formed(self) -> bool {
        self@.wf()
    }

    /// Begins a launch. `executable` is the location of the running
    /// executable, `None` when it could not be determined. Returns the
    /// launch and the lines to log.
    pub fn begin(executable: Option<&str>) -> (r: (Launch, Vec<String>))
        ensures
            r.0@ == LaunchView::start(option_text(executable)),
            r.0@.wf(),
            lines(r.1@) == LaunchView::start_log(option_text(executable)),
    {
        let mut log: Vec<String> = Vec::new();
        match server_entry_point(executable) {
            Ok(path) => {
                let quoted = debug_text(path.as_str());
                log.push(starting_note(quoted.as_str()));
                assert(lines(log@) =~= LaunchView::start_log(option_text(executable)));
                (Launch { stage: Stage::Checking { path } }, log)
            },
            Err(error) => {
                assert(lines(log@) =~= LaunchView::start_log(option_text(executable)));
                (Launch { stage: Stage::Failed { error } }, log)
            },
        }
    }

    /// What the caller is to do now.
    pub fn action(&self) -> (action: Action)
        ensures
            action@ == self@.pending(),
    {
        match &self.stage {
            Stage::Checking { path } => Action::CheckEntryPoint { path: path.clone() },
            Stage::Spawning { path } => Action::Spawn {
                program: String::from_str(SIDECAR),
                entry_point: path.clone(),
                env: LaunchConfig::production(),
            },
            Stage::Probing { .. } => Action::Probe {
                wait_secs: PROBE_INTERVAL_SECS,
                url: String::from_str(SERVER_URL),
            },
            Stage::Ready { .. } => Action::Redirect { url: String::from_str(SERVER_URL) },
            Stage::Failed { error } => Action::Fail { error: error.clone() },
        }
    }

    /// Takes in what came of the pending action. Returns the launch in its
    /// next state and the lines to log.
    pub fn step(self, event: Event) -> (r: (Launch, Vec<String>))
        ensures
            r.0@ == self@.next(event@),
            r.0@.wf(),
            lines(r.1@) == self@.transition_log(event@),
    {
        proof {
            use_type_invariant(&self);
        }
        let mut log: Vec<String> = Vec::new();
        assert(lines(log@) =~= Seq::<Seq<char>>::empty());
        match (self.stage, event) {
            (Stage::Checking { path }, Event::EntryPointChecked { exists }) => {
                if exists {
                    (Launch { stage: Stage::Spawning { path } }, log)
                } else {
                    (
                        Launch {
                            stage: Stage::Failed { error: LaunchError::ServerNotFound { path } },
                        },
                        log,
                    )
                }
            },
            (Stage::Spawning { .. }, Event::Spawned) => {
                log.push(String::from_str(SPAWNED_NOTE));
                assert(lines(log@) =~= seq![SPAWNED_NOTE@]);
                (Launch { stage: Stage::Probing { attempts: 0 } }, log)
            },
            (Stage::Spawning { .. }, Event::SpawnFailed { reason }) => {
                (Launch { stage: Stage::Failed { error: LaunchError::Spawn { reason } } }, log)
            },
            (Stage::Probing { attempts }, Event::Probed { outcome }) => {
                let attempt: u32 = attempts + 1;
                if outcome.is_ready() {
                    log.push(String::from_str(RESPONDING_NOTE));
                    assert(lines(log@) =~= seq![RESPONDING_NOTE@]);
                    (Launch { stage: Stage::Ready { attempts: attempt, responded: true } }, log)
                } else {
                    if is_unreachable(&outcome) && attempt % PROGRESS_EVERY == 0 {
                        log.push(waiting_note(attempt));
                    }
                    assert(lines(log@) =~= progress_log(attempt as nat, outcome));
                    if attempt >= MAX_ATTEMPTS {
                        log.push(String::from_str(TIMEOUT_NOTE));
                        assert(lines(log@) =~= progress_log(attempt as nat, outcome) + timeout_log(
                            attempt as nat,
                        ));
                        (
                            Launch {
                                stage: Stage::Ready { attempts: attempt, responded: false },
                            },
                            log,
                        )
                    } else {
                        assert(lines(log@) =~= progress_log(attempt as nat, outcome) + timeout_log(
                            attempt as nat,
                        ));
                        (Launch { stage: Stage::Probing { attempts: attempt } }, log)
                    }
                }
            },
            (stage, _) => (Launch { stage }, log),
        }
    }

    /// The number of probes answered so far.
    pub fn attempts(&self) -> (n: u32)
        ensures
            n == self@.attempts(),
            n <= MAX_ATTEMPTS,
    {
        proof {
            use_type_invariant(self);
        }
        match &self.stage {
            Stage::Probing { attempts } => *attempts,
            Stage::Ready { attempts, .. } => *attempts,
            _ => 0,
        }
    }

    /// Whether the launch is over.
    pub fn is_finished(&self) -> (done: bool)
        ensures
            done == self@.finished(),
    {
        match &self.stage {
            Stage::Ready { .. } => true,
            Stage::Failed { .. } => true,
            _ => false,
        }
    }

    /// How the launch ended, or `None` while it is under way. A launch
    /// that used up its probes without an answer has still succeeded.
    pub fn outcome(&self) -> (r: Option<Result<(), LaunchError>>)
        ensures
            match self@.outcome() {
                Some(Ok(_)) => r matches Some(Ok(_)),
                Some(Err(error)) => r matches Some(Err(e)) && e@ == error,
                None => r is None,
            },
    {
        match &self.stage {
            Stage::Ready { .. } => Some(Ok(())),
            Stage::Failed { error } => Some(Err(error.clone())),
            _ => None,
        }
    }

    /// Whether the launch ended because a probe got a success-range
    /// answer, rather than by running out of attempts or by failing.
    pub fn responded(&self) -> (r: bool)
        ensures
            r == (self@ matches LaunchView::Ready { responded, .. } && responded),
    {
        match &self.stage {
            Stage::Ready { responded, .. } => *responded,
            _ => false,
        }
    }
}

fn is_unreachable(outcome: &ProbeOutcome) -> (r: bool)
    ensures
        r == (*outcome is Unreachable),
{
    match outcome {
        ProbeOutcome::Unreachable => true,
        ProbeOutcome::Status(_) => false,
    }
}

} // verus!
