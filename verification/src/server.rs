//! Bringing the server up and keeping it accepting connections.
//!
//! The server does not act on the world itself. It says which [`Action`] is
//! due, is told the [`Outcome`], and says what is due next. The program
//! around it carries the actions out:
//!
//! ```text
//! let mut step = server.start();
//! loop {
//!     let outcome = /* carry out step.action */;
//!     step = server.advance(step.phase, outcome);
//! }
//! ```
//!
//! Start-up is a fixed sequence of [`Stage`]s, each fatal when it fails. Past
//! the last of them the server accepts connections for good: a failed accept
//! is followed by another accept, and nothing that happens to a connection
//! once it has been handed to its handler is an outcome here at all.

use crate::auth::{auth_pairs, single_auth, single_pair};
use crate::config::Config;
use s3s::auth::SimpleAuth;
use vstd::prelude::*;
use vstd::string::*;

verus! {

/// The steps of start-up, in the order in which they are taken.
#[derive(Clone, Copy, Debug, PartialEq, Eq, Structural)]
pub enum Stage {
    /// The root directory is made to exist, missing parents included.
    RootDirectory,
    /// The storage backend is built over the root directory.
    Backend,
    /// The table of credentials is built from the one configured pair.
    Authentication,
    /// Backend and credentials are put together into the service that every
    /// connection is served with.
    Service,
    /// `host:port` is parsed into a socket address.
    Address,
    /// A listening socket is bound to that address.
    Listener,
}

/// What the program around the server is asked to do.
#[derive(Clone, Copy, Debug, PartialEq, Eq, Structural)]
pub enum Action {
    /// Create the root directory and every missing directory above it.
    CreateRoot,
    /// Build the storage backend over the root directory.
    BuildBackend,
    /// Build the table of credentials, with [`S3Server::auth`].
    BuildAuth,
    /// Put backend and credentials together into the shared service.
    ComposeService,
    /// Parse [`Config::socket_addr`] into a socket address.
    ResolveAddress,
    /// Bind a listening socket to the parsed address.
    Bind,
    /// Wait for a connection.
    Accept,
    /// Hand the connection just accepted, with a handle to the shared
    /// service, to a handler task of its own; then, without waiting for that
    /// task, wait for the next connection.
    Dispatch,
    /// Give up: report the error of the phase and end the process.
    Abort,
}

/// How an action went.
#[derive(Clone, Debug, PartialEq, Eq)]
pub enum Outcome {
    Success,
    /// The action failed; the text says why.
    Failure(String),
}

/// A step of start-up that failed, and why.
#[derive(Clone, Debug, PartialEq, Eq)]
pub struct StartupError {
    pub stage: Stage,
    pub detail: String,
}

/// Where the server stands.
#[derive(Clone, Debug, PartialEq, Eq)]
pub enum Phase {
    /// Start-up has come as far as this stage, whose action is under way.
    Starting(Stage),
    /// Start-up is done and connections are being accepted.
    Serving,
    /// Start-up failed. Nothing leads out of this phase.
    Failed(StartupError),
}

/// Where the server stands and what it asks for.
#[derive(Clone, Debug, PartialEq, Eq)]
pub struct Step {
    pub phase: Phase,
    pub action: Action,
}

/// The server: its settings, from which everything it asks for is taken.
pub struct S3Server {
    config: Config,
}

/// The action by which a stage of start-up is carried out.
pub open spec fn stage_action(stage: Stage) -> Action {
    match stage {
        Stage::RootDirectory => Action::CreateRoot,
        Stage::Backend => Action::BuildBackend,
        Stage::Authentication => Action::BuildAuth,
        Stage::Service => Action::ComposeService,
        Stage::Address => Action::ResolveAddress,
        Stage::Listener => Action::Bind,
    }
}

/// The step that is due once a stage of start-up has succeeded: the next
/// stage, or, after the last one, the first accept.
pub open spec fn step_past(stage: Stage) -> Step {
    match stage {
        Stage::RootDirectory => starting(Stage::Backend),
        Stage::Backend => starting(Stage::Authentication),
        Stage::Authentication => starting(Stage::Service),
        Stage::Service => starting(Stage::Address),
        Stage::Address => starting(Stage::Listener),
        Stage::Listener => Step { phase: Phase::Serving, action: Action::Accept },
    }
}

/// The step in which a stage of start-up is under way.
pub open spec fn starting(stage: Stage) -> Step {
    Step { phase: Phase::Starting(stage), action: stage_action(stage) }
}

/// The step with which the server starts.
pub open spec fn first_step() -> Step {
    starting(Stage::RootDirectory)
}

/// The step that follows when the action of `phase` has gone as `outcome`
/// says.
pub open spec fn next_step(phase: Phase, outcome: Outcome) -> Step {
    match phase {
        Phase::Starting(stage) => match outcome {
            Outcome::Success => step_past(stage),
            Outcome::Failure(detail) => Step {
                phase: Phase::Failed(StartupError { stage, detail }),
                action: Action::Abort,
            },
        },
        Phase::Serving => match outcome {
            Outcome::Success => Step { phase: Phase::Serving, action: Action::Dispatch },
            Outcome::Failure(_) => Step { phase: Phase::Serving, action: Action::Accept },
        },
        Phase::Failed(error) => Step { phase: Phase::Failed(error), action: Action::Abort },
    }
}

/// The text by which a failed start-up is reported: what the failed action
/// said, marked as the backend's where it was the backend that failed.
pub open spec fn failure_text(stage: Stage, detail: Seq<char>) -> Seq<char> {
    if stage == Stage::Backend {
        "Failed to create filesystem: "@ + detail
    } else {
        detail
    }
}

impl StartupError {
    /// The text by which this failure is reported.
    pub fn message(&self) -> (text: String)
        ensures
            text@ == failure_text(self.stage, self.detail@),
    {
        match self.stage {
            Stage::Backend => {
                let mut text = String::from_str("Failed to create filesystem: ");
                text.append(self.detail.as_str());
                text
            },
            _ => self.detail.clone(),
        }
    }
}

impl S3Server {
    /// A server with the given settings. Nothing is started yet.
    pub fn new(config: Config) -> (server: S3Server)
        ensures
            *server.config() == config,
    {
        S3Server { config }
    }

    /// The settings of the server, for use in contracts.
    pub closed spec fn spec_config(&self) -> &Config {
        &self.config
    }

    /// The settings of the server.
    #[verifier::when_used_as_spec(spec_config)]
    pub fn config(&self) -> (config: &Config)
        ensures
            config == self.config(),
    {
        &self.config
    }

    /// The table of credentials of the server: the configured pair and no
    /// other.
    pub fn auth(&self) -> (auth: SimpleAuth)
        ensures
            auth_pairs(auth) == single_pair(self.config().access_key@, self.config().secret_key@),
    {
        single_auth(self.config.access_key.clone(), self.config.secret_key.clone())
    }

    /// Starts the server: the first step of start-up.
    pub fn start(&self) -> (step: Step)
        ensures
            step == first_step(),
    {
        Step { phase: Phase::Starting(Stage::RootDirectory), action: Action::CreateRoot }
    }

    /// The step that follows when the action of `phase` has gone as `outcome`
    /// says.
    pub fn advance(&self, phase: Phase, outcome: Outcome) -> (step: Step)
        ensures
            step == next_step(phase, outcome),
    {
        match phase {
            Phase::Starting(stage) => match outcome {
                Outcome::Success => match stage {
                    Stage::RootDirectory => Step {
                        phase: Phase::Starting(Stage::Backend),
                        action: Action::BuildBackend,
                    },
                    Stage::Backend => Step {
                        phase: Phase::Starting(Stage::Authentication),
                        action: Action::BuildAuth,
                    },
                    Stage::Authentication => Step {
                        phase: Phase::Starting(Stage::Service),
                        action: Action::ComposeService,
                    },
                    Stage::Service => Step {
                        phase: Phase::Starting(Stage::Address),
                        action: Action::ResolveAddress,
                    },
                    Stage::Address => Step {
                        phase: Phase::Starting(Stage::Listener),
                        action: Action::Bind,
                    },
                    Stage::Listener => Step { phase: Phase::Serving, action: Action::Accept },
                },
                Outcome::Failure(detail) => Step {
                    phase: Phase::Failed(StartupError { stage, detail }),
                    action: Action::Abort,
                },
            },
            Phase::Serving => match outcome {
                Outcome::Success => Step { phase: Phase::Serving, action: Action::Dispatch },
                Outcome::Failure(_) => Step { phase: Phase::Serving, action: Action::Accept },
            },
            Phase::Failed(error) => Step { phase: Phase::Failed(error), action: Action::Abort },
        }
    }
}

/// The step the server has reached once its actions have gone as `outcomes`
/// say, one after the other from the start.
pub open spec fn step_after(outcomes: Seq<Outcome>) -> Step
    decreases outcomes.len(),
{
    if outcomes.len() == 0 {
        first_step()
    } else {
        next_step(step_after(outcomes.drop_last()).phase, outcomes.last())
    }
}

/// The place of a stage in start-up, counted from zero.
pub open spec fn stage_index(stage: Stage) -> nat {
    match stage {
        Stage::RootDirectory => 0,
        Stage::Backend => 1,
        Stage::Authentication => 2,
        Stage::Service => 3,
        Stage::Address => 4,
        Stage::Listener => 5,
    }
}

/// The stage at a place in start-up.
pub open spec fn stage_at(index: nat) -> Stage
    recommends
        index < 6,
{
    if index == 0 {
        Stage::RootDirectory
    } else if index == 1 {
        Stage::Backend
    } else if index == 2 {
        Stage::Authentication
    } else if index == 3 {
        Stage::Service
    } else if index == 4 {
        Stage::Address
    } else {
        Stage::Listener
    }
}

/// Every one of the outcomes is a success.
pub open spec fn all_succeeded(outcomes: Seq<Outcome>) -> bool {
    forall|i: int| 0 <= i < outcomes.len() ==> outcomes[i] is Success
}

/// The action takes a connection from the listening socket.
pub open spec fn takes_connection(action: Action) -> bool {
    action == Action::Accept || action == Action::Dispatch
}

/// The action touches the network: it binds the listening socket or takes a
/// connection from it.
pub open spec fn uses_socket(action: Action) -> bool {
    action == Action::Bind || takes_connection(action)
}

proof fn lemma_take_step(outcomes: Seq<Outcome>, n: int)
    requires
        0 < n <= outcomes.len(),
    ensures
        step_after(outcomes.take(n)) == next_step(
            step_after(outcomes.take(n - 1)).phase,
            outcomes[n - 1],
        ),
{
    assert(outcomes.take(n).drop_last() =~= outcomes.take(n - 1));
}

proof fn lemma_starting_history(outcomes: Seq<Outcome>)
    ensures
        step_after(outcomes).phase matches Phase::Starting(stage) ==> outcomes.len() == stage_index(
            stage,
        ),
        step_after(outcomes).phase is Starting ==> all_succeeded(outcomes),
        step_after(outcomes).phase matches Phase::Starting(stage) ==> step_after(outcomes)
            == starting(stage),
    decreases outcomes.len(),
{
    if outcomes.len() > 0 {
        lemma_starting_history(outcomes.drop_last());
        if step_after(outcomes).phase is Starting {
            assert(all_succeeded(outcomes)) by {
                assert forall|i: int| 0 <= i < outcomes.len() implies outcomes[i] is Success by {
                    if i < outcomes.len() - 1 {
                        assert(outcomes[i] == outcomes.drop_last()[i]);
                    }
                }
            }
        }
    }
}

/// What the server asks for fits where it stands. It gives up exactly when
/// start-up has failed and takes connections exactly when it is serving;
/// while a stage of start-up is under way it asks for the action of that
/// stage, so that it asks to bind only at the listener stage.
pub proof fn action_fits_phase(outcomes: Seq<Outcome>)
    ensures
        step_after(outcomes).action == Action::Abort <==> step_after(outcomes).phase is Failed,
        takes_connection(step_after(outcomes).action) <==> step_after(outcomes).phase
            == Phase::Serving,
        step_after(outcomes).phase matches Phase::Starting(stage) ==> step_after(outcomes).action
            == stage_action(stage),
        step_after(outcomes).action == Action::Bind ==> step_after(outcomes).phase
            == Phase::Starting(Stage::Listener),
    decreases outcomes.len(),
{
    if outcomes.len() > 0 {
        action_fits_phase(outcomes.drop_last());
    }
}

proof fn lemma_failed_stays(outcomes: Seq<Outcome>, at: int, n: int, error: StartupError)
    requires
        0 <= at <= n <= outcomes.len(),
        step_after(outcomes.take(at)).phase == Phase::Failed(error),
    ensures
        step_after(outcomes.take(n)) == (Step { phase: Phase::Failed(error), action: Action::Abort }),
    decreases n - at,
{
    if n == at {
        action_fits_phase(outcomes.take(at));
    } else {
        lemma_failed_stays(outcomes, at, n - 1, error);
        lemma_take_step(outcomes, n);
    }
}

proof fn lemma_serving_stays(outcomes: Seq<Outcome>, at: int, n: int)
    requires
        0 <= at <= n <= outcomes.len(),
        step_after(outcomes.take(at)).phase == Phase::Serving,
    ensures
        step_after(outcomes.take(n)).phase == Phase::Serving,
        at < n ==> step_after(outcomes.take(n)).action == (if outcomes[n - 1] is Success {
            Action::Dispatch
        } else {
            Action::Accept
        }),
    decreases n - at,
{
    if n > at {
        lemma_serving_stays(outcomes, at, n - 1);
        lemma_take_step(outcomes, n);
    }
}

/// Start-up takes its stages in order. While every action succeeds, the
/// server stands in the stage whose place is the number of actions done so
/// far; the sixth success brings the first accept, and from then on every
/// accepted connection is dispatched.
pub proof fn startup_takes_stages_in_order(outcomes: Seq<Outcome>)
    requires
        all_succeeded(outcomes),
    ensures
        outcomes.len() < 6 ==> step_after(outcomes) == starting(stage_at(outcomes.len())),
        outcomes.len() == 6 ==> step_after(outcomes) == (Step {
            phase: Phase::Serving,
            action: Action::Accept,
        }),
        outcomes.len() > 6 ==> step_after(outcomes) == (Step {
            phase: Phase::Serving,
            action: Action::Dispatch,
        }),
    decreases outcomes.len(),
{
    if outcomes.len() > 0 {
        startup_takes_stages_in_order(outcomes.drop_last());
        assert(outcomes.last() is Success);
    }
}

/// No socket is touched before start-up has come far enough. The server
/// asks to bind only when the five stages before have all succeeded, and to
/// accept or dispatch a connection only when all six stages have.
pub proof fn socket_use_needs_startup(outcomes: Seq<Outcome>)
    ensures
        step_after(outcomes).action == Action::Bind ==> outcomes.len() == 5 && all_succeeded(
            outcomes,
        ),
        takes_connection(step_after(outcomes).action) ==> outcomes.len() >= 6 && all_succeeded(
            outcomes.take(6),
        ),
    decreases outcomes.len(),
{
    action_fits_phase(outcomes);
    lemma_starting_history(outcomes);
    if takes_connection(step_after(outcomes).action) {
        let before = outcomes.drop_last();
        action_fits_phase(before);
        lemma_starting_history(before);
        if step_after(before).phase == Phase::Serving {
            socket_use_needs_startup(before);
            assert(before.take(6) =~= outcomes.take(6));
        } else {
            assert(step_after(before).phase == Phase::Starting(Stage::Listener));
            assert(outcomes.take(6) =~= outcomes);
            assert forall|i: int| 0 <= i < outcomes.len() implies outcomes[i] is Success by {
                if i < before.len() {
                    assert(outcomes[i] == before[i]);
                }
            }
        }
    }
}

/// A stage of start-up that fails ends start-up. From the failure on the
/// server stands in the failed phase, which records the stage and what its
/// action said, and asks for nothing but to give up; and at no time, before
/// the failure or after it, has it asked to accept or dispatch a connection.
pub proof fn startup_failure_is_fatal(
    outcomes: Seq<Outcome>,
    at: int,
    stage: Stage,
    detail: String,
)
    requires
        0 <= at < outcomes.len(),
        step_after(outcomes.take(at)).phase == Phase::Starting(stage),
        outcomes[at] == Outcome::Failure(detail),
    ensures
        forall|n: int|
            at < n <= outcomes.len() ==> step_after(#[trigger] outcomes.take(n)) == (Step {
                phase: Phase::Failed(StartupError { stage, detail }),
                action: Action::Abort,
            }),
        forall|n: int|
            0 <= n <= outcomes.len() ==> !takes_connection(
                step_after(#[trigger] outcomes.take(n)).action,
            ),
        stage != Stage::Listener ==> forall|n: int|
            0 <= n <= outcomes.len() ==> !uses_socket(
                step_after(#[trigger] outcomes.take(n)).action,
            ),
{
    let error = StartupError { stage, detail };
    lemma_take_step(outcomes, at + 1);
    lemma_starting_history(outcomes.take(at));
    assert forall|n: int| at < n <= outcomes.len() implies step_after(
        #[trigger] outcomes.take(n),
    ) == (Step { phase: Phase::Failed(error), action: Action::Abort }) by {
        lemma_failed_stays(outcomes, at + 1, n, error);
    }
    assert forall|n: int| 0 <= n <= at implies step_after(#[trigger] outcomes.take(n)) == starting(
        stage_at(n as nat),
    ) && n <= stage_index(stage) by {
        assert(outcomes.take(n) =~= outcomes.take(at).take(n));
        assert(all_succeeded(outcomes.take(n))) by {
            assert forall|i: int| 0 <= i < n implies outcomes.take(n)[i] is Success by {
                assert(outcomes.take(n)[i] == outcomes.take(at)[i]);
            }
        }
        startup_takes_stages_in_order(outcomes.take(n));
    }
}

/// Where `host:port` does not parse, no socket is ever bound: the server
/// never asks to bind, accept or dispatch, neither before the failure nor
/// after it, and ends in the failed phase at the address stage.
pub proof fn invalid_address_binds_nothing(outcomes: Seq<Outcome>, at: int, detail: String)
    requires
        0 <= at < outcomes.len(),
        step_after(outcomes.take(at)).phase == Phase::Starting(Stage::Address),
        outcomes[at] == Outcome::Failure(detail),
    ensures
        forall|n: int|
            0 <= n <= outcomes.len() ==> !uses_socket(step_after(#[trigger] outcomes.take(n)).action),
        step_after(outcomes) == (Step {
            phase: Phase::Failed(StartupError { stage: Stage::Address, detail }),
            action: Action::Abort,
        }),
{
    startup_failure_is_fatal(outcomes, at, Stage::Address, detail);
    assert(outcomes.take(outcomes.len() as int) =~= outcomes);
}

/// A failed accept does not end the accept loop, nor does anything else.
/// Once the server is serving it stays serving whatever the outcomes; after
/// a failed accept it asks to accept again, and every connection accepted
/// later is dispatched.
pub proof fn accept_failure_is_survived(outcomes: Seq<Outcome>, at: int)
    requires
        0 <= at <= outcomes.len(),
        step_after(outcomes.take(at)).phase == Phase::Serving,
    ensures
        forall|n: int|
            at <= n <= outcomes.len() ==> step_after(#[trigger] outcomes.take(n)).phase
                == Phase::Serving,
        forall|n: int|
            at < n <= outcomes.len() && outcomes[n - 1] is Failure ==> step_after(
                #[trigger] outcomes.take(n),
            ).action == Action::Accept,
        forall|n: int|
            at < n <= outcomes.len() && outcomes[n - 1] is Success ==> step_after(
                #[trigger] outcomes.take(n),
            ).action == Action::Dispatch,
{
    assert forall|n: int| at <= n <= outcomes.len() implies {
        let step = step_after(#[trigger] outcomes.take(n));
        &&& step.phase == Phase::Serving
        &&& at < n && outcomes[n - 1] is Failure ==> step.action == Action::Accept
        &&& at < n && outcomes[n - 1] is Success ==> step.action == Action::Dispatch
    } by {
        lemma_serving_stays(outcomes, at, n);
    }
}

} // verus!
