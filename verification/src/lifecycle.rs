//! The process lifecycle: configuration, database pool, listener, serving,
//! exit. Each stage hands out one action to perform, and the outcome of that
//! action decides the next stage. A failure at any stage ends the process
//! with a non-zero status; only a serve call that returned normally ends it
//! with zero.

use crate::config::{
    configuration_of, Config, ConfigView, Environment, EnvironmentView, Variant,
};
use crate::decimal::{decimal_digits, to_decimal};
use crate::http::STATUS_REQUEST_TIMEOUT;
use crate::pool::{pool_settings, settings_for, PoolSettings, PoolSettingsView};
use crate::text::optional_text;
use vstd::prelude::*;

verus! {

/// Exit status after a graceful shutdown.
pub const EXIT_SUCCESS: i32 = 0;

/// Exit status after a failure at any stage.
pub const EXIT_FAILURE: i32 = 1;

/// How the action of the current stage ended.
#[derive(Debug, PartialEq, Eq)]
pub enum Outcome {
    /// The action was carried out.
    Succeeded,
    /// The action failed; the text describes the cause.
    Failed(String),
}

/// An [`Outcome`] as plain values.
pub enum OutcomeView {
    Succeeded,
    Failed(Seq<char>),
}

impl View for Outcome {
    type V = OutcomeView;

    open spec fn view(&self) -> OutcomeView {
        match self {
            Outcome::Succeeded => OutcomeView::Succeeded,
            Outcome::Failed(cause) => OutcomeView::Failed(cause@),
        }
    }
}

/// How requests are served.
#[derive(Clone, Copy, Debug, PartialEq, Eq, Structural)]
pub struct ServeSettings {
    /// Seconds after which the handling of a request is aborted.
    pub request_timeout_secs: u64,
    /// Status of the answer to a request whose handling was aborted.
    pub timeout_status: u16,
}

/// What the process has to do next.
#[derive(Debug, PartialEq, Eq)]
pub enum Action {
    /// Open the database pool with these settings.
    Connect(PoolSettings),
    /// Bind the TCP listener to this address.
    Bind(String),
    /// Serve until the shutdown signal, then let the requests in flight
    /// finish.
    Serve(ServeSettings),
    /// Leave with this status.
    Exit(i32),
}

/// An [`Action`] as plain values.
pub enum ActionView {
    Connect(PoolSettingsView),
    Bind(Seq<char>),
    Serve(ServeSettings),
    Exit(i32),
}

impl View for Action {
    type V = ActionView;

    open spec fn view(&self) -> ActionView {
        match self {
            Action::Connect(settings) => ActionView::Connect(settings@),
            Action::Bind(address) => ActionView::Bind(address@),
            Action::Serve(settings) => ActionView::Serve(*settings),
            Action::Exit(status) => ActionView::Exit(*status),
        }
    }
}

/// One step of the lifecycle: the line to log, if any, and the action to
/// perform.
#[derive(Debug, PartialEq, Eq)]
pub struct Step {
    pub log: Option<String>,
    pub action: Action,
}

/// A [`Step`] as plain values.
pub struct StepView {
    pub log: Option<Seq<char>>,
    pub action: ActionView,
}

impl View for Step {
    type V = StepView;

    open spec fn view(&self) -> StepView {
        StepView { log: optional_text(self.log), action: self.action@ }
    }
}

/// The stage the process is in, named after the action that is under way.
#[derive(Debug, PartialEq, Eq)]
pub enum Lifecycle {
    /// The database pool is being opened.
    Connecting(Config),
    /// The listener is being bound.
    Binding(Config),
    /// Requests are being served.
    Serving,
    /// The process is to leave with this status. Terminal.
    Exited(i32),
}

/// A [`Lifecycle`] as plain values.
pub enum LifecycleView {
    Connecting(ConfigView),
    Binding(ConfigView),
    Serving,
    Exited(i32),
}

impl View for Lifecycle {
    type V = LifecycleView;

    open spec fn view(&self) -> LifecycleView {
        match self {
            Lifecycle::Connecting(config) => LifecycleView::Connecting(config@),
            Lifecycle::Binding(config) => LifecycleView::Binding(config@),
            Lifecycle::Serving => LifecycleView::Serving,
            Lifecycle::Exited(status) => LifecycleView::Exited(*status),
        }
    }
}

/// The address the listener binds to: every interface, at `port`.
pub open spec fn address_for(port: u16) -> Seq<char> {
    "0.0.0.0:"@ + decimal_digits(port as nat)
}

/// How requests are served under `config`: each is granted the configured
/// number of seconds.
pub open spec fn serving_under(config: ConfigView) -> ServeSettings {
    ServeSettings {
        request_timeout_secs: config.global_timeout as u64,
        timeout_status: STATUS_REQUEST_TIMEOUT,
    }
}

/// The step that ends the process after a failure, logging `line`.
pub open spec fn failure(line: Seq<char>) -> (LifecycleView, StepView) {
    (
        LifecycleView::Exited(EXIT_FAILURE),
        StepView { log: Some(line), action: ActionView::Exit(EXIT_FAILURE) },
    )
}

/// The step that binds the listener for `config`, logging `log`.
pub open spec fn binding(config: ConfigView, log: Option<Seq<char>>) -> (
    LifecycleView,
    StepView,
) {
    (
        LifecycleView::Binding(config),
        StepView { log, action: ActionView::Bind(address_for(config.port)) },
    )
}

/// The first stage and step, from the environment: an invalid environment
/// ends the process at once, a valid one leads to the database pool where
/// there is a database and straight to the listener where there is none.
pub open spec fn started(variant: Variant, env: EnvironmentView) -> (LifecycleView, StepView) {
    match configuration_of(variant, env) {
        Err(e) => failure("Error while building the configuration: "@ + e.description()),
        Ok(config) => match config.database {
            Some(database) => (
                LifecycleView::Connecting(config),
                StepView {
                    log: None,
                    action: ActionView::Connect(
                        settings_for(database.database_url, database.ssl_required),
                    ),
                },
            ),
            None => binding(config, None),
        },
    }
}

/// The next stage and step, from the current stage and the outcome of its
/// action.
pub open spec fn advanced(state: LifecycleView, outcome: OutcomeView) -> (
    LifecycleView,
    StepView,
) {
    match state {
        LifecycleView::Connecting(config) => match outcome {
            OutcomeView::Succeeded => binding(config, Some("Successfully connected to database"@)),
            OutcomeView::Failed(cause) => failure(
                "Error while connecting to the database: "@ + cause,
            ),
        },
        LifecycleView::Binding(config) => match outcome {
            OutcomeView::Succeeded => (
                LifecycleView::Serving,
                StepView {
                    log: Some(
                        "Successfully bind the TCP listener to address "@ + address_for(
                            config.port,
                        ),
                    ),
                    action: ActionView::Serve(serving_under(config)),
                },
            ),
            OutcomeView::Failed(cause) => failure(
                "Error while binding the TCP listener to address "@ + address_for(config.port)
                    + ": "@ + cause,
            ),
        },
        LifecycleView::Serving => match outcome {
            OutcomeView::Succeeded => (
                LifecycleView::Exited(EXIT_SUCCESS),
                StepView {
                    log: Some("App has been gracefully shutdown"@),
                    action: ActionView::Exit(EXIT_SUCCESS),
                },
            ),
            OutcomeView::Failed(cause) => failure("Error while serving the routes: "@ + cause),
        },
        LifecycleView::Exited(status) => (
            state,
            StepView { log: None, action: ActionView::Exit(status) },
        ),
    }
}

/// The status the process leaves with, once it is to leave.
pub open spec fn status_of(state: LifecycleView) -> Option<i32> {
    match state {
        LifecycleView::Exited(status) => Some(status),
        _ => None,
    }
}

/// The stage reached from `state` after the outcomes in `outcomes`, in
/// order.
pub open spec fn stage_after(state: LifecycleView, outcomes: Seq<OutcomeView>) -> LifecycleView
    decreases outcomes.len(),
{
    if outcomes.len() == 0 {
        state
    } else {
        advanced(stage_after(state, outcomes.drop_last()), outcomes.last()).0
    }
}

/// The actions handed out from `state` in answer to the outcomes in
/// `outcomes`, one for each.
pub open spec fn actions_after(state: LifecycleView, outcomes: Seq<OutcomeView>) -> Seq<
    ActionView,
>
    decreases outcomes.len(),
{
    if outcomes.len() == 0 {
        Seq::empty()
    } else {
        actions_after(state, outcomes.drop_last()).push(
            advanced(stage_after(state, outcomes.drop_last()), outcomes.last()).1.action,
        )
    }
}

/// Writes the address the listener binds to for `port`.
pub fn bind_address(port: u16) -> (address: String)
    ensures
        address@ == address_for(port),
{
    let digits = to_decimal(port as u32);
    String::from_str("0.0.0.0:").concat(digits.as_str())
}

/// Ends the process after a failure, logging `line`.
fn fail(line: String) -> (r: (Lifecycle, Step))
    ensures
        (r.0@, r.1@) == failure(line@),
{
    (Lifecycle::Exited(EXIT_FAILURE), Step { log: Some(line), action: Action::Exit(EXIT_FAILURE) })
}

/// Moves on to binding the listener for `config`, logging `log`.
fn bind(config: Config, log: Option<String>) -> (r: (Lifecycle, Step))
    ensures
        (r.0@, r.1@) == binding(config@, optional_text(log)),
{
    let address = bind_address(config.port());
    (Lifecycle::Binding(config), Step { log, action: Action::Bind(address) })
}

impl Lifecycle {
    /// Loads the configuration from `env` and hands out the first step.
    pub fn start(variant: Variant, env: &Environment) -> (r: (Lifecycle, Step))
        ensures
            (r.0@, r.1@) == started(variant, env@),
    {
        match Config::build(variant, env) {
            Err(e) => {
                let message = e.message();
                fail(
                    String::from_str("Error while building the configuration: ").concat(
                        message.as_str(),
                    ),
                )
            },
            Ok(config) => {
                let settings = match (config.database_url(), config.ssl_required()) {
                    (Some(url), Some(ssl_required)) => Some(pool_settings(url, ssl_required)),
                    _ => None,
                };
                match settings {
                    Some(settings) => (
                        Lifecycle::Connecting(config),
                        Step { log: None, action: Action::Connect(settings) },
                    ),
                    None => bind(config, None),
                }
            },
        }
    }

    /// Takes the outcome of the action that the last step handed out, and
    /// hands out the next step.
    pub fn advance(self, outcome: Outcome) -> (r: (Lifecycle, Step))
        ensures
            (r.0@, r.1@) == advanced(self@, outcome@),
    {
        match self {
            Lifecycle::Connecting(config) => match outcome {
                Outcome::Succeeded => bind(
                    config,
                    Some(String::from_str("Successfully connected to database")),
                ),
                Outcome::Failed(cause) => fail(
                    String::from_str("Error while connecting to the database: ").concat(
                        cause.as_str(),
                    ),
                ),
            },
            Lifecycle::Binding(config) => {
                let address = bind_address(config.port());
                match outcome {
                    Outcome::Succeeded => (
                        Lifecycle::Serving,
                        Step {
                            log: Some(
                                String::from_str(
                                    "Successfully bind the TCP listener to address ",
                                ).concat(address.as_str()),
                            ),
                            action: Action::Serve(
                                ServeSettings {
                                    request_timeout_secs: config.global_timeout() as u64,
                                    timeout_status: STATUS_REQUEST_TIMEOUT,
                                },
                            ),
                        },
                    ),
                    Outcome::Failed(cause) => fail(
                        String::from_str("Error while binding the TCP listener to address ").concat(
                            address.as_str(),
                        ).concat(": ").concat(cause.as_str()),
                    ),
                }
            },
            Lifecycle::Serving => match outcome {
                Outcome::Succeeded => (
                    Lifecycle::Exited(EXIT_SUCCESS),
                    Step {
                        log: Some(String::from_str("App has been gracefully shutdown")),
                        action: Action::Exit(EXIT_SUCCESS),
                    },
                ),
                Outcome::Failed(cause) => fail(
                    String::from_str("Error while serving the routes: ").concat(cause.as_str()),
                ),
            },
            Lifecycle::Exited(status) => (
                Lifecycle::Exited(status),
                Step { log: None, action: Action::Exit(status) },
            ),
        }
    }

    /// The status the process leaves with, once it is to leave.
    pub fn exit_status(&self) -> (status: Option<i32>)
        ensures
            status == status_of(self@),
    {
        match self {
            Lifecycle::Exited(status) => Some(*status),
            _ => None,
        }
    }
}

/// Once the process is to leave, nothing changes that: whatever outcomes
/// are reported, the stage stays and every action handed out is the same
/// exit.
pub proof fn lemma_exited_is_terminal(status: i32, outcomes: Seq<OutcomeView>)
    ensures
        stage_after(LifecycleView::Exited(status), outcomes) == LifecycleView::Exited(status),
        actions_after(LifecycleView::Exited(status), outcomes).len() == outcomes.len(),
        forall|i: int|
            0 <= i < outcomes.len() ==> #[trigger] actions_after(
                LifecycleView::Exited(status),
                outcomes,
            )[i] == ActionView::Exit(status),
    decreases outcomes.len(),
{
    if outcomes.len() > 0 {
        lemma_exited_is_terminal(status, outcomes.drop_last());
    }
}

/// An environment that gives no configuration ends the process at once with
/// a failure status: the first action is that exit and so is every later
/// one, so the process neither opens a pool nor binds a socket nor serves.
pub proof fn lemma_invalid_configuration_exits(
    variant: Variant,
    env: EnvironmentView,
    outcomes: Seq<OutcomeView>,
)
    requires
        configuration_of(variant, env) is Err,
    ensures
        started(variant, env).0 == LifecycleView::Exited(EXIT_FAILURE),
        started(variant, env).1.action == ActionView::Exit(EXIT_FAILURE),
        forall|i: int|
            0 <= i < outcomes.len() ==> #[trigger] actions_after(
                started(variant, env).0,
                outcomes,
            )[i] == ActionView::Exit(EXIT_FAILURE),
{
    lemma_exited_is_terminal(EXIT_FAILURE, outcomes);
}

/// In the database variant a missing `DATABASE_URL` gives no configuration,
/// whatever the other variables hold.
pub proof fn lemma_database_url_is_required(env: EnvironmentView)
    requires
        env.database_url is None,
    ensures
        configuration_of(Variant::Database, env) is Err,
{
}

/// A failure is fatal at every stage: the step that answers it ends the
/// process with the failure status, and logs a line.
pub proof fn lemma_failure_exits_at_once(state: LifecycleView, cause: Seq<char>)
    requires
        !(state is Exited),
    ensures
        advanced(state, OutcomeView::Failed(cause)).0 == LifecycleView::Exited(EXIT_FAILURE),
        advanced(state, OutcomeView::Failed(cause)).1.action == ActionView::Exit(EXIT_FAILURE),
        advanced(state, OutcomeView::Failed(cause)).1.log is Some,
{
}

/// A step ends the process with the success status only when the serve call
/// has returned normally (or the process was already leaving with it).
pub proof fn lemma_success_needs_graceful_shutdown(state: LifecycleView, outcome: OutcomeView)
    ensures
        advanced(state, outcome).1.action == ActionView::Exit(EXIT_SUCCESS) <==> (state
            is Serving && outcome is Succeeded) || state == LifecycleView::Exited(EXIT_SUCCESS),
{
}

} // verus!
