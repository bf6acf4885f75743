//! The node's lifecycle: from a configuration to a running node, and from a
//! termination request to a node that has stopped.
//!
//! Like the orchestration pass, the supervisor is a state machine that the
//! host drives: it is told what happened and says what to do.

use crate::config::{
    clone_optional, conductor_config, conductor_settings, ConductorSettings, ConductorSettingsView,
    HcConfig, HcConfigView,
};
use crate::error::{OrchestrationError, OrchestrationErrorView};
use crate::signal::StateSignal;
use vstd::prelude::*;

verus! {

/// The stages of a node's life.
#[derive(Clone, Copy, Debug, PartialEq, Eq, Structural)]
pub enum Lifecycle {
    /// The datastore has not been looked at, or is being created.
    Starting,
    /// The datastore is there; the runtime is being started.
    DatastoreChecked,
    /// The runtime runs; the orchestration pass is being handed over.
    RuntimeUp,
    /// The orchestration pass is under way.
    Orchestrating,
    /// The application is installed, enabled and reachable.
    Ready,
    /// A termination request is being passed to the teardown.
    ShutdownRequested,
    /// The runtime is shutting down.
    Stopping,
    /// The runtime has stopped; the process may exit.
    Stopped,
    /// Startup has failed; the process is to end.
    Failed,
}

impl Lifecycle {
    /// Whether the node is in a condition that others may rely on.
    pub open spec fn is_stable(self) -> bool {
        self == Lifecycle::Ready || self == Lifecycle::Stopped
    }

    /// Whether the node is still on its way to `Ready`.
    pub open spec fn is_starting_up(self) -> bool {
        self == Lifecycle::Starting || self == Lifecycle::DatastoreChecked || self
            == Lifecycle::RuntimeUp || self == Lifecycle::Orchestrating
    }
}

/// The one-shot request to shut down.
#[derive(Clone, Copy, Debug, PartialEq, Eq, Structural)]
pub enum ShutdownToken {
    /// Nobody has asked the node to stop.
    Pending,
    /// The node was asked to stop; the teardown has not begun.
    Requested,
    /// The teardown has taken the request. It takes it once.
    Completed,
}

/// Why startup failed.
#[derive(Clone, Debug, PartialEq, Eq)]
pub enum StartupFailure {
    /// The datastore directory could not be created.
    DatastoreCreation,
    /// The runtime could not be built or started.
    RuntimeStart,
    /// The orchestration pass failed.
    Orchestration(OrchestrationError),
}

/// The mathematical value of a [`StartupFailure`].
pub enum StartupFailureView {
    DatastoreCreation,
    RuntimeStart,
    Orchestration(OrchestrationErrorView),
}

impl View for StartupFailure {
    type V = StartupFailureView;

    open spec fn view(&self) -> StartupFailureView {
        match self {
            StartupFailure::DatastoreCreation => StartupFailureView::DatastoreCreation,
            StartupFailure::RuntimeStart => StartupFailureView::RuntimeStart,
            StartupFailure::Orchestration(error) => StartupFailureView::Orchestration(error@),
        }
    }
}

/// What the host reports to the supervisor.
#[derive(Clone, Debug, PartialEq, Eq)]
pub enum Occurrence {
    /// The datastore path was looked at.
    DatastoreProbed { exists: bool },
    /// The datastore directory was created.
    DatastoreCreated,
    /// The datastore directory could not be created.
    DatastoreCreationFailed,
    /// The runtime runs.
    RuntimeStarted,
    /// The runtime could not be built or started.
    RuntimeStartFailed,
    /// The orchestration pass was handed to a task of its own.
    OrchestrationSpawned,
    /// The orchestration pass ended with the application served on `port`.
    OrchestrationSucceeded { port: u16 },
    /// The orchestration pass failed.
    OrchestrationFailed { error: OrchestrationError },
    /// The process was asked to terminate.
    ShutdownSignal,
    /// The teardown task has taken the termination request.
    TeardownBegun,
    /// The runtime and all its tasks have ended.
    RuntimeStopped,
}

/// The mathematical value of an [`Occurrence`].
pub enum OccurrenceView {
    DatastoreProbed { exists: bool },
    DatastoreCreated,
    DatastoreCreationFailed,
    RuntimeStarted,
    RuntimeStartFailed,
    OrchestrationSpawned,
    OrchestrationSucceeded { port: u16 },
    OrchestrationFailed { error: OrchestrationErrorView },
    ShutdownSignal,
    TeardownBegun,
    RuntimeStopped,
}

impl View for Occurrence {
    type V = OccurrenceView;

    open spec fn view(&self) -> OccurrenceView {
        match self {
            Occurrence::DatastoreProbed { exists } => OccurrenceView::DatastoreProbed {
                exists: *exists,
            },
            Occurrence::DatastoreCreated => OccurrenceView::DatastoreCreated,
            Occurrence::DatastoreCreationFailed => OccurrenceView::DatastoreCreationFailed,
            Occurrence::RuntimeStarted => OccurrenceView::RuntimeStarted,
            Occurrence::RuntimeStartFailed => OccurrenceView::RuntimeStartFailed,
            Occurrence::OrchestrationSpawned => OccurrenceView::OrchestrationSpawned,
            Occurrence::OrchestrationSucceeded { port } => OccurrenceView::OrchestrationSucceeded {
                port: *port,
            },
            Occurrence::OrchestrationFailed { error } => OccurrenceView::OrchestrationFailed {
                error: error@,
            },
            Occurrence::ShutdownSignal => OccurrenceView::ShutdownSignal,
            Occurrence::TeardownBegun => OccurrenceView::TeardownBegun,
            Occurrence::RuntimeStopped => OccurrenceView::RuntimeStopped,
        }
    }
}

/// What the supervisor has the host do.
#[derive(Clone, Debug, PartialEq, Eq)]
pub enum Directive {
    /// Look whether the datastore path exists.
    ProbeDatastore { path: String },
    /// Create the datastore directory.
    CreateDatastore { path: String },
    /// Build and start the runtime from these settings.
    StartRuntime(ConductorSettings),
    /// Hand an orchestration pass with these parameters to a task of its own.
    Orchestrate {
        app_id: String,
        app_ws_port: u16,
        happ_path: String,
        network_seed: Option<String>,
    },
    /// Nothing new: go on with what is under way, or wait.
    Wait,
    /// Pass the termination request to the teardown task.
    BeginTeardown,
    /// Shut the runtime down and wait until all of it has ended.
    ShutdownRuntime,
    /// Let the process exit.
    Exit,
    /// End the process at once: startup has failed.
    Abort { failure: StartupFailure },
}

/// The mathematical value of a [`Directive`].
pub enum DirectiveView {
    ProbeDatastore { path: Seq<char> },
    CreateDatastore { path: Seq<char> },
    StartRuntime(ConductorSettingsView),
    Orchestrate {
        app_id: Seq<char>,
        app_ws_port: u16,
        happ_path: Seq<char>,
        network_seed: Option<Seq<char>>,
    },
    Wait,
    BeginTeardown,
    ShutdownRuntime,
    Exit,
    Abort { failure: StartupFailureView },
}

impl View for Directive {
    type V = DirectiveView;

    open spec fn view(&self) -> DirectiveView {
        match self {
            Directive::ProbeDatastore { path } => DirectiveView::ProbeDatastore { path: path@ },
            Directive::CreateDatastore { path } => DirectiveView::CreateDatastore { path: path@ },
            Directive::StartRuntime(settings) => DirectiveView::StartRuntime(settings@),
            Directive::Orchestrate {
                app_id,
                app_ws_port,
                happ_path,
                network_seed,
            } => DirectiveView::Orchestrate {
                app_id: app_id@,
                app_ws_port: *app_ws_port,
                happ_path: happ_path@,
                network_seed: network_seed.deep_view(),
            },
            Directive::Wait => DirectiveView::Wait,
            Directive::BeginTeardown => DirectiveView::BeginTeardown,
            Directive::ShutdownRuntime => DirectiveView::ShutdownRuntime,
            Directive::Exit => DirectiveView::Exit,
            Directive::Abort { failure } => DirectiveView::Abort { failure: failure@ },
        }
    }
}

/// The supervisor's answer to an occurrence: the signals to emit, in order,
/// and then the directive to carry out.
#[derive(Clone, Debug, PartialEq, Eq)]
pub struct Instruction {
    pub signals: Vec<StateSignal>,
    pub directive: Directive,
}

/// The mathematical value of an [`Instruction`].
pub struct InstructionView {
    pub signals: Seq<StateSignal>,
    pub directive: DirectiveView,
}

impl View for Instruction {
    type V = InstructionView;

    open spec fn view(&self) -> InstructionView {
        InstructionView { signals: self.signals@, directive: self.directive@ }
    }
}

/// The supervisor of one node.
#[derive(Clone, Debug, PartialEq, Eq)]
pub struct Supervisor {
    /// What the node was configured with.
    pub config: HcConfig,
    /// The stage the node is in.
    pub lifecycle: Lifecycle,
    /// Whether the node was asked to stop, and whether that was acted on.
    pub shutdown: ShutdownToken,
    /// Whether the datastore was found missing and is being created.
    pub creating_datastore: bool,
    /// The port the application is served on, once the node is ready.
    pub app_port: Option<u16>,
}

/// The mathematical value of a [`Supervisor`].
pub struct SupervisorView {
    pub config: HcConfigView,
    pub lifecycle: Lifecycle,
    pub shutdown: ShutdownToken,
    pub creating_datastore: bool,
    pub app_port: Option<u16>,
}

impl View for Supervisor {
    type V = SupervisorView;

    open spec fn view(&self) -> SupervisorView {
        SupervisorView {
            config: self.config@,
            lifecycle: self.lifecycle,
            shutdown: self.shutdown,
            creating_datastore: self.creating_datastore,
            app_port: self.app_port,
        }
    }
}

/// An instruction without signals.
pub open spec fn quietly(directive: DirectiveView) -> InstructionView {
    InstructionView { signals: Seq::empty(), directive }
}

/// The state a supervisor starts in, and its first instruction: look at the
/// datastore.
pub open spec fn boot(config: HcConfigView) -> (SupervisorView, InstructionView) {
    (
        SupervisorView {
            config,
            lifecycle: Lifecycle::Starting,
            shutdown: ShutdownToken::Pending,
            creating_datastore: false,
            app_port: None,
        },
        quietly(DirectiveView::ProbeDatastore { path: config.datastore_path }),
    )
}

/// The directive that starts the runtime a node is configured for. The
/// signal server's address takes the place of the proxy's.
pub open spec fn start_runtime(config: HcConfigView) -> DirectiveView {
    DirectiveView::StartRuntime(
        conductor_settings(
            config.admin_ws_port,
            config.datastore_path,
            config.keystore_path,
            config.webrtc_signal_url,
            config.bootstrap_url,
        ),
    )
}

/// The directive that hands over the orchestration pass a node is configured
/// for.
pub open spec fn orchestrate(config: HcConfigView) -> DirectiveView {
    DirectiveView::Orchestrate {
        app_id: config.app_id,
        app_ws_port: config.app_ws_port,
        happ_path: config.happ_path,
        network_seed: config.network_seed,
    }
}

/// Startup fails: the process is to end.
pub open spec fn give_up(state: SupervisorView, failure: StartupFailureView) -> (
    SupervisorView,
    InstructionView,
) {
    (
        SupervisorView { lifecycle: Lifecycle::Failed, ..state },
        quietly(DirectiveView::Abort { failure }),
    )
}

/// The transition of the supervisor: the state and the instruction that
/// follow when `occurrence` is reported in `state`.
///
/// A termination request that arrives before the node is ready is kept and
/// acted on the moment the node is ready: startup is never cut short. A
/// second request changes nothing. A report that does not fit the stage the
/// node is in changes nothing either.
pub open spec fn react(state: SupervisorView, occurrence: OccurrenceView) -> (
    SupervisorView,
    InstructionView,
) {
    match (state.lifecycle, occurrence) {
        (Lifecycle::Starting, OccurrenceView::DatastoreProbed { exists }) => {
            if state.creating_datastore {
                (state, quietly(DirectiveView::Wait))
            } else if exists {
                (
                    SupervisorView { lifecycle: Lifecycle::DatastoreChecked, ..state },
                    InstructionView {
                        signals: seq![StateSignal::IsNotFirstRun],
                        directive: start_runtime(state.config),
                    },
                )
            } else {
                (
                    SupervisorView { creating_datastore: true, ..state },
                    InstructionView {
                        signals: seq![StateSignal::IsFirstRun],
                        directive: DirectiveView::CreateDatastore {
                            path: state.config.datastore_path,
                        },
                    },
                )
            }
        },
        (Lifecycle::Starting, OccurrenceView::DatastoreCreated) => {
            if state.creating_datastore {
                (
                    SupervisorView {
                        lifecycle: Lifecycle::DatastoreChecked,
                        creating_datastore: false,
                        ..state
                    },
                    quietly(start_runtime(state.config)),
                )
            } else {
                (state, quietly(DirectiveView::Wait))
            }
        },
        (Lifecycle::Starting, OccurrenceView::DatastoreCreationFailed) => {
            if state.creating_datastore {
                give_up(state, StartupFailureView::DatastoreCreation)
            } else {
                (state, quietly(DirectiveView::Wait))
            }
        },
        (Lifecycle::DatastoreChecked, OccurrenceView::RuntimeStarted) => (
            SupervisorView { lifecycle: Lifecycle::RuntimeUp, ..state },
            quietly(orchestrate(state.config)),
        ),
        (Lifecycle::DatastoreChecked, OccurrenceView::RuntimeStartFailed) => give_up(
            state,
            StartupFailureView::RuntimeStart,
        ),
        (Lifecycle::RuntimeUp, OccurrenceView::OrchestrationSpawned) => (
            SupervisorView { lifecycle: Lifecycle::Orchestrating, ..state },
            quietly(DirectiveView::Wait),
        ),
        (Lifecycle::Orchestrating, OccurrenceView::OrchestrationSucceeded { port }) => {
            if state.shutdown == ShutdownToken::Requested {
                (
                    SupervisorView {
                        lifecycle: Lifecycle::ShutdownRequested,
                        app_port: Some(port),
                        ..state
                    },
                    quietly(DirectiveView::BeginTeardown),
                )
            } else {
                (
                    SupervisorView { lifecycle: Lifecycle::Ready, app_port: Some(port), ..state },
                    quietly(DirectiveView::Wait),
                )
            }
        },
        (Lifecycle::Orchestrating, OccurrenceView::OrchestrationFailed { error }) => give_up(
            state,
            StartupFailureView::Orchestration(error),
        ),
        (lifecycle, OccurrenceView::ShutdownSignal) => {
            if state.shutdown != ShutdownToken::Pending {
                (state, quietly(DirectiveView::Wait))
            } else if lifecycle == Lifecycle::Ready {
                (
                    SupervisorView {
                        lifecycle: Lifecycle::ShutdownRequested,
                        shutdown: ShutdownToken::Requested,
                        ..state
                    },
                    quietly(DirectiveView::BeginTeardown),
                )
            } else if lifecycle.is_starting_up() {
                (
                    SupervisorView { shutdown: ShutdownToken::Requested, ..state },
                    quietly(DirectiveView::Wait),
                )
            } else {
                (state, quietly(DirectiveView::Wait))
            }
        },
        (Lifecycle::ShutdownRequested, OccurrenceView::TeardownBegun) => (
            SupervisorView {
                lifecycle: Lifecycle::Stopping,
                shutdown: ShutdownToken::Completed,
                ..state
            },
            quietly(DirectiveView::ShutdownRuntime),
        ),
        (Lifecycle::Stopping, OccurrenceView::RuntimeStopped) => (
            SupervisorView { lifecycle: Lifecycle::Stopped, ..state },
            quietly(DirectiveView::Exit),
        ),
        _ => (state, quietly(DirectiveView::Wait)),
    }
}

/// The supervisor's state after the reports `occurrences`, made in that
/// order to a supervisor in `state`, and the directives it gave, one for each
/// report.
pub open spec fn replay(state: SupervisorView, occurrences: Seq<OccurrenceView>) -> (
    SupervisorView,
    Seq<DirectiveView>,
)
    decreases occurrences.len(),
{
    if occurrences.len() == 0 {
        (state, Seq::empty())
    } else {
        let (before, directives) = replay(state, occurrences.drop_last());
        let (after, instruction) = react(before, occurrences.last());
        (after, directives.push(instruction.directive))
    }
}

/// How often `directive` occurs among `directives`.
pub open spec fn times_given(directives: Seq<DirectiveView>, directive: DirectiveView) -> nat
    decreases directives.len(),
{
    if directives.len() == 0 {
        0
    } else {
        times_given(directives.drop_last(), directive) + if directives.last() == directive {
            1nat
        } else {
            0nat
        }
    }
}

impl Supervisor {
    /// Begins supervising a node with the configuration `config`.
    pub fn start(config: HcConfig) -> (begun: (Supervisor, Instruction))
        ensures
            (begun.0@, begun.1@) == boot(config@),
    {
        let path = config.datastore_path.clone();
        (
            Supervisor {
                config,
                lifecycle: Lifecycle::Starting,
                shutdown: ShutdownToken::Pending,
                creating_datastore: false,
                app_port: None,
            },
            Instruction { signals: Vec::new(), directive: Directive::ProbeDatastore { path } },
        )
    }

    fn runtime_directive(&self) -> (directive: Directive)
        ensures
            directive@ == start_runtime(self@.config),
    {
        Directive::StartRuntime(
            conductor_config(
                self.config.admin_ws_port,
                self.config.datastore_path.clone(),
                &self.config.keystore_path,
                &self.config.webrtc_signal_url,
                &self.config.bootstrap_url,
            ),
        )
    }

    fn orchestration_directive(&self) -> (directive: Directive)
        ensures
            directive@ == orchestrate(self@.config),
    {
        Directive::Orchestrate {
            app_id: self.config.app_id.clone(),
            app_ws_port: self.config.app_ws_port,
            happ_path: self.config.happ_path.clone(),
            network_seed: clone_optional(&self.config.network_seed),
        }
    }

    fn fail(&mut self, failure: StartupFailure) -> (instruction: Instruction)
        ensures
            (final(self)@, instruction@) == give_up(old(self)@, failure@),
    {
        self.lifecycle = Lifecycle::Failed;
        Instruction { signals: Vec::new(), directive: Directive::Abort { failure } }
    }

    /// Takes a report from the host and says what to do about it.
    pub fn step(&mut self, occurrence: Occurrence) -> (instruction: Instruction)
        ensures
            (final(self)@, instruction@) == react(old(self)@, occurrence@),
    {
        let wait = Instruction { signals: Vec::new(), directive: Directive::Wait };
        match occurrence {
            Occurrence::DatastoreProbed { exists } => match self.lifecycle {
                Lifecycle::Starting => {
                    if self.creating_datastore {
                        wait
                    } else if exists {
                        let directive = self.runtime_directive();
                        self.lifecycle = Lifecycle::DatastoreChecked;
                        let mut signals: Vec<StateSignal> = Vec::new();
                        signals.push(StateSignal::IsNotFirstRun);
                        Instruction { signals, directive }
                    } else {
                        self.creating_datastore = true;
                        let mut signals: Vec<StateSignal> = Vec::new();
                        signals.push(StateSignal::IsFirstRun);
                        Instruction {
                            signals,
                            directive: Directive::CreateDatastore {
                                path: self.config.datastore_path.clone(),
                            },
                        }
                    }
                },
                _ => wait,
            },
            Occurrence::DatastoreCreated => match self.lifecycle {
                Lifecycle::Starting => {
                    if self.creating_datastore {
                        let directive = self.runtime_directive();
                        self.lifecycle = Lifecycle::DatastoreChecked;
                        self.creating_datastore = false;
                        Instruction { signals: Vec::new(), directive }
                    } else {
                        wait
                    }
                },
                _ => wait,
            },
            Occurrence::DatastoreCreationFailed => match self.lifecycle {
                Lifecycle::Starting => {
                    if self.creating_datastore {
                        self.fail(StartupFailure::DatastoreCreation)
                    } else {
                        wait
                    }
                },
                _ => wait,
            },
            Occurrence::RuntimeStarted => match self.lifecycle {
                Lifecycle::DatastoreChecked => {
                    let directive = self.orchestration_directive();
                    self.lifecycle = Lifecycle::RuntimeUp;
                    Instruction { signals: Vec::new(), directive }
                },
                _ => wait,
            },
            Occurrence::RuntimeStartFailed => match self.lifecycle {
                Lifecycle::DatastoreChecked => self.fail(StartupFailure::RuntimeStart),
                _ => wait,
            },
            Occurrence::OrchestrationSpawned => match self.lifecycle {
                Lifecycle::RuntimeUp => {
                    self.lifecycle = Lifecycle::Orchestrating;
                    wait
                },
                _ => wait,
            },
            Occurrence::OrchestrationSucceeded { port } => match self.lifecycle {
                Lifecycle::Orchestrating => {
                    self.app_port = Some(port);
                    match self.shutdown {
                        ShutdownToken::Requested => {
                            self.lifecycle = Lifecycle::ShutdownRequested;
                            Instruction {
                                signals: Vec::new(),
                                directive: Directive::BeginTeardown,
                            }
                        },
                        _ => {
                            self.lifecycle = Lifecycle::Ready;
                            wait
                        },
                    }
                },
                _ => wait,
            },
            Occurrence::OrchestrationFailed { error } => match self.lifecycle {
                Lifecycle::Orchestrating => self.fail(StartupFailure::Orchestration(error)),
                _ => wait,
            },
            Occurrence::ShutdownSignal => match self.shutdown {
                ShutdownToken::Pending => match self.lifecycle {
                    Lifecycle::Ready => {
                        self.lifecycle = Lifecycle::ShutdownRequested;
                        self.shutdown = ShutdownToken::Requested;
                        Instruction { signals: Vec::new(), directive: Directive::BeginTeardown }
                    },
                    Lifecycle::Starting
                    | Lifecycle::DatastoreChecked
                    | Lifecycle::RuntimeUp
                    | Lifecycle::Orchestrating => {
                        self.shutdown = ShutdownToken::Requested;
                        wait
                    },
                    _ => wait,
                },
                _ => wait,
            },
            Occurrence::TeardownBegun => match self.lifecycle {
                Lifecycle::ShutdownRequested => {
                    self.lifecycle = Lifecycle::Stopping;
                    self.shutdown = ShutdownToken::Completed;
                    Instruction { signals: Vec::new(), directive: Directive::ShutdownRuntime }
                },
                _ => wait,
            },
            Occurrence::RuntimeStopped => match self.lifecycle {
                Lifecycle::Stopping => {
                    self.lifecycle = Lifecycle::Stopped;
                    Instruction { signals: Vec::new(), directive: Directive::Exit }
                },
                _ => wait,
            },
        }
    }
}

} // verus!
