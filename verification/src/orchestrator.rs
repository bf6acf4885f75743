//! The orchestration pass: from a running conductor to an installed, enabled
//! and reachable application.
//!
//! The pass is a state machine. It never touches the conductor: each step
//! names the one request the host is to make next, and the signals to emit
//! before making it; the host answers with what the conductor said.

use crate::config::clone_optional;
use crate::error::{OrchestrationError, OrchestrationErrorView};
use crate::identity::{find_or_generate_key, key_plan, Identity, KeyPlan, KeystoreEntry};
use crate::install::{
    activation_views, check_registrations, enable_app, enable_verdict, install_app, pair_cells,
    registration_verdict, ActivationError, ActivationErrorView, DnaHash, InstallRequest,
    InstallRequestView,
};
use crate::interface::{allocate_or_reuse, port_plan, PortPlan};
use crate::signal::StateSignal;
use vstd::prelude::*;

verus! {

/// Where a pass stands: which answer it waits for, or how it ended.
#[derive(Clone, Copy, Debug, PartialEq, Eq, Structural)]
pub enum Phase {
    AwaitingApps,
    AwaitingKeys,
    AwaitingNewKey,
    AwaitingBundle,
    AwaitingRegistration,
    AwaitingInstall,
    AwaitingEnable,
    AwaitingInterfaces,
    AwaitingInterface,
    Ready,
    Failed,
}

/// What the host is to do next.
#[derive(Clone, Debug, PartialEq, Eq)]
pub enum Action {
    /// List the installed applications.
    ListApps,
    /// List the keystore's entries, in the keystore's order.
    ListKeystoreEntries,
    /// Have the keystore generate a signing keypair.
    GenerateKeypair,
    /// Decode the bundle at `path` into its DNAs.
    DecodeBundle { path: String },
    /// Register these DNAs, and answer when all registrations have ended.
    RegisterDnas { dnas: Vec<DnaHash> },
    /// Install the application as one unit.
    InstallApp(InstallRequest),
    /// Enable the application.
    EnableApp { app_id: String },
    /// List the ports of the application's interfaces.
    ListInterfaces { app_id: String },
    /// Bind an interface for the application; port 0 leaves the choice open.
    AddInterface { app_id: String, port: u16 },
    /// Nothing more: the application `app_id` is served on `port`.
    Done { app_id: String, port: u16 },
    /// Nothing more: the pass has failed.
    Abort { error: OrchestrationError },
}

/// The mathematical value of an [`Action`].
pub enum ActionView {
    ListApps,
    ListKeystoreEntries,
    GenerateKeypair,
    DecodeBundle { path: Seq<char> },
    RegisterDnas { dnas: Seq<DnaHash> },
    InstallApp(InstallRequestView),
    EnableApp { app_id: Seq<char> },
    ListInterfaces { app_id: Seq<char> },
    AddInterface { app_id: Seq<char>, port: u16 },
    Done { app_id: Seq<char>, port: u16 },
    Abort { error: OrchestrationErrorView },
}

impl View for Action {
    type V = ActionView;

    open spec fn view(&self) -> ActionView {
        match self {
            Action::ListApps => ActionView::ListApps,
            Action::ListKeystoreEntries => ActionView::ListKeystoreEntries,
            Action::GenerateKeypair => ActionView::GenerateKeypair,
            Action::DecodeBundle { path } => ActionView::DecodeBundle { path: path@ },
            Action::RegisterDnas { dnas } => ActionView::RegisterDnas { dnas: dnas@ },
            Action::InstallApp(request) => ActionView::InstallApp(request@),
            Action::EnableApp { app_id } => ActionView::EnableApp { app_id: app_id@ },
            Action::ListInterfaces { app_id } => ActionView::ListInterfaces { app_id: app_id@ },
            Action::AddInterface { app_id, port } => ActionView::AddInterface {
                app_id: app_id@,
                port: *port,
            },
            Action::Done { app_id, port } => ActionView::Done { app_id: app_id@, port: *port },
            Action::Abort { error } => ActionView::Abort { error: error@ },
        }
    }
}

impl ActionView {
    /// Whether the action ends the pass.
    pub open spec fn is_final(self) -> bool {
        self is Done || self is Abort
    }

    /// Whether the action only asks the conductor what it holds.
    pub open spec fn is_query(self) -> bool {
        self is ListApps || self is ListKeystoreEntries || self is ListInterfaces
    }
}

/// What the conductor answered to the last request.
#[derive(Clone, Debug, PartialEq, Eq)]
pub enum Event {
    /// The identifiers of the installed applications.
    Apps(Vec<String>),
    /// The keystore's entries, in the keystore's order.
    KeystoreEntries(Vec<KeystoreEntry>),
    /// The public key of the keypair that was generated.
    KeypairGenerated(Identity),
    /// The DNAs of the bundle, in the bundle's order.
    BundleDecoded(Vec<DnaHash>),
    /// For each DNA in the order it was given: `None` where it was
    /// registered, the backend's complaint where it was rejected.
    DnasRegistered(Vec<Option<String>>),
    /// The application is installed.
    AppInstalled,
    /// The application was enabled; `present` says whether the conductor
    /// still knows it, `errors` lists the cells that did not start.
    AppEnabled { present: bool, errors: Vec<ActivationError> },
    /// The ports of the application's interfaces.
    Interfaces(Vec<u16>),
    /// The port that the new interface was bound on.
    InterfaceBound(u16),
    /// The request could not be served.
    Failed { message: String },
}

/// The mathematical value of an [`Event`].
pub enum EventView {
    Apps(Seq<Seq<char>>),
    KeystoreEntries(Seq<KeystoreEntry>),
    KeypairGenerated(Identity),
    BundleDecoded(Seq<DnaHash>),
    DnasRegistered(Seq<Option<Seq<char>>>),
    AppInstalled,
    AppEnabled { present: bool, errors: Seq<ActivationErrorView> },
    Interfaces(Seq<u16>),
    InterfaceBound(u16),
    Failed { message: Seq<char> },
}

impl View for Event {
    type V = EventView;

    open spec fn view(&self) -> EventView {
        match self {
            Event::Apps(app_ids) => EventView::Apps(app_ids.deep_view()),
            Event::KeystoreEntries(entries) => EventView::KeystoreEntries(entries@),
            Event::KeypairGenerated(identity) => EventView::KeypairGenerated(*identity),
            Event::BundleDecoded(dnas) => EventView::BundleDecoded(dnas@),
            Event::DnasRegistered(outcomes) => EventView::DnasRegistered(outcomes.deep_view()),
            Event::AppInstalled => EventView::AppInstalled,
            Event::AppEnabled { present, errors } => EventView::AppEnabled {
                present: *present,
                errors: activation_views(errors@),
            },
            Event::Interfaces(ports) => EventView::Interfaces(ports@),
            Event::InterfaceBound(port) => EventView::InterfaceBound(*port),
            Event::Failed { message } => EventView::Failed { message: message@ },
        }
    }
}

/// One step of the pass: the signals to emit, in order, and then the action
/// to perform.
#[derive(Clone, Debug, PartialEq, Eq)]
pub struct Step {
    pub signals: Vec<StateSignal>,
    pub action: Action,
}

/// The mathematical value of a [`Step`].
pub struct StepView {
    pub signals: Seq<StateSignal>,
    pub action: ActionView,
}

impl View for Step {
    type V = StepView;

    open spec fn view(&self) -> StepView {
        StepView { signals: self.signals@, action: self.action@ }
    }
}

/// The state of one orchestration pass.
#[derive(Clone, Debug, PartialEq, Eq)]
pub struct Orchestrator {
    /// The identifier a fresh application is installed under.
    pub app_id: String,
    /// The port a fresh interface is requested on.
    pub app_ws_port: u16,
    /// Where the application's bundle lies.
    pub happ_path: String,
    /// The network seed a fresh application is installed with.
    pub network_seed: Option<String>,
    /// Where the pass stands.
    pub phase: Phase,
    /// The application found installed, once the conductor has been asked:
    /// `None` on a datastore without applications.
    pub persisted_app: Option<String>,
    /// The node's identity, once it is resolved.
    pub agent: Option<Identity>,
    /// The bundle's DNAs, once it is decoded.
    pub dnas: Vec<DnaHash>,
}

/// The mathematical value of an [`Orchestrator`].
pub struct OrchestratorView {
    pub app_id: Seq<char>,
    pub app_ws_port: u16,
    pub happ_path: Seq<char>,
    pub network_seed: Option<Seq<char>>,
    pub phase: Phase,
    pub persisted_app: Option<Seq<char>>,
    pub agent: Option<Identity>,
    pub dnas: Seq<DnaHash>,
}

impl View for Orchestrator {
    type V = OrchestratorView;

    open spec fn view(&self) -> OrchestratorView {
        OrchestratorView {
            app_id: self.app_id@,
            app_ws_port: self.app_ws_port,
            happ_path: self.happ_path@,
            network_seed: self.network_seed.deep_view(),
            phase: self.phase,
            persisted_app: self.persisted_app.deep_view(),
            agent: self.agent,
            dnas: self.dnas@,
        }
    }
}

impl OrchestratorView {
    /// The application this pass is about: the one found installed, or else
    /// the one it was configured to install.
    pub open spec fn effective_app_id(self) -> Seq<char> {
        match self.persisted_app {
            Some(app_id) => app_id,
            None => self.app_id,
        }
    }
}

/// The state a pass starts in, and its first step: ask for the installed
/// applications.
pub open spec fn initial(
    app_id: Seq<char>,
    app_ws_port: u16,
    happ_path: Seq<char>,
    network_seed: Option<Seq<char>>,
) -> (OrchestratorView, StepView) {
    (
        OrchestratorView {
            app_id,
            app_ws_port,
            happ_path,
            network_seed,
            phase: Phase::AwaitingApps,
            persisted_app: None,
            agent: None,
            dnas: Seq::empty(),
        },
        StepView { signals: Seq::empty(), action: ActionView::ListApps },
    )
}

/// The kind of error that a failed request amounts to, by the answer the pass
/// was waiting for.
pub open spec fn failure_of(phase: Phase, message: Seq<char>) -> OrchestrationErrorView {
    match phase {
        Phase::AwaitingKeys | Phase::AwaitingNewKey => OrchestrationErrorView::Keystore { message },
        Phase::AwaitingBundle => OrchestrationErrorView::BundleDecode { message },
        Phase::AwaitingInstall => OrchestrationErrorView::Install { message },
        Phase::AwaitingInterface => OrchestrationErrorView::Interface { message },
        _ => OrchestrationErrorView::Runtime { message },
    }
}

/// The pass fails with `error`: nothing is emitted, nothing more is asked.
pub open spec fn abort(state: OrchestratorView, error: OrchestrationErrorView) -> (
    OrchestratorView,
    StepView,
) {
    (
        OrchestratorView { phase: Phase::Failed, ..state },
        StepView { signals: Seq::empty(), action: ActionView::Abort { error } },
    )
}

/// The pass ends: the application is served on `port`.
pub open spec fn finish(state: OrchestratorView, port: u16) -> (OrchestratorView, StepView) {
    (
        OrchestratorView { phase: Phase::Ready, ..state },
        StepView {
            signals: seq![StateSignal::IsReady],
            action: ActionView::Done { app_id: state.effective_app_id(), port },
        },
    )
}

/// The step that follows once the identity `agent` is resolved, after the
/// signals `signals` of this step. A datastore without applications gets the
/// application installed; otherwise the installed one is looked at.
pub open spec fn proceed_with_identity(
    state: OrchestratorView,
    agent: Identity,
    signals: Seq<StateSignal>,
) -> (OrchestratorView, StepView) {
    match state.persisted_app {
        None => (
            OrchestratorView { phase: Phase::AwaitingBundle, agent: Some(agent), ..state },
            StepView {
                signals: signals.push(StateSignal::InstallingApp),
                action: ActionView::DecodeBundle { path: state.happ_path },
            },
        ),
        Some(app_id) => (
            OrchestratorView { phase: Phase::AwaitingInterfaces, agent: Some(agent), ..state },
            StepView { signals, action: ActionView::ListInterfaces { app_id } },
        ),
    }
}

/// The transition of the pass: the state and the step that follow when the
/// conductor's answer `event` arrives in `state`.
///
/// An answer that does not fit the request fails the pass; so does a request
/// that could not be served. A pass that has ended stays as it is.
pub open spec fn advance(state: OrchestratorView, event: EventView) -> (OrchestratorView, StepView) {
    match (state.phase, event) {
        (Phase::Ready, _) | (Phase::Failed, _) => (
            state,
            StepView {
                signals: Seq::empty(),
                action: ActionView::Abort { error: OrchestrationErrorView::UnexpectedEvent },
            },
        ),
        (phase, EventView::Failed { message }) => abort(state, failure_of(phase, message)),
        (Phase::AwaitingApps, EventView::Apps(app_ids)) => (
            OrchestratorView {
                phase: Phase::AwaitingKeys,
                persisted_app: if app_ids.len() > 0 {
                    Some(app_ids[0])
                } else {
                    None
                },
                ..state
            },
            StepView { signals: Seq::empty(), action: ActionView::ListKeystoreEntries },
        ),
        (Phase::AwaitingKeys, EventView::KeystoreEntries(entries)) => match key_plan(entries) {
            KeyPlan::Reuse(agent) => proceed_with_identity(state, agent, Seq::empty()),
            KeyPlan::Generate => (
                OrchestratorView { phase: Phase::AwaitingNewKey, ..state },
                StepView {
                    signals: seq![StateSignal::CreatingKeys],
                    action: ActionView::GenerateKeypair,
                },
            ),
        },
        (Phase::AwaitingNewKey, EventView::KeypairGenerated(agent)) => proceed_with_identity(
            state,
            agent,
            seq![StateSignal::RegisteringDna],
        ),
        (Phase::AwaitingBundle, EventView::BundleDecoded(dnas)) => (
            OrchestratorView { phase: Phase::AwaitingRegistration, dnas, ..state },
            StepView { signals: Seq::empty(), action: ActionView::RegisterDnas { dnas } },
        ),
        (Phase::AwaitingRegistration, EventView::DnasRegistered(outcomes)) => match (
            registration_verdict(state.dnas, outcomes),
            state.agent,
        ) {
            (Ok(()), Some(agent)) => (
                OrchestratorView { phase: Phase::AwaitingInstall, ..state },
                StepView {
                    signals: Seq::empty(),
                    action: ActionView::InstallApp(
                        InstallRequestView {
                            app_id: state.app_id,
                            cells: pair_cells(state.dnas, agent),
                            network_seed: state.network_seed,
                        },
                    ),
                },
            ),
            (Err(error), _) => abort(state, error),
            (Ok(()), None) => abort(state, OrchestrationErrorView::UnexpectedEvent),
        },
        (Phase::AwaitingInstall, EventView::AppInstalled) => (
            OrchestratorView { phase: Phase::AwaitingEnable, ..state },
            StepView {
                signals: seq![StateSignal::EnablingApp],
                action: ActionView::EnableApp { app_id: state.app_id },
            },
        ),
        (Phase::AwaitingEnable, EventView::AppEnabled { present, errors }) => match enable_verdict(
            state.app_id,
            present,
            errors,
        ) {
            Ok(()) => (
                OrchestratorView { phase: Phase::AwaitingInterface, ..state },
                StepView {
                    signals: seq![StateSignal::AddingAppInterface],
                    action: ActionView::AddInterface {
                        app_id: state.app_id,
                        port: state.app_ws_port,
                    },
                },
            ),
            Err(error) => abort(state, error),
        },
        (Phase::AwaitingInterfaces, EventView::Interfaces(ports)) => match port_plan(
            ports,
            state.app_ws_port,
        ) {
            PortPlan::Reuse(port) => finish(state, port),
            PortPlan::Bind(port) => (
                OrchestratorView { phase: Phase::AwaitingInterface, ..state },
                StepView {
                    signals: Seq::empty(),
                    action: ActionView::AddInterface { app_id: state.effective_app_id(), port },
                },
            ),
        },
        (Phase::AwaitingInterface, EventView::InterfaceBound(port)) => finish(state, port),
        _ => abort(state, OrchestrationErrorView::UnexpectedEvent),
    }
}

/// The error that a failed request amounts to in `phase`.
fn classify_failure(phase: Phase, message: String) -> (error: OrchestrationError)
    ensures
        error@ == failure_of(phase, message@),
{
    match phase {
        Phase::AwaitingKeys | Phase::AwaitingNewKey => OrchestrationError::Keystore { message },
        Phase::AwaitingBundle => OrchestrationError::BundleDecode { message },
        Phase::AwaitingInstall => OrchestrationError::Install { message },
        Phase::AwaitingInterface => OrchestrationError::Interface { message },
        _ => OrchestrationError::Runtime { message },
    }
}

/// A copy of a list of DNA hashes.
fn copy_hashes(dnas: &Vec<DnaHash>) -> (copy: Vec<DnaHash>)
    ensures
        copy@ == dnas@,
{
    let mut copy: Vec<DnaHash> = Vec::new();
    let mut i: usize = 0;
    while i < dnas.len()
        invariant
            i <= dnas.len(),
            copy@ == dnas@.take(i as int),
        decreases dnas.len() - i,
    {
        copy.push(dnas[i]);
        proof {
            assert(dnas@.take(i + 1) == dnas@.take(i as int).push(dnas@[i as int]));
        }
        i += 1;
    }
    proof {
        assert(dnas@.take(i as int) == dnas@);
    }
    copy
}

impl Orchestrator {
    /// Begins a pass for the application `app_id`, whose bundle lies at
    /// `happ_path`; a fresh application gets `network_seed` and an interface
    /// requested on `app_ws_port`.
    pub fn start(
        app_id: String,
        app_ws_port: u16,
        happ_path: String,
        network_seed: Option<String>,
    ) -> (begun: (Orchestrator, Step))
        ensures
            (begun.0@, begun.1@) == initial(
                app_id@,
                app_ws_port,
                happ_path@,
                network_seed.deep_view(),
            ),
    {
        (
            Orchestrator {
                app_id,
                app_ws_port,
                happ_path,
                network_seed,
                phase: Phase::AwaitingApps,
                persisted_app: None,
                agent: None,
                dnas: Vec::new(),
            },
            Step { signals: Vec::new(), action: Action::ListApps },
        )
    }

    /// The identifier of the application this pass is about.
    pub fn effective_app_id(&self) -> (app_id: String)
        ensures
            app_id@ == self@.effective_app_id(),
    {
        match &self.persisted_app {
            Some(app_id) => app_id.clone(),
            None => self.app_id.clone(),
        }
    }

    fn fail(&mut self, error: OrchestrationError) -> (step: Step)
        ensures
            (final(self)@, step@) == abort(old(self)@, error@),
    {
        self.phase = Phase::Failed;
        Step { signals: Vec::new(), action: Action::Abort { error } }
    }

    fn complete(&mut self, port: u16) -> (step: Step)
        ensures
            (final(self)@, step@) == finish(old(self)@, port),
    {
        let app_id = self.effective_app_id();
        self.phase = Phase::Ready;
        let mut signals: Vec<StateSignal> = Vec::new();
        signals.push(StateSignal::IsReady);
        Step { signals, action: Action::Done { app_id, port } }
    }

    fn resolved(&mut self, agent: Identity, signals: Vec<StateSignal>) -> (step: Step)
        ensures
            (final(self)@, step@) == proceed_with_identity(old(self)@, agent, signals@),
    {
        let mut signals = signals;
        self.agent = Some(agent);
        match &self.persisted_app {
            None => {
                self.phase = Phase::AwaitingBundle;
                signals.push(StateSignal::InstallingApp);
                Step { signals, action: Action::DecodeBundle { path: self.happ_path.clone() } }
            },
            Some(app_id) => {
                let app_id = app_id.clone();
                self.phase = Phase::AwaitingInterfaces;
                Step { signals, action: Action::ListInterfaces { app_id } }
            },
        }
    }

    /// Takes the conductor's answer to the last request and says what to do
    /// next.
    pub fn step(&mut self, event: Event) -> (step: Step)
        ensures
            (final(self)@, step@) == advance(old(self)@, event@),
    {
        match self.phase {
            Phase::Ready | Phase::Failed => {
                return Step {
                    signals: Vec::new(),
                    action: Action::Abort { error: OrchestrationError::UnexpectedEvent },
                };
            },
            _ => {},
        }
        match event {
            Event::Failed { message } => {
                let error = classify_failure(self.phase, message);
                self.fail(error)
            },
            Event::Apps(app_ids) => match self.phase {
                Phase::AwaitingApps => {
                    if app_ids.len() > 0 {
                        self.persisted_app = Some(app_ids[0].clone());
                    } else {
                        self.persisted_app = None;
                    }
                    self.phase = Phase::AwaitingKeys;
                    Step { signals: Vec::new(), action: Action::ListKeystoreEntries }
                },
                _ => self.fail(OrchestrationError::UnexpectedEvent),
            },
            Event::KeystoreEntries(entries) => match self.phase {
                Phase::AwaitingKeys => match find_or_generate_key(&entries) {
                    KeyPlan::Reuse(agent) => self.resolved(agent, Vec::new()),
                    KeyPlan::Generate => {
                        self.phase = Phase::AwaitingNewKey;
                        let mut signals: Vec<StateSignal> = Vec::new();
                        signals.push(StateSignal::CreatingKeys);
                        Step { signals, action: Action::GenerateKeypair }
                    },
                },
                _ => self.fail(OrchestrationError::UnexpectedEvent),
            },
            Event::KeypairGenerated(agent) => match self.phase {
                Phase::AwaitingNewKey => {
                    let mut signals: Vec<StateSignal> = Vec::new();
                    signals.push(StateSignal::RegisteringDna);
                    self.resolved(agent, signals)
                },
                _ => self.fail(OrchestrationError::UnexpectedEvent),
            },
            Event::BundleDecoded(dnas) => match self.phase {
                Phase::AwaitingBundle => {
                    let requested = copy_hashes(&dnas);
                    self.dnas = dnas;
                    self.phase = Phase::AwaitingRegistration;
                    Step { signals: Vec::new(), action: Action::RegisterDnas { dnas: requested } }
                },
                _ => self.fail(OrchestrationError::UnexpectedEvent),
            },
            Event::DnasRegistered(outcomes) => match self.phase {
                Phase::AwaitingRegistration => match check_registrations(&self.dnas, &outcomes) {
                    Ok(()) => match self.agent {
                        Some(agent) => {
                            let request = install_app(
                                agent,
                                self.app_id.clone(),
                                &self.dnas,
                                clone_optional(&self.network_seed),
                            );
                            self.phase = Phase::AwaitingInstall;
                            Step { signals: Vec::new(), action: Action::InstallApp(request) }
                        },
                        None => self.fail(OrchestrationError::UnexpectedEvent),
                    },
                    Err(error) => self.fail(error),
                },
                _ => self.fail(OrchestrationError::UnexpectedEvent),
            },
            Event::AppInstalled => match self.phase {
                Phase::AwaitingInstall => {
                    self.phase = Phase::AwaitingEnable;
                    let mut signals: Vec<StateSignal> = Vec::new();
                    signals.push(StateSignal::EnablingApp);
                    Step { signals, action: Action::EnableApp { app_id: self.app_id.clone() } }
                },
                _ => self.fail(OrchestrationError::UnexpectedEvent),
            },
            Event::AppEnabled { present, errors } => match self.phase {
                Phase::AwaitingEnable => match enable_app(self.app_id.clone(), present, errors) {
                    Ok(()) => {
                        self.phase = Phase::AwaitingInterface;
                        let mut signals: Vec<StateSignal> = Vec::new();
                        signals.push(StateSignal::AddingAppInterface);
                        Step {
                            signals,
                            action: Action::AddInterface {
                                app_id: self.app_id.clone(),
                                port: self.app_ws_port,
                            },
                        }
                    },
                    Err(error) => self.fail(error),
                },
                _ => self.fail(OrchestrationError::UnexpectedEvent),
            },
            Event::Interfaces(ports) => match self.phase {
                Phase::AwaitingInterfaces => match allocate_or_reuse(&ports, self.app_ws_port) {
                    PortPlan::Reuse(port) => self.complete(port),
                    PortPlan::Bind(port) => {
                        let app_id = self.effective_app_id();
                        self.phase = Phase::AwaitingInterface;
                        Step { signals: Vec::new(), action: Action::AddInterface { app_id, port } }
                    },
                },
                _ => self.fail(OrchestrationError::UnexpectedEvent),
            },
            Event::InterfaceBound(port) => match self.phase {
                Phase::AwaitingInterface => self.complete(port),
                _ => self.fail(OrchestrationError::UnexpectedEvent),
            },
        }
    }
}

} // verus!
