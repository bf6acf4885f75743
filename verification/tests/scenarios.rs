use holochain_runner::config::HcConfig;
use holochain_runner::error::OrchestrationError;
use holochain_runner::identity::{Identity, KeystoreEntry};
use holochain_runner::install::{ActivationError, CellId, DnaHash, InstallRequest};
use holochain_runner::orchestrator::{Action, Event, Orchestrator, Phase, Step};
use holochain_runner::signal::StateSignal;
use holochain_runner::supervisor::{
    Directive, Lifecycle, Occurrence, StartupFailure, Supervisor,
};

fn key(byte: u8) -> Identity {
    Identity { public_key: [byte; 32] }
}

fn dna(byte: u8) -> DnaHash {
    DnaHash { bytes: [byte; 32] }
}

#[derive(Clone, Debug, PartialEq)]
struct InstalledApp {
    app_id: String,
    cells: Vec<CellId>,
    enabled: bool,
    interfaces: Vec<u16>,
}

/// A conductor that lives in memory: what persists, and how it answers.
#[derive(Clone, Debug)]
struct Conductor {
    datastore_exists: bool,
    keys: Vec<KeystoreEntry>,
    apps: Vec<InstalledApp>,
    generated_key: Identity,
    bundle: Vec<DnaHash>,
    rejected: Vec<DnaHash>,
    activation_errors: Vec<ActivationError>,
    free_port: u16,
    refused: Option<Action>,
    installs: usize,
    enables: usize,
    bindings: usize,
    generated: usize,
}

impl Conductor {
    fn empty() -> Conductor {
        Conductor {
            datastore_exists: false,
            keys: vec![],
            apps: vec![],
            generated_key: key(42),
            bundle: vec![dna(1)],
            rejected: vec![],
            activation_errors: vec![],
            free_port: 50123,
            refused: None,
            installs: 0,
            enables: 0,
            bindings: 0,
            generated: 0,
        }
    }

    fn position(&self, app_id: &str) -> Option<usize> {
        self.apps.iter().position(|app| app.app_id == app_id)
    }

    fn respond(&mut self, action: &Action) -> Event {
        if self.refused.as_ref() == Some(action) {
            return Event::Failed { message: "refused".to_string() };
        }
        match action {
            Action::ListApps => {
                Event::Apps(self.apps.iter().map(|app| app.app_id.clone()).collect())
            }
            Action::ListKeystoreEntries => Event::KeystoreEntries(self.keys.clone()),
            Action::GenerateKeypair => {
                self.generated += 1;
                self.keys.push(KeystoreEntry::SigningKeypair(self.generated_key));
                Event::KeypairGenerated(self.generated_key)
            }
            Action::DecodeBundle { .. } => Event::BundleDecoded(self.bundle.clone()),
            Action::RegisterDnas { dnas } => Event::DnasRegistered(
                dnas.iter()
                    .map(|dna| {
                        if self.rejected.contains(dna) {
                            Some("rejected".to_string())
                        } else {
                            None
                        }
                    })
                    .collect(),
            ),
            Action::InstallApp(InstallRequest { app_id, cells, .. }) => {
                if self.position(app_id).is_some() {
                    return Event::Failed { message: "taken".to_string() };
                }
                self.installs += 1;
                self.apps.push(InstalledApp {
                    app_id: app_id.clone(),
                    cells: cells.clone(),
                    enabled: false,
                    interfaces: vec![],
                });
                Event::AppInstalled
            }
            Action::EnableApp { app_id } => match self.position(app_id) {
                Some(at) => {
                    self.enables += 1;
                    self.apps[at].enabled = true;
                    Event::AppEnabled { present: true, errors: self.activation_errors.clone() }
                }
                None => Event::AppEnabled { present: false, errors: vec![] },
            },
            Action::ListInterfaces { app_id } => match self.position(app_id) {
                Some(at) => Event::Interfaces(self.apps[at].interfaces.clone()),
                None => Event::Interfaces(vec![]),
            },
            Action::AddInterface { app_id, port } => {
                self.bindings += 1;
                let bound = if *port == 0 { self.free_port } else { *port };
                if let Some(at) = self.position(app_id) {
                    self.apps[at].interfaces.push(bound);
                }
                Event::InterfaceBound(bound)
            }
            Action::Done { .. } | Action::Abort { .. } => {
                panic!("a pass that has ended asks for nothing")
            }
        }
    }
}

struct PassReport {
    signals: Vec<StateSignal>,
    outcome: Action,
    state: Orchestrator,
    requests: Vec<Action>,
}

fn run_pass(conductor: &mut Conductor, app_id: &str, port: u16) -> PassReport {
    let (mut state, first) =
        Orchestrator::start(app_id.to_string(), port, "app.happ".to_string(), None);
    let Step { mut signals, mut action } = first;
    let mut requests = vec![];
    for _ in 0..20 {
        if matches!(action, Action::Done { .. } | Action::Abort { .. }) {
            return PassReport { signals, outcome: action, state, requests };
        }
        let event = conductor.respond(&action);
        requests.push(action);
        let step = state.step(event);
        signals.extend(step.signals);
        action = step.action;
    }
    panic!("the pass did not end");
}

fn config(app_id: &str, port: u16) -> HcConfig {
    HcConfig {
        app_id: app_id.to_string(),
        happ_path: "app.happ".to_string(),
        admin_ws_port: 1234,
        app_ws_port: port,
        datastore_path: "databases".to_string(),
        keystore_path: None,
        webrtc_signal_url: "wss://signal.holo.host".to_string(),
        bootstrap_url: "https://bootstrap.holo.host".to_string(),
        network_seed: None,
        gossip_arc_clamping: "none".to_string(),
    }
}

struct RunReport {
    signals: Vec<StateSignal>,
    supervisor: Supervisor,
    identity: Option<Identity>,
    last: Directive,
}

/// Runs a node as a host would: it does what the supervisor says, and runs
/// the orchestration pass when told to.
fn run_node(conductor: &mut Conductor, config: HcConfig, creatable: bool) -> RunReport {
    let (mut supervisor, first) = Supervisor::start(config);
    let mut signals = first.signals;
    let mut directive = first.directive;
    let mut identity = None;
    for _ in 0..20 {
        let occurrence = match &directive {
            Directive::ProbeDatastore { .. } => {
                Occurrence::DatastoreProbed { exists: conductor.datastore_exists }
            }
            Directive::CreateDatastore { .. } => {
                if creatable {
                    conductor.datastore_exists = true;
                    Occurrence::DatastoreCreated
                } else {
                    Occurrence::DatastoreCreationFailed
                }
            }
            Directive::StartRuntime(_) => Occurrence::RuntimeStarted,
            Directive::Orchestrate { app_id, app_ws_port, .. } => {
                let spawned = supervisor.step(Occurrence::OrchestrationSpawned);
                assert_eq!(spawned.directive, Directive::Wait);
                assert_eq!(supervisor.lifecycle, Lifecycle::Orchestrating);
                let pass = run_pass(conductor, app_id, *app_ws_port);
                signals.extend(pass.signals);
                identity = pass.state.agent;
                match pass.outcome {
                    Action::Done { port, .. } => Occurrence::OrchestrationSucceeded { port },
                    Action::Abort { error } => Occurrence::OrchestrationFailed { error },
                    other => panic!("not an end: {:?}", other),
                }
            }
            _ => return RunReport { signals, supervisor, identity, last: directive },
        };
        let instruction = supervisor.step(occurrence);
        signals.extend(instruction.signals);
        directive = instruction.directive;
    }
    panic!("the run did not settle");
}

#[test]
fn fresh_datastore_runs_the_whole_sequence() {
    let mut conductor = Conductor::empty();
    let run = run_node(&mut conductor, config("main-app", 0), true);
    assert_eq!(
        run.signals,
        vec![
            StateSignal::IsFirstRun,
            StateSignal::CreatingKeys,
            StateSignal::RegisteringDna,
            StateSignal::InstallingApp,
            StateSignal::EnablingApp,
            StateSignal::AddingAppInterface,
            StateSignal::IsReady,
        ]
    );
    assert_eq!(run.supervisor.lifecycle, Lifecycle::Ready);
    assert_eq!(run.last, Directive::Wait);
    assert_eq!(conductor.apps.len(), 1);
    assert_eq!(conductor.apps[0].app_id, "main-app");
    assert!(conductor.apps[0].enabled);
    assert_eq!(conductor.apps[0].cells, vec![CellId { dna: dna(1), agent: key(42) }]);
    assert_eq!(conductor.apps[0].interfaces.len(), 1);
    assert!(conductor.apps[0].interfaces[0] > 0);
    assert_eq!(run.supervisor.app_port, Some(conductor.apps[0].interfaces[0]));
    assert_eq!(run.identity, Some(key(42)));
}

#[test]
fn restart_reuses_what_is_there() {
    let mut conductor = Conductor::empty();
    let first = run_node(&mut conductor, config("main-app", 0), true);
    let recorded = first.supervisor.app_port;
    assert!(recorded.is_some());
    let second = run_node(&mut conductor, config("main-app", 0), true);
    assert_eq!(second.signals, vec![StateSignal::IsNotFirstRun, StateSignal::IsReady]);
    assert_eq!(second.supervisor.lifecycle, Lifecycle::Ready);
    assert_eq!(second.supervisor.app_port, recorded);
}

#[test]
fn second_run_installs_nothing() {
    let mut conductor = Conductor::empty();
    run_node(&mut conductor, config("main-app", 0), true);
    let after_first = conductor.apps.clone();
    let second = run_node(&mut conductor, config("main-app", 0), true);
    assert!(!second.signals.contains(&StateSignal::InstallingApp));
    assert!(!second.signals.contains(&StateSignal::EnablingApp));
    assert!(!second.signals.contains(&StateSignal::AddingAppInterface));
    assert_eq!(conductor.apps, after_first);
    assert_eq!(conductor.installs, 1);
    assert_eq!(conductor.enables, 1);
    assert_eq!(conductor.bindings, 1);
}

#[test]
fn bound_port_survives_a_different_request() {
    let mut conductor = Conductor::empty();
    let first = run_node(&mut conductor, config("main-app", 7000), true);
    assert_eq!(first.supervisor.app_port, Some(7000));
    let second = run_node(&mut conductor, config("main-app", 9000), true);
    assert_eq!(second.supervisor.app_port, Some(7000));
    assert_eq!(conductor.apps[0].interfaces, vec![7000]);
}

#[test]
fn identity_is_the_same_on_every_run() {
    let mut conductor = Conductor::empty();
    let first = run_node(&mut conductor, config("main-app", 0), true);
    conductor.generated_key = key(99);
    let second = run_node(&mut conductor, config("main-app", 0), true);
    assert_eq!(first.identity, Some(key(42)));
    assert_eq!(second.identity, first.identity);
    assert_eq!(conductor.generated, 1);
    assert_eq!(conductor.keys, vec![KeystoreEntry::SigningKeypair(key(42))]);
}

#[test]
fn rejected_dna_leaves_no_application() {
    let mut conductor = Conductor::empty();
    conductor.bundle = vec![dna(1), dna(2)];
    conductor.rejected = vec![dna(2)];
    let run = run_node(&mut conductor, config("main-app", 0), true);
    assert!(conductor.apps.is_empty());
    assert_eq!(conductor.installs, 0);
    assert_eq!(run.supervisor.lifecycle, Lifecycle::Failed);
    assert_eq!(
        run.last,
        Directive::Abort {
            failure: StartupFailure::Orchestration(OrchestrationError::DnaRegistration {
                dna: dna(2),
                message: "rejected".to_string(),
            }),
        }
    );
    assert_eq!(
        run.signals,
        vec![
            StateSignal::IsFirstRun,
            StateSignal::CreatingKeys,
            StateSignal::RegisteringDna,
            StateSignal::InstallingApp,
        ]
    );
}

#[test]
fn existing_key_is_found_on_a_datastore_without_apps() {
    let mut conductor = Conductor::empty();
    conductor.datastore_exists = true;
    conductor.keys = vec![
        KeystoreEntry::Certificate,
        KeystoreEntry::SigningKeypair(key(5)),
        KeystoreEntry::SigningKeypair(key(6)),
    ];
    let run = run_node(&mut conductor, config("main-app", 0), true);
    assert_eq!(
        run.signals,
        vec![
            StateSignal::IsNotFirstRun,
            StateSignal::InstallingApp,
            StateSignal::EnablingApp,
            StateSignal::AddingAppInterface,
            StateSignal::IsReady,
        ]
    );
    assert_eq!(run.identity, Some(key(5)));
    assert_eq!(conductor.generated, 0);
    assert_eq!(conductor.apps[0].cells, vec![CellId { dna: dna(1), agent: key(5) }]);
}

#[test]
fn missing_key_is_generated_beside_an_installed_app() {
    let mut conductor = Conductor::empty();
    conductor.datastore_exists = true;
    conductor.apps = vec![InstalledApp {
        app_id: "main-app".to_string(),
        cells: vec![],
        enabled: true,
        interfaces: vec![4000],
    }];
    let run = run_node(&mut conductor, config("main-app", 0), true);
    assert_eq!(
        run.signals,
        vec![
            StateSignal::IsNotFirstRun,
            StateSignal::CreatingKeys,
            StateSignal::RegisteringDna,
            StateSignal::IsReady,
        ]
    );
    assert_eq!(run.supervisor.app_port, Some(4000));
}

#[test]
fn installed_app_without_interface_gets_one_quietly() {
    let mut conductor = Conductor::empty();
    conductor.datastore_exists = true;
    conductor.keys = vec![KeystoreEntry::SigningKeypair(key(5))];
    conductor.apps = vec![InstalledApp {
        app_id: "kept".to_string(),
        cells: vec![],
        enabled: true,
        interfaces: vec![],
    }];
    let pass = run_pass(&mut conductor, "main-app", 8123);
    assert_eq!(pass.signals, vec![StateSignal::IsReady]);
    assert_eq!(pass.outcome, Action::Done { app_id: "kept".to_string(), port: 8123 });
    assert_eq!(
        pass.requests,
        vec![
            Action::ListApps,
            Action::ListKeystoreEntries,
            Action::ListInterfaces { app_id: "kept".to_string() },
            Action::AddInterface { app_id: "kept".to_string(), port: 8123 },
        ]
    );
    assert_eq!(conductor.apps[0].interfaces, vec![8123]);
    assert_eq!(conductor.installs, 0);
}

#[test]
fn persisted_application_overrides_the_configured_one() {
    let mut conductor = Conductor::empty();
    conductor.datastore_exists = true;
    conductor.keys = vec![KeystoreEntry::SigningKeypair(key(5))];
    conductor.apps = vec![InstalledApp {
        app_id: "kept".to_string(),
        cells: vec![],
        enabled: true,
        interfaces: vec![4000, 4001],
    }];
    let pass = run_pass(&mut conductor, "other-app", 9999);
    assert_eq!(pass.outcome, Action::Done { app_id: "kept".to_string(), port: 4000 });
    assert_eq!(pass.state.phase, Phase::Ready);
    assert_eq!(pass.state.effective_app_id(), "kept");
    assert_eq!(conductor.apps.len(), 1);
}

#[test]
fn fresh_pass_asks_in_the_documented_order() {
    let mut conductor = Conductor::empty();
    conductor.bundle = vec![dna(1), dna(2)];
    let pass = run_pass(&mut conductor, "main-app", 0);
    assert_eq!(
        pass.requests,
        vec![
            Action::ListApps,
            Action::ListKeystoreEntries,
            Action::GenerateKeypair,
            Action::DecodeBundle { path: "app.happ".to_string() },
            Action::RegisterDnas { dnas: vec![dna(1), dna(2)] },
            Action::InstallApp(InstallRequest {
                app_id: "main-app".to_string(),
                cells: vec![
                    CellId { dna: dna(1), agent: key(42) },
                    CellId { dna: dna(2), agent: key(42) },
                ],
                network_seed: None,
            }),
            Action::EnableApp { app_id: "main-app".to_string() },
            Action::AddInterface { app_id: "main-app".to_string(), port: 0 },
        ]
    );
    assert_eq!(pass.outcome, Action::Done { app_id: "main-app".to_string(), port: 50123 });
}

#[test]
fn network_seed_reaches_the_install_request() {
    let (mut state, _) = Orchestrator::start(
        "main-app".to_string(),
        0,
        "app.happ".to_string(),
        Some("seed".to_string()),
    );
    state.step(Event::Apps(vec![]));
    state.step(Event::KeystoreEntries(vec![KeystoreEntry::SigningKeypair(key(1))]));
    state.step(Event::BundleDecoded(vec![dna(3)]));
    let step = state.step(Event::DnasRegistered(vec![None]));
    assert_eq!(
        step.action,
        Action::InstallApp(InstallRequest {
            app_id: "main-app".to_string(),
            cells: vec![CellId { dna: dna(3), agent: key(1) }],
            network_seed: Some("seed".to_string()),
        })
    );
    assert!(step.signals.is_empty());
}

fn abort_of(refused: Action, prepare: fn(&mut Conductor)) -> (Vec<StateSignal>, Action) {
    let mut conductor = Conductor::empty();
    prepare(&mut conductor);
    conductor.refused = Some(refused);
    let pass = run_pass(&mut conductor, "main-app", 0);
    assert_eq!(pass.state.phase, Phase::Failed);
    (pass.signals, pass.outcome)
}

fn untouched(_: &mut Conductor) {}

fn with_served_app(conductor: &mut Conductor) {
    conductor.keys = vec![KeystoreEntry::SigningKeypair(key(5))];
    conductor.apps = vec![InstalledApp {
        app_id: "main-app".to_string(),
        cells: vec![],
        enabled: true,
        interfaces: vec![],
    }];
}

fn failure(message: &str) -> String {
    message.to_string()
}

#[test]
fn refused_app_listing_is_a_runtime_error() {
    let (signals, outcome) = abort_of(Action::ListApps, untouched);
    assert!(signals.is_empty());
    assert_eq!(
        outcome,
        Action::Abort { error: OrchestrationError::Runtime { message: failure("refused") } }
    );
}

#[test]
fn refused_key_listing_is_a_keystore_error() {
    let (signals, outcome) = abort_of(Action::ListKeystoreEntries, untouched);
    assert!(signals.is_empty());
    assert_eq!(
        outcome,
        Action::Abort { error: OrchestrationError::Keystore { message: failure("refused") } }
    );
}

#[test]
fn refused_key_generation_is_a_keystore_error() {
    let (signals, outcome) = abort_of(Action::GenerateKeypair, untouched);
    assert_eq!(signals, vec![StateSignal::CreatingKeys]);
    assert_eq!(
        outcome,
        Action::Abort { error: OrchestrationError::Keystore { message: failure("refused") } }
    );
}

#[test]
fn malformed_bundle_is_a_decode_error() {
    let (signals, outcome) =
        abort_of(Action::DecodeBundle { path: "app.happ".to_string() }, untouched);
    assert_eq!(
        signals,
        vec![StateSignal::CreatingKeys, StateSignal::RegisteringDna, StateSignal::InstallingApp]
    );
    assert_eq!(
        outcome,
        Action::Abort { error: OrchestrationError::BundleDecode { message: failure("refused") } }
    );
}

#[test]
fn refused_registration_is_a_runtime_error() {
    let (_, outcome) = abort_of(Action::RegisterDnas { dnas: vec![dna(1)] }, untouched);
    assert_eq!(
        outcome,
        Action::Abort { error: OrchestrationError::Runtime { message: failure("refused") } }
    );
}

#[test]
fn refused_installation_is_an_install_error() {
    let (signals, outcome) = abort_of(
        Action::InstallApp(InstallRequest {
            app_id: "main-app".to_string(),
            cells: vec![CellId { dna: dna(1), agent: key(42) }],
            network_seed: None,
        }),
        untouched,
    );
    assert_eq!(signals.last(), Some(&StateSignal::InstallingApp));
    assert_eq!(
        outcome,
        Action::Abort { error: OrchestrationError::Install { message: failure("refused") } }
    );
}

#[test]
fn refused_enabling_is_a_runtime_error() {
    let (signals, outcome) =
        abort_of(Action::EnableApp { app_id: "main-app".to_string() }, untouched);
    assert_eq!(signals.last(), Some(&StateSignal::EnablingApp));
    assert_eq!(
        outcome,
        Action::Abort { error: OrchestrationError::Runtime { message: failure("refused") } }
    );
}

#[test]
fn refused_binding_is_an_interface_error() {
    let (signals, outcome) =
        abort_of(Action::AddInterface { app_id: "main-app".to_string(), port: 0 }, untouched);
    assert_eq!(signals.last(), Some(&StateSignal::AddingAppInterface));
    assert_eq!(
        outcome,
        Action::Abort { error: OrchestrationError::Interface { message: failure("refused") } }
    );
}

#[test]
fn refused_interface_listing_is_a_runtime_error() {
    let (signals, outcome) =
        abort_of(Action::ListInterfaces { app_id: "main-app".to_string() }, with_served_app);
    assert!(signals.is_empty());
    assert_eq!(
        outcome,
        Action::Abort { error: OrchestrationError::Runtime { message: failure("refused") } }
    );
}

#[test]
fn cell_that_does_not_start_fails_the_pass() {
    let mut conductor = Conductor::empty();
    conductor.activation_errors = vec![
        ActivationError { cell: CellId { dna: dna(1), agent: key(42) }, message: failure("a") },
        ActivationError { cell: CellId { dna: dna(2), agent: key(42) }, message: failure("b") },
    ];
    let pass = run_pass(&mut conductor, "main-app", 0);
    assert_eq!(
        pass.outcome,
        Action::Abort {
            error: OrchestrationError::CellActivation {
                cell: CellId { dna: dna(2), agent: key(42) },
                message: failure("b"),
            },
        }
    );
    assert_eq!(pass.signals.last(), Some(&StateSignal::EnablingApp));
    assert!(conductor.apps[0].interfaces.is_empty());
}

#[test]
fn app_that_vanished_fails_the_pass() {
    let (mut state, _) =
        Orchestrator::start("main-app".to_string(), 0, "app.happ".to_string(), None);
    state.step(Event::Apps(vec![]));
    state.step(Event::KeystoreEntries(vec![KeystoreEntry::SigningKeypair(key(1))]));
    state.step(Event::BundleDecoded(vec![dna(3)]));
    state.step(Event::DnasRegistered(vec![None]));
    state.step(Event::AppInstalled);
    let step = state.step(Event::AppEnabled { present: false, errors: vec![] });
    assert_eq!(
        step.action,
        Action::Abort {
            error: OrchestrationError::AppNotInstalled { app_id: "main-app".to_string() },
        }
    );
    assert_eq!(state.phase, Phase::Failed);
}

#[test]
fn answer_to_another_request_fails_the_pass() {
    let (mut state, first) =
        Orchestrator::start("main-app".to_string(), 0, "app.happ".to_string(), None);
    assert_eq!(first.action, Action::ListApps);
    assert!(first.signals.is_empty());
    assert_eq!(state.phase, Phase::AwaitingApps);
    let step = state.step(Event::InterfaceBound(1));
    assert_eq!(step.action, Action::Abort { error: OrchestrationError::UnexpectedEvent });
    assert!(step.signals.is_empty());
    assert_eq!(state.phase, Phase::Failed);
}

#[test]
fn ended_pass_stays_as_it_is() {
    let mut conductor = Conductor::empty();
    let mut pass = run_pass(&mut conductor, "main-app", 0);
    let before = pass.state.clone();
    let step = pass.state.step(Event::Apps(vec![]));
    assert_eq!(step.action, Action::Abort { error: OrchestrationError::UnexpectedEvent });
    assert!(step.signals.is_empty());
    assert_eq!(pass.state, before);
    assert_eq!(pass.state.phase, Phase::Ready);
    let step = pass.state.step(Event::Failed { message: failure("late") });
    assert_eq!(step.action, Action::Abort { error: OrchestrationError::UnexpectedEvent });
    assert_eq!(pass.state.phase, Phase::Ready);
}

#[test]
fn wrong_number_of_registration_outcomes_fails_the_pass() {
    let (mut state, _) =
        Orchestrator::start("main-app".to_string(), 0, "app.happ".to_string(), None);
    state.step(Event::Apps(vec![]));
    state.step(Event::KeystoreEntries(vec![KeystoreEntry::SigningKeypair(key(1))]));
    state.step(Event::BundleDecoded(vec![dna(3), dna(4)]));
    let step = state.step(Event::DnasRegistered(vec![None]));
    assert_eq!(step.action, Action::Abort { error: OrchestrationError::UnexpectedEvent });
}

#[test]
fn datastore_that_cannot_be_created_ends_the_run() {
    let mut conductor = Conductor::empty();
    let run = run_node(&mut conductor, config("main-app", 0), false);
    assert_eq!(run.signals, vec![StateSignal::IsFirstRun]);
    assert_eq!(run.supervisor.lifecycle, Lifecycle::Failed);
    assert_eq!(run.last, Directive::Abort { failure: StartupFailure::DatastoreCreation });
    assert!(conductor.apps.is_empty());
    assert!(conductor.keys.is_empty());
}

#[test]
fn signals_of_every_run_keep_their_order() {
    for exists in [false, true] {
        for with_key in [false, true] {
            for with_app in [false, true] {
                let mut conductor = Conductor::empty();
                conductor.datastore_exists = exists;
                if with_key {
                    conductor.keys = vec![KeystoreEntry::SigningKeypair(key(5))];
                }
                if with_app {
                    with_served_app(&mut conductor);
                    if !with_key {
                        conductor.keys = vec![];
                    }
                }
                let run = run_node(&mut conductor, config("main-app", 0), true);
                let codes: Vec<i16> = run
                    .signals
                    .iter()
                    .map(holochain_runner::signal::state_signal_to_stdout)
                    .collect();
                assert!(codes.windows(2).all(|pair| pair[0] < pair[1]));
                assert_eq!(codes[0], if exists { 1 } else { 0 });
                assert_eq!(codes.last(), Some(&7));
                assert_eq!(codes.contains(&2), !with_key);
                assert_eq!(codes.contains(&3), !with_key);
                assert_eq!(codes.contains(&4), !with_app);
                assert_eq!(codes.contains(&5), !with_app);
                assert_eq!(codes.contains(&6), !with_app);
            }
        }
    }
}
