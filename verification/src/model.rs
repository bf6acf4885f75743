//! A model of the world the node runs in, for stating what holds of whole
//! runs.
//!
//! The conductor, its keystore and the file system are not part of this
//! library. What the library relies on is written down here as mathematics:
//! a [`Datastore`] is what persists between runs, [`Circumstances`] are what
//! the world decides during one run, and [`respond`] says how the conductor
//! answers a request. [`session`] then is one run of a host that does as the
//! supervisor and the orchestration pass tell it.

use crate::config::HcConfigView;
use crate::identity::{Identity, KeystoreEntry};
use crate::install::{ActivationErrorView, CellId, DnaHash};
use crate::orchestrator::{advance, initial, ActionView, EventView, OrchestratorView};
use crate::signal::StateSignal;
use crate::supervisor::{boot, react, DirectiveView, OccurrenceView, SupervisorView};
use vstd::prelude::*;

verus! {

/// An installed application, as the conductor keeps it.
pub struct AppRecord {
    pub app_id: Seq<char>,
    pub cells: Seq<CellId>,
    pub enabled: bool,
    /// The ports of the application's interfaces, oldest first.
    pub interfaces: Seq<u16>,
}

/// What persists from one run to the next.
pub struct Datastore {
    /// Whether the datastore directory exists.
    pub exists: bool,
    /// The keystore's entries, in the order the keystore lists them.
    pub keys: Seq<KeystoreEntry>,
    /// The installed applications, in the order the conductor lists them.
    pub apps: Seq<AppRecord>,
}

/// What the world decides during one run.
pub struct Circumstances {
    /// Whether a missing datastore directory can be created.
    pub datastore_creatable: bool,
    /// Whether the runtime starts.
    pub runtime_starts: bool,
    /// The complaint a request is refused with, if it is refused. A refused
    /// request leaves the datastore as it was.
    pub refusal: spec_fn(ActionView) -> Option<Seq<char>>,
    /// The key that the keystore generates when asked for one.
    pub generated_key: Identity,
    /// The DNAs that the bundle decodes to.
    pub bundle: Seq<DnaHash>,
    /// The complaint the backend rejects a DNA with, if it rejects it.
    pub rejection: spec_fn(DnaHash) -> Option<Seq<char>>,
    /// The complaint an installation under a taken identifier is refused with.
    pub collision: Seq<char>,
    /// The cells that do not start when the application is enabled.
    pub activation_errors: Seq<ActivationErrorView>,
    /// The port a new interface ends up on.
    pub bound_port: u16,
}

/// The index of the first application at or after `from` that is installed
/// under `app_id`.
pub open spec fn find_app_from(apps: Seq<AppRecord>, app_id: Seq<char>, from: int) -> Option<int>
    decreases apps.len() - from,
{
    if from < 0 || from >= apps.len() {
        None
    } else if apps[from].app_id == app_id {
        Some(from)
    } else {
        find_app_from(apps, app_id, from + 1)
    }
}

/// The index of the first application that is installed under `app_id`.
pub open spec fn find_app(apps: Seq<AppRecord>, app_id: Seq<char>) -> Option<int> {
    find_app_from(apps, app_id, 0)
}

/// The identifiers of the installed applications, in the conductor's order.
pub open spec fn app_ids(apps: Seq<AppRecord>) -> Seq<Seq<char>> {
    Seq::new(apps.len(), |i: int| apps[i].app_id)
}

/// The outcomes of registering `dnas`, one per DNA.
pub open spec fn registrations(
    dnas: Seq<DnaHash>,
    rejection: spec_fn(DnaHash) -> Option<Seq<char>>,
) -> Seq<Option<Seq<char>>> {
    Seq::new(dnas.len(), |i: int| rejection(dnas[i]))
}

/// The conductor's answer to a request, and the datastore after it.
///
/// Listing changes nothing. A generated key is stored behind the keys that
/// are there. An application is installed whole or not at all, and never
/// under an identifier that is taken. A new interface belongs to the
/// application it was asked for.
pub open spec fn respond(datastore: Datastore, request: ActionView, world: Circumstances) -> (
    EventView,
    Datastore,
) {
    if let Some(message) = (world.refusal)(request) {
        (EventView::Failed { message }, datastore)
    } else {
        match request {
            ActionView::ListApps => (EventView::Apps(app_ids(datastore.apps)), datastore),
            ActionView::ListKeystoreEntries => (
                EventView::KeystoreEntries(datastore.keys),
                datastore,
            ),
            ActionView::GenerateKeypair => (
                EventView::KeypairGenerated(world.generated_key),
                Datastore {
                    keys: datastore.keys.push(KeystoreEntry::SigningKeypair(world.generated_key)),
                    ..datastore
                },
            ),
            ActionView::DecodeBundle { path } => (EventView::BundleDecoded(world.bundle), datastore),
            ActionView::RegisterDnas { dnas } => (
                EventView::DnasRegistered(registrations(dnas, world.rejection)),
                datastore,
            ),
            ActionView::InstallApp(install) => match find_app(datastore.apps, install.app_id) {
                Some(_) => (EventView::Failed { message: world.collision }, datastore),
                None => (
                    EventView::AppInstalled,
                    Datastore {
                        apps: datastore.apps.push(
                            AppRecord {
                                app_id: install.app_id,
                                cells: install.cells,
                                enabled: false,
                                interfaces: Seq::empty(),
                            },
                        ),
                        ..datastore
                    },
                ),
            },
            ActionView::EnableApp { app_id } => match find_app(datastore.apps, app_id) {
                Some(i) => (
                    EventView::AppEnabled { present: true, errors: world.activation_errors },
                    Datastore {
                        apps: datastore.apps.update(
                            i,
                            AppRecord { enabled: true, ..datastore.apps[i] },
                        ),
                        ..datastore
                    },
                ),
                None => (EventView::AppEnabled { present: false, errors: Seq::empty() }, datastore),
            },
            ActionView::ListInterfaces { app_id } => match find_app(datastore.apps, app_id) {
                Some(i) => (EventView::Interfaces(datastore.apps[i].interfaces), datastore),
                None => (EventView::Interfaces(Seq::empty()), datastore),
            },
            ActionView::AddInterface { app_id, port } => match find_app(datastore.apps, app_id) {
                Some(i) => (
                    EventView::InterfaceBound(world.bound_port),
                    Datastore {
                        apps: datastore.apps.update(
                            i,
                            AppRecord {
                                interfaces: datastore.apps[i].interfaces.push(world.bound_port),
                                ..datastore.apps[i]
                            },
                        ),
                        ..datastore
                    },
                ),
                None => (EventView::InterfaceBound(world.bound_port), datastore),
            },
            ActionView::Done { .. } | ActionView::Abort { .. } => (
                EventView::Failed { message: Seq::empty() },
                datastore,
            ),
        }
    }
}

/// How an orchestration pass went.
pub struct Pass {
    /// The state the pass ended in.
    pub state: OrchestratorView,
    /// The last action the pass named.
    pub outcome: ActionView,
    /// The requests the host made for the pass, in order.
    pub requests: Seq<ActionView>,
    /// The signals the pass emitted, in order.
    pub signals: Seq<StateSignal>,
    /// The datastore the pass left behind.
    pub datastore: Datastore,
}

/// The most requests a pass makes before it ends.
pub open spec fn pass_limit() -> nat {
    8
}

/// A pass from `state` on, whose next request is `pending`: the host makes
/// the request, hands the answer to the pass and goes on, at most `budget`
/// times, until the pass names a final action.
pub open spec fn drive(
    state: OrchestratorView,
    pending: ActionView,
    requests: Seq<ActionView>,
    signals: Seq<StateSignal>,
    datastore: Datastore,
    world: Circumstances,
    budget: nat,
) -> Pass
    decreases budget,
{
    if budget == 0 || pending.is_final() {
        Pass { state, outcome: pending, requests, signals, datastore }
    } else {
        let (event, datastore) = respond(datastore, pending, world);
        let (state, step) = advance(state, event);
        drive(
            state,
            step.action,
            requests.push(pending),
            signals + step.signals,
            datastore,
            world,
            (budget - 1) as nat,
        )
    }
}

/// A whole orchestration pass on `datastore`.
pub open spec fn orchestration_pass(
    app_id: Seq<char>,
    app_ws_port: u16,
    happ_path: Seq<char>,
    network_seed: Option<Seq<char>>,
    datastore: Datastore,
    world: Circumstances,
) -> Pass {
    let (state, step) = initial(app_id, app_ws_port, happ_path, network_seed);
    drive(state, step.action, Seq::empty(), step.signals, datastore, world, pass_limit())
}

/// How a run of the node went, from its start until it was ready or had
/// failed.
pub struct Session {
    /// The supervisor's state at the end.
    pub supervisor: SupervisorView,
    /// The identity the node resolved, if it got that far.
    pub identity: Option<Identity>,
    /// The requests the host made of the conductor, in order.
    pub requests: Seq<ActionView>,
    /// All signals of the run, in the order they were emitted.
    pub signals: Seq<StateSignal>,
    /// The datastore the run left behind.
    pub datastore: Datastore,
}

/// The part of a run that follows once the datastore is there: the runtime
/// is started and the orchestration pass is run to its end.
pub open spec fn bring_up(
    supervisor: SupervisorView,
    directive: DirectiveView,
    signals: Seq<StateSignal>,
    datastore: Datastore,
    world: Circumstances,
) -> Session {
    if !(directive is StartRuntime) {
        Session { supervisor, identity: None, requests: Seq::empty(), signals, datastore }
    } else if !world.runtime_starts {
        let (supervisor, instruction) = react(supervisor, OccurrenceView::RuntimeStartFailed);
        Session {
            supervisor,
            identity: None,
            requests: Seq::empty(),
            signals: signals + instruction.signals,
            datastore,
        }
    } else {
        let (supervisor, handover) = react(supervisor, OccurrenceView::RuntimeStarted);
        let signals = signals + handover.signals;
        match handover.directive {
            DirectiveView::Orchestrate { app_id, app_ws_port, happ_path, network_seed } => {
                let (supervisor, spawned) = react(supervisor, OccurrenceView::OrchestrationSpawned);
                let pass = orchestration_pass(
                    app_id,
                    app_ws_port,
                    happ_path,
                    network_seed,
                    datastore,
                    world,
                );
                let occurrence = match pass.outcome {
                    ActionView::Done { app_id, port } => OccurrenceView::OrchestrationSucceeded {
                        port,
                    },
                    ActionView::Abort { error } => OccurrenceView::OrchestrationFailed { error },
                    _ => OccurrenceView::OrchestrationSpawned,
                };
                let (supervisor, last) = react(supervisor, occurrence);
                Session {
                    supervisor,
                    identity: pass.state.agent,
                    requests: pass.requests,
                    signals: signals + spawned.signals + pass.signals + last.signals,
                    datastore: pass.datastore,
                }
            },
            _ => Session { supervisor, identity: None, requests: Seq::empty(), signals, datastore },
        }
    }
}

/// One run of a node configured with `config` on `datastore`, in a world
/// that decides as `world` says, with a host that does what it is told:
/// it looks at the datastore, creates it where it is missing, starts the
/// runtime and runs the orchestration pass.
pub open spec fn session(config: HcConfigView, datastore: Datastore, world: Circumstances) -> Session {
    let (supervisor, first) = boot(config);
    let (supervisor, probed) = react(
        supervisor,
        OccurrenceView::DatastoreProbed { exists: datastore.exists },
    );
    let signals = first.signals + probed.signals;
    match probed.directive {
        DirectiveView::CreateDatastore { path } => {
            if world.datastore_creatable {
                let (supervisor, created) = react(supervisor, OccurrenceView::DatastoreCreated);
                bring_up(
                    supervisor,
                    created.directive,
                    signals + created.signals,
                    Datastore { exists: true, ..datastore },
                    world,
                )
            } else {
                let (supervisor, failed) = react(
                    supervisor,
                    OccurrenceView::DatastoreCreationFailed,
                );
                Session {
                    supervisor,
                    identity: None,
                    requests: Seq::empty(),
                    signals: signals + failed.signals,
                    datastore,
                }
            }
        },
        directive => bring_up(supervisor, directive, signals, datastore, world),
    }
}

} // verus!
