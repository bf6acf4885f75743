//! What holds of whole runs of the node.
//!
//! The laws speak of [`session`], a run on a modelled datastore. They hold
//! for every configuration, every datastore and every way the world may
//! decide, unless a law says otherwise.

use crate::config::HcConfigView;
use crate::identity::first_signing_key;
use crate::install::{lemma_first_rejection_is_earliest, registration_verdict, DnaHash};
use crate::model::{orchestration_pass, session, Circumstances, Datastore};
use crate::pass_laws::{
    is_unhindered, lemma_pass_identity, lemma_pass_on_served_app, lemma_pass_signals,
    lemma_pass_success, lemma_pass_with_rejection, lemma_unhindered_pass_succeeds, pass_signals,
};
use crate::signal::{
    expected_signals, in_emission_order, lemma_expected_signals_in_order,
    lemma_expected_signals_tell_of_readiness, tells_of_readiness, StateSignal,
};
use crate::supervisor::{
    boot, react, replay, times_given, DirectiveView, Lifecycle, OccurrenceView, ShutdownToken,
    SupervisorView,
};
use vstd::prelude::*;

verus! {

/// Whether a datastore has all that a run sets up: the directory, a signing
/// key, an application, and an interface on the first application.
pub open spec fn is_settled(datastore: Datastore) -> bool {
    &&& datastore.exists
    &&& first_signing_key(datastore.keys) is Some
    &&& datastore.apps.len() > 0
    &&& datastore.apps[0].interfaces.len() > 0
}

/// The datastore as the orchestration pass of a run finds it: with its
/// directory, where that could be made.
pub open spec fn prepared(datastore: Datastore, world: Circumstances) -> Datastore {
    if !datastore.exists && world.datastore_creatable {
        Datastore { exists: true, ..datastore }
    } else {
        datastore
    }
}

/// A run ends ready or failed, and its signals are the beginning of the one
/// sequence that its datastore calls for: the whole of it exactly when the
/// run gets ready.
pub proof fn lemma_session_signals(config: HcConfigView, datastore: Datastore, world: Circumstances)
    ensures
        ({
            let run = session(config, datastore, world);
            let full = expected_signals(
                !datastore.exists,
                first_signing_key(datastore.keys) is None,
                datastore.apps.len() == 0,
            );
            &&& run.supervisor.lifecycle == Lifecycle::Ready || run.supervisor.lifecycle
                == Lifecycle::Failed
            &&& run.signals.len() > 0
            &&& run.signals.is_prefix_of(full)
            &&& run.supervisor.lifecycle == Lifecycle::Ready <==> run.signals == full
        }),
{
    let run = session(config, datastore, world);
    let found = prepared(datastore, world);
    let pass = orchestration_pass(
        config.app_id,
        config.app_ws_port,
        config.happ_path,
        config.network_seed,
        found,
        world,
    );
    let rest = pass_signals(first_signing_key(datastore.keys) is None, datastore.apps.len() == 0);
    let full = expected_signals(
        !datastore.exists,
        first_signing_key(datastore.keys) is None,
        datastore.apps.len() == 0,
    );
    let marker = seq![full[0]];
    lemma_pass_signals(
        config.app_id,
        config.app_ws_port,
        config.happ_path,
        config.network_seed,
        found,
        world,
    );
    assert(full =~= marker + rest);
    if (!datastore.exists && !world.datastore_creatable) || !world.runtime_starts {
        assert(run.signals =~= marker);
    } else {
        assert(run.signals =~= marker + pass.signals);
        assert(pass.signals =~= rest.subrange(0, pass.signals.len() as int));
        assert(run.signals =~= full.subrange(0, run.signals.len() as int));
    }
}

/// Signals are observed in the order of their milestones, in every run: the
/// report on the datastore first, the readiness signal last if it comes at
/// all. In a run that gets ready the signals of the key generation come
/// together or not at all, and so do those of the installation.
pub proof fn law_signals_are_ordered(config: HcConfigView, datastore: Datastore, world: Circumstances)
    ensures
        in_emission_order(session(config, datastore, world).signals),
        session(config, datastore, world).signals[0] == if datastore.exists {
            StateSignal::IsNotFirstRun
        } else {
            StateSignal::IsFirstRun
        },
        session(config, datastore, world).supervisor.lifecycle == Lifecycle::Ready
            ==> tells_of_readiness(session(config, datastore, world).signals),
        session(config, datastore, world).supervisor.lifecycle != Lifecycle::Ready
            ==> !session(config, datastore, world).signals.contains(StateSignal::IsReady),
{
    let run = session(config, datastore, world);
    let first_run = !datastore.exists;
    let new_identity = first_signing_key(datastore.keys) is None;
    let fresh_install = datastore.apps.len() == 0;
    let full = expected_signals(first_run, new_identity, fresh_install);
    lemma_session_signals(config, datastore, world);
    lemma_expected_signals_in_order(first_run, new_identity, fresh_install, run.signals);
    lemma_expected_signals_tell_of_readiness(first_run, new_identity, fresh_install);
    lemma_expected_signals_in_order(first_run, new_identity, fresh_install, full);
    assert(run.signals[0] == full[0]);
    if run.signals.contains(StateSignal::IsReady) {
        let i = choose|i: int| 0 <= i < run.signals.len() && run.signals[i] == StateSignal::IsReady;
        assert(full[i] == StateSignal::IsReady);
        assert(full[full.len() - 1] == StateSignal::IsReady);
        assert(i == full.len() - 1);
        assert(run.signals =~= full);
    }
}

/// A run that nothing hinders gets ready, on every datastore: where the
/// datastore directory is there or can be made, the runtime starts, and the
/// world puts nothing in the way of the orchestration pass.
pub proof fn law_unhindered_run_gets_ready(
    config: HcConfigView,
    datastore: Datastore,
    world: Circumstances,
)
    requires
        datastore.exists || world.datastore_creatable,
        world.runtime_starts,
        is_unhindered(world),
    ensures
        session(config, datastore, world).supervisor.lifecycle == Lifecycle::Ready,
        session(config, datastore, world).supervisor.app_port is Some,
{
    lemma_unhindered_pass_succeeds(
        config.app_id,
        config.app_ws_port,
        config.happ_path,
        config.network_seed,
        prepared(datastore, world),
        world,
    );
}

/// The key a run resolves is the first signing key of the keystore it leaves
/// behind. Where the keystore holds a signing key to begin with, the run
/// asks for no other and leaves the keystore as it is.
pub proof fn lemma_session_identity(config: HcConfigView, datastore: Datastore, world: Circumstances)
    ensures
        ({
            let run = session(config, datastore, world);
            &&& run.identity is Some ==> run.identity == first_signing_key(run.datastore.keys)
            &&& run.supervisor.lifecycle == Lifecycle::Ready ==> run.identity is Some
            &&& first_signing_key(datastore.keys) is Some ==> {
                &&& run.datastore.keys == datastore.keys
                &&& forall|i: int|
                    0 <= i < run.requests.len() ==> !((#[trigger] run.requests[i])
                        is GenerateKeypair)
            }
        }),
{
    lemma_pass_identity(
        config.app_id,
        config.app_ws_port,
        config.happ_path,
        config.network_seed,
        prepared(datastore, world),
        world,
    );
    lemma_pass_signals(
        config.app_id,
        config.app_ws_port,
        config.happ_path,
        config.network_seed,
        prepared(datastore, world),
        world,
    );
}

/// A run that gets ready leaves a settled datastore behind, and the port it
/// reports is that of the first application's first interface. On a
/// datastore without applications it installs exactly one, under the
/// configured identifier, enables it and binds one interface for it.
pub proof fn lemma_ready_session_settles(
    config: HcConfigView,
    datastore: Datastore,
    world: Circumstances,
)
    requires
        session(config, datastore, world).supervisor.lifecycle == Lifecycle::Ready,
    ensures
        ({
            let run = session(config, datastore, world);
            &&& is_settled(run.datastore)
            &&& run.supervisor.app_port == Some(run.datastore.apps[0].interfaces[0])
            &&& datastore.apps.len() == 0 ==> {
                &&& run.datastore.apps.len() == 1
                &&& run.datastore.apps[0].app_id == config.app_id
                &&& run.datastore.apps[0].enabled
                &&& run.datastore.apps[0].interfaces.len() == 1
            }
        }),
{
    let found = prepared(datastore, world);
    lemma_pass_signals(
        config.app_id,
        config.app_ws_port,
        config.happ_path,
        config.network_seed,
        found,
        world,
    );
    lemma_pass_identity(
        config.app_id,
        config.app_ws_port,
        config.happ_path,
        config.network_seed,
        found,
        world,
    );
    lemma_pass_success(
        config.app_id,
        config.app_ws_port,
        config.happ_path,
        config.network_seed,
        found,
        world,
    );
}

/// On a settled datastore a run only asks the conductor what it holds, and
/// changes nothing: it generates no key, installs and enables nothing and
/// binds no interface. Where it gets ready it reports the port of the first
/// application's first interface, whatever port was configured.
pub proof fn lemma_settled_session(config: HcConfigView, datastore: Datastore, world: Circumstances)
    requires
        is_settled(datastore),
    ensures
        ({
            let run = session(config, datastore, world);
            &&& run.datastore == datastore
            &&& forall|i: int| 0 <= i < run.requests.len() ==> (#[trigger] run.requests[i]).is_query()
            &&& run.signals.is_prefix_of(seq![StateSignal::IsNotFirstRun, StateSignal::IsReady])
            &&& run.supervisor.lifecycle == Lifecycle::Ready ==> run.supervisor.app_port == Some(
                datastore.apps[0].interfaces[0],
            )
        }),
{
    let run = session(config, datastore, world);
    lemma_pass_signals(
        config.app_id,
        config.app_ws_port,
        config.happ_path,
        config.network_seed,
        datastore,
        world,
    );
    lemma_pass_identity(
        config.app_id,
        config.app_ws_port,
        config.happ_path,
        config.network_seed,
        datastore,
        world,
    );
    lemma_pass_on_served_app(
        config.app_id,
        config.app_ws_port,
        config.happ_path,
        config.network_seed,
        datastore,
        world,
    );
    lemma_session_signals(config, datastore, world);
}

/// Installing is idempotent. After a run that got ready, a second run on the
/// datastore it left behind finds the application and neither installs nor
/// enables anything: it only asks the conductor what it holds, emits no
/// signal of the installation and leaves the datastore as it found it. So a
/// run on a datastore without applications and a run after it install the
/// application exactly once.
pub proof fn law_install_is_idempotent(
    config: HcConfigView,
    datastore: Datastore,
    first_world: Circumstances,
    second_world: Circumstances,
)
    requires
        session(config, datastore, first_world).supervisor.lifecycle == Lifecycle::Ready,
    ensures
        ({
            let first = session(config, datastore, first_world);
            let second = session(config, first.datastore, second_world);
            &&& second.datastore == first.datastore
            &&& forall|i: int|
                0 <= i < second.requests.len() ==> (#[trigger] second.requests[i]).is_query()
            &&& !second.signals.contains(StateSignal::InstallingApp)
            &&& !second.signals.contains(StateSignal::EnablingApp)
            &&& !second.signals.contains(StateSignal::AddingAppInterface)
            &&& datastore.apps.len() == 0 ==> second.datastore.apps.len() == 1
                && second.datastore.apps[0].app_id == config.app_id
        }),
{
    let first = session(config, datastore, first_world);
    let second = session(config, first.datastore, second_world);
    lemma_ready_session_settles(config, datastore, first_world);
    lemma_settled_session(config, first.datastore, second_world);
    let short = seq![StateSignal::IsNotFirstRun, StateSignal::IsReady];
    assert forall|i: int| 0 <= i < second.signals.len() implies second.signals[i] == short[i] by {}
}

/// An interface is bound once and then reused. After a run that got ready, a
/// second run on the datastore it left behind binds no interface, and where
/// it gets ready it reports the port of the first run, whatever port it is
/// configured with.
pub proof fn law_interface_is_reused(
    first_config: HcConfigView,
    second_config: HcConfigView,
    datastore: Datastore,
    first_world: Circumstances,
    second_world: Circumstances,
)
    requires
        session(first_config, datastore, first_world).supervisor.lifecycle == Lifecycle::Ready,
    ensures
        ({
            let first = session(first_config, datastore, first_world);
            let second = session(second_config, first.datastore, second_world);
            &&& first.supervisor.app_port is Some
            &&& second.datastore.apps == first.datastore.apps
            &&& forall|i: int|
                0 <= i < second.requests.len() ==> !((#[trigger] second.requests[i])
                    is AddInterface)
            &&& second.supervisor.lifecycle == Lifecycle::Ready ==> second.supervisor.app_port
                == first.supervisor.app_port
        }),
{
    let first = session(first_config, datastore, first_world);
    let second = session(second_config, first.datastore, second_world);
    lemma_ready_session_settles(first_config, datastore, first_world);
    lemma_settled_session(second_config, first.datastore, second_world);
    assert forall|i: int| 0 <= i < second.requests.len() implies !((#[trigger] second.requests[i])
        is AddInterface) by {
        assert(second.requests[i].is_query());
    }
}

/// The identity is stable. Of two runs, the second on the datastore that the
/// first left behind, the second resolves the key that the first resolved,
/// if it resolves one; it has no key generated and leaves the keystore as it
/// found it.
pub proof fn law_identity_is_stable(
    first_config: HcConfigView,
    second_config: HcConfigView,
    datastore: Datastore,
    first_world: Circumstances,
    second_world: Circumstances,
)
    requires
        session(first_config, datastore, first_world).identity is Some,
    ensures
        ({
            let first = session(first_config, datastore, first_world);
            let second = session(second_config, first.datastore, second_world);
            &&& second.identity is Some ==> second.identity == first.identity
            &&& second.supervisor.lifecycle == Lifecycle::Ready ==> second.identity
                == first.identity
            &&& second.datastore.keys == first.datastore.keys
            &&& forall|i: int|
                0 <= i < second.requests.len() ==> !((#[trigger] second.requests[i])
                    is GenerateKeypair)
            &&& !second.signals.contains(StateSignal::CreatingKeys)
        }),
{
    let first = session(first_config, datastore, first_world);
    let second = session(second_config, first.datastore, second_world);
    lemma_session_identity(first_config, datastore, first_world);
    lemma_session_identity(second_config, first.datastore, second_world);
    lemma_session_signals(second_config, first.datastore, second_world);
    let full = expected_signals(!first.datastore.exists, false, first.datastore.apps.len() == 0);
    if second.signals.contains(StateSignal::CreatingKeys) {
        let i = choose|i: int|
            0 <= i < second.signals.len() && second.signals[i] == StateSignal::CreatingKeys;
        assert(full[i] == StateSignal::CreatingKeys);
    }
}

/// The outcomes of a registration count as success exactly when there is one
/// outcome for each DNA and none of them is a rejection.
pub proof fn law_registration_is_all_or_nothing(
    dnas: Seq<DnaHash>,
    outcomes: Seq<Option<Seq<char>>>,
)
    ensures
        registration_verdict(dnas, outcomes) is Ok <==> outcomes.len() == dnas.len() && forall|
            i: int,
        | 0 <= i < outcomes.len() ==> (#[trigger] outcomes[i]) is None,
{
    lemma_first_rejection_is_earliest(outcomes);
}

/// Installing is all or nothing. Where the backend rejects one of the
/// bundle's DNAs, a run never asks for an installation: the datastore holds
/// as many applications as before, and on a datastore without applications
/// the run fails and leaves none.
pub proof fn law_install_is_all_or_nothing(
    config: HcConfigView,
    datastore: Datastore,
    world: Circumstances,
    rejected: int,
)
    requires
        0 <= rejected < world.bundle.len(),
        (world.rejection)(world.bundle[rejected]) is Some,
    ensures
        session(config, datastore, world).datastore.apps.len() == datastore.apps.len(),
        forall|i: int|
            0 <= i < session(config, datastore, world).requests.len() ==> !((
            #[trigger] session(config, datastore, world).requests[i]) is InstallApp),
        datastore.apps.len() == 0 ==> session(config, datastore, world).supervisor.lifecycle
            == Lifecycle::Failed,
{
    lemma_pass_with_rejection(
        config.app_id,
        config.app_ws_port,
        config.happ_path,
        config.network_seed,
        prepared(datastore, world),
        world,
        rejected,
    );
    lemma_session_signals(config, datastore, world);
}

/// What holds of a supervisor whatever was reported to it: the stage it is
/// in tells what became of the termination request, and how often the
/// teardown was set off.
pub open spec fn shutdown_is_consistent(state: SupervisorView, directives: Seq<DirectiveView>) -> bool {
    let begun = times_given(directives, DirectiveView::BeginTeardown);
    let shut = times_given(directives, DirectiveView::ShutdownRuntime);
    let exits = times_given(directives, DirectiveView::Exit);
    match state.lifecycle {
        Lifecycle::Starting
        | Lifecycle::DatastoreChecked
        | Lifecycle::RuntimeUp
        | Lifecycle::Orchestrating
        | Lifecycle::Failed => state.shutdown != ShutdownToken::Completed && begun == 0 && shut == 0
            && exits == 0,
        Lifecycle::Ready => state.shutdown == ShutdownToken::Pending && begun == 0 && shut == 0
            && exits == 0,
        Lifecycle::ShutdownRequested => state.shutdown == ShutdownToken::Requested && begun == 1
            && shut == 0 && exits == 0,
        Lifecycle::Stopping => state.shutdown == ShutdownToken::Completed && begun == 1 && shut == 1
            && exits == 0,
        Lifecycle::Stopped => state.shutdown == ShutdownToken::Completed && begun == 1 && shut == 1
            && exits == 1,
    }
}

/// The termination request is taken at most once. Whatever is reported to a
/// supervisor, in whatever order and however often, it sets the teardown off
/// at most once, has the runtime shut down at most once and lets the process
/// exit at most once, each only after the one before; and it does none of
/// this while the node is starting up: a request that arrives then waits
/// until the node is ready.
pub proof fn law_teardown_runs_once(config: HcConfigView, occurrences: Seq<OccurrenceView>)
    ensures
        ({
            let (state, directives) = replay(boot(config).0, occurrences);
            let begun = times_given(directives, DirectiveView::BeginTeardown);
            let shut = times_given(directives, DirectiveView::ShutdownRuntime);
            let exits = times_given(directives, DirectiveView::Exit);
            &&& exits <= shut <= begun <= 1
            &&& state.lifecycle.is_starting_up() ==> begun == 0
            &&& state.lifecycle == Lifecycle::Stopped <==> exits == 1
            &&& shut == 1 <==> state.shutdown == ShutdownToken::Completed
            &&& shutdown_is_consistent(state, directives)
        }),
    decreases occurrences.len(),
{
    if occurrences.len() > 0 {
        law_teardown_runs_once(config, occurrences.drop_last());
        let (before, earlier) = replay(boot(config).0, occurrences.drop_last());
        let (after, instruction) = react(before, occurrences.last());
        let directives = earlier.push(instruction.directive);
        assert(directives.drop_last() == earlier);
    }
}

} // verus!
