//! What holds of every orchestration pass.
//!
//! The lemmas speak of [`orchestration_pass`], a pass on a modelled
//! datastore, and hold for every datastore and every way the world may
//! decide.

use crate::identity::{first_signing_key, KeystoreEntry};
use crate::install::{first_rejection, lemma_first_rejection_is_earliest, pair_cells};
use crate::model::{
    drive, find_app_from, orchestration_pass, registrations, Circumstances, Datastore,
};
use crate::orchestrator::ActionView;
use crate::signal::StateSignal;
use vstd::prelude::*;

verus! {

/// The signals of a pass that runs to its end: those of the key generation
/// where a key is generated, those of the installation where the application
/// is installed, and the readiness signal.
pub open spec fn pass_signals(new_identity: bool, fresh_install: bool) -> Seq<StateSignal> {
    let generation = if new_identity {
        seq![StateSignal::CreatingKeys, StateSignal::RegisteringDna]
    } else {
        Seq::empty()
    };
    let installation = if fresh_install {
        seq![StateSignal::InstallingApp, StateSignal::EnablingApp, StateSignal::AddingAppInterface]
    } else {
        Seq::empty()
    };
    generation + installation + seq![StateSignal::IsReady]
}

/// Every orchestration pass ends, in success or in failure, and what it emits
/// is the beginning of the one sequence that its datastore calls for: the
/// whole of it where the pass succeeds, less where it fails.
pub proof fn lemma_pass_signals(
    app_id: Seq<char>,
    app_ws_port: u16,
    happ_path: Seq<char>,
    network_seed: Option<Seq<char>>,
    datastore: Datastore,
    world: Circumstances,
)
    ensures
        ({
            let pass = orchestration_pass(
                app_id,
                app_ws_port,
                happ_path,
                network_seed,
                datastore,
                world,
            );
            let full = pass_signals(
                first_signing_key(datastore.keys) is None,
                datastore.apps.len() == 0,
            );
            &&& pass.outcome is Done || pass.outcome is Abort
            &&& pass.signals.is_prefix_of(full)
            &&& pass.outcome is Done ==> pass.signals == full
            &&& pass.outcome is Abort ==> pass.signals.len() < full.len()
        }),
{
    reveal_with_fuel(drive, 9);
}

/// A pass leaves the datastore directory alone, and the key it resolves is
/// the first signing key of the keystore it leaves behind. Where the
/// keystore holds a signing key to begin with, the pass asks for no other
/// and leaves the keystore as it is.
pub proof fn lemma_pass_identity(
    app_id: Seq<char>,
    app_ws_port: u16,
    happ_path: Seq<char>,
    network_seed: Option<Seq<char>>,
    datastore: Datastore,
    world: Circumstances,
)
    ensures
        ({
            let pass = orchestration_pass(
                app_id,
                app_ws_port,
                happ_path,
                network_seed,
                datastore,
                world,
            );
            &&& pass.datastore.exists == datastore.exists
            &&& pass.state.agent is Some ==> pass.state.agent == first_signing_key(
                pass.datastore.keys,
            )
            &&& pass.outcome is Done ==> pass.state.agent is Some
            &&& first_signing_key(datastore.keys) is Some ==> {
                &&& pass.datastore.keys == datastore.keys
                &&& forall|i: int|
                    0 <= i < pass.requests.len() ==> !((#[trigger] pass.requests[i])
                        is GenerateKeypair)
            }
        }),
{
    reveal_with_fuel(drive, 9);
    assert(datastore.keys.push(KeystoreEntry::SigningKeypair(world.generated_key)).drop_last()
        == datastore.keys);
}

/// A pass that succeeds leaves an application with an interface behind, and
/// the port it names is that of the first application's first interface. On
/// a datastore without applications it installs exactly one, under the
/// identifier it was given, enables it and binds one interface for it; on
/// any other it installs none.
pub proof fn lemma_pass_success(
    app_id: Seq<char>,
    app_ws_port: u16,
    happ_path: Seq<char>,
    network_seed: Option<Seq<char>>,
    datastore: Datastore,
    world: Circumstances,
)
    requires
        orchestration_pass(
            app_id,
            app_ws_port,
            happ_path,
            network_seed,
            datastore,
            world,
        ).outcome is Done,
    ensures
        ({
            let pass = orchestration_pass(
                app_id,
                app_ws_port,
                happ_path,
                network_seed,
                datastore,
                world,
            );
            &&& pass.datastore.apps.len() > 0
            &&& pass.datastore.apps[0].interfaces.len() > 0
            &&& pass.outcome->Done_port == pass.datastore.apps[0].interfaces[0]
            &&& pass.outcome->Done_app_id == pass.datastore.apps[0].app_id
            &&& datastore.apps.len() == 0 ==> {
                &&& pass.datastore.apps.len() == 1
                &&& pass.datastore.apps[0].app_id == app_id
                &&& pass.datastore.apps[0].cells == pair_cells(
                    world.bundle,
                    pass.state.agent->Some_0,
                )
                &&& pass.datastore.apps[0].enabled
                &&& pass.datastore.apps[0].interfaces == seq![world.bound_port]
            }
            &&& datastore.apps.len() > 0 ==> {
                &&& pass.datastore.apps.len() == datastore.apps.len()
                &&& pass.datastore.apps[0].app_id == datastore.apps[0].app_id
            }
        }),
{
    reveal_with_fuel(drive, 9);
    reveal_with_fuel(find_app_from, 2);
}

/// On a datastore whose first application has an interface, a pass installs,
/// enables and binds nothing: beside its queries it asks at most for a key,
/// and not even that where the keystore holds one. It leaves the
/// applications as they are, and where it succeeds it names the port of that
/// interface, whatever port it was given.
pub proof fn lemma_pass_on_served_app(
    app_id: Seq<char>,
    app_ws_port: u16,
    happ_path: Seq<char>,
    network_seed: Option<Seq<char>>,
    datastore: Datastore,
    world: Circumstances,
)
    requires
        datastore.apps.len() > 0,
        datastore.apps[0].interfaces.len() > 0,
    ensures
        ({
            let pass = orchestration_pass(
                app_id,
                app_ws_port,
                happ_path,
                network_seed,
                datastore,
                world,
            );
            &&& pass.datastore.apps == datastore.apps
            &&& pass.outcome is Done ==> pass.outcome->Done_port
                == datastore.apps[0].interfaces[0]
            &&& forall|i: int|
                0 <= i < pass.requests.len() ==> {
                    let request = #[trigger] pass.requests[i];
                    request.is_query() || request is GenerateKeypair
                }
            &&& first_signing_key(datastore.keys) is Some ==> forall|i: int|
                0 <= i < pass.requests.len() ==> (#[trigger] pass.requests[i]).is_query()
        }),
{
    reveal_with_fuel(drive, 9);
    reveal_with_fuel(find_app_from, 2);
}

/// Where the backend rejects one of the bundle's DNAs, a pass never asks for
/// an installation: it leaves as many applications as it found, and on a
/// datastore without applications it fails.
pub proof fn lemma_pass_with_rejection(
    app_id: Seq<char>,
    app_ws_port: u16,
    happ_path: Seq<char>,
    network_seed: Option<Seq<char>>,
    datastore: Datastore,
    world: Circumstances,
    rejected: int,
)
    requires
        0 <= rejected < world.bundle.len(),
        (world.rejection)(world.bundle[rejected]) is Some,
    ensures
        ({
            let pass = orchestration_pass(
                app_id,
                app_ws_port,
                happ_path,
                network_seed,
                datastore,
                world,
            );
            &&& pass.datastore.apps.len() == datastore.apps.len()
            &&& datastore.apps.len() == 0 ==> pass.outcome is Abort
            &&& forall|i: int|
                0 <= i < pass.requests.len() ==> !((#[trigger] pass.requests[i]) is InstallApp)
        }),
{
    let outcomes = registrations(world.bundle, world.rejection);
    assert(outcomes[rejected] is Some);
    lemma_first_rejection_is_earliest(outcomes);
    assert(first_rejection(outcomes) is Some);
    reveal_with_fuel(drive, 9);
    reveal_with_fuel(find_app_from, 2);
}

/// Whether the world puts nothing in the way of a pass: it refuses no
/// request, the backend rejects none of the bundle's DNAs, and every cell
/// starts.
pub open spec fn is_unhindered(world: Circumstances) -> bool {
    &&& forall|request: ActionView| (#[trigger] (world.refusal)(request)) is None
    &&& forall|i: int|
        0 <= i < world.bundle.len() ==> (world.rejection)(#[trigger] world.bundle[i]) is None
    &&& world.activation_errors.len() == 0
}

/// A pass that nothing hinders succeeds, on every datastore.
pub proof fn lemma_unhindered_pass_succeeds(
    app_id: Seq<char>,
    app_ws_port: u16,
    happ_path: Seq<char>,
    network_seed: Option<Seq<char>>,
    datastore: Datastore,
    world: Circumstances,
)
    requires
        is_unhindered(world),
    ensures
        orchestration_pass(
            app_id,
            app_ws_port,
            happ_path,
            network_seed,
            datastore,
            world,
        ).outcome is Done,
{
    let outcomes = registrations(world.bundle, world.rejection);
    lemma_first_rejection_is_earliest(outcomes);
    assert(first_rejection(outcomes) is None) by {
        if first_rejection(outcomes) is Some {
            let i = first_rejection(outcomes)->Some_0;
            assert((world.rejection)(world.bundle[i]) is None);
        }
    }
    reveal_with_fuel(drive, 9);
    reveal_with_fuel(find_app_from, 2);
}

} // verus!
