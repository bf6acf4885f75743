//! Progress signals: the milestones a host may display while the node starts.

use vstd::prelude::*;

verus! {

/// One startup milestone. Signals carry no payload; their meaning is their
/// position in the startup sequence.
#[derive(Clone, Copy, Debug, PartialEq, Eq, Structural)]
pub enum StateSignal {
    /// The datastore did not exist when the node started.
    IsFirstRun,
    /// The datastore was already there.
    IsNotFirstRun,
    /// No signing key was found; one is being generated.
    CreatingKeys,
    /// The fresh key exists; the application's DNAs come next.
    RegisteringDna,
    /// The application is being installed.
    InstallingApp,
    /// The installed application is being enabled.
    EnablingApp,
    /// A network interface is being attached to the fresh application.
    AddingAppInterface,
    /// The node is ready to serve.
    IsReady,
}

impl StateSignal {
    /// The number a signal is reported under.
    pub open spec fn code(self) -> int {
        match self {
            StateSignal::IsFirstRun => 0,
            StateSignal::IsNotFirstRun => 1,
            StateSignal::CreatingKeys => 2,
            StateSignal::RegisteringDna => 3,
            StateSignal::InstallingApp => 4,
            StateSignal::EnablingApp => 5,
            StateSignal::AddingAppInterface => 6,
            StateSignal::IsReady => 7,
        }
    }

    /// Whether the signal is one of the two that report on the datastore.
    pub open spec fn is_run_marker(self) -> bool {
        self == StateSignal::IsFirstRun || self == StateSignal::IsNotFirstRun
    }
}

/// The number printed for a signal on the host's standard output.
pub fn state_signal_to_stdout(signal: &StateSignal) -> (code: i16)
    ensures
        code == signal.code(),
{
    match signal {
        StateSignal::IsFirstRun => 0,
        StateSignal::IsNotFirstRun => 1,
        StateSignal::CreatingKeys => 2,
        StateSignal::RegisteringDna => 3,
        StateSignal::InstallingApp => 4,
        StateSignal::EnablingApp => 5,
        StateSignal::AddingAppInterface => 6,
        StateSignal::IsReady => 7,
    }
}

/// The signals of a run that gets ready, in the order they are emitted: the
/// report on the datastore; the two signals of the key generation, where a
/// key is generated; the three of the installation, where the application is
/// installed; and the readiness signal.
pub open spec fn expected_signals(
    first_run: bool,
    new_identity: bool,
    fresh_install: bool,
) -> Seq<StateSignal> {
    let marker = if first_run {
        StateSignal::IsFirstRun
    } else {
        StateSignal::IsNotFirstRun
    };
    let generation = if new_identity {
        seq![StateSignal::CreatingKeys, StateSignal::RegisteringDna]
    } else {
        Seq::empty()
    };
    let installation = if fresh_install {
        seq![StateSignal::InstallingApp, StateSignal::EnablingApp, StateSignal::AddingAppInterface]
    } else {
        Seq::empty()
    };
    seq![marker] + generation + installation + seq![StateSignal::IsReady]
}

/// Whether signals come in the order of their milestones: a report on the
/// datastore first and nowhere else, no signal twice, none before one that
/// belongs earlier, and none of a path's later signals without the earlier
/// ones of that path.
pub open spec fn in_emission_order(signals: Seq<StateSignal>) -> bool {
    &&& signals.len() > 0 ==> signals[0].is_run_marker()
    &&& forall|i: int| 0 < i < signals.len() ==> !(#[trigger] signals[i]).is_run_marker()
    &&& forall|i: int, j: int|
        0 <= i < j < signals.len() ==> (#[trigger] signals[i]).code() < (#[trigger] signals[j]).code()
    &&& signals.contains(StateSignal::RegisteringDna) ==> signals.contains(
        StateSignal::CreatingKeys,
    )
    &&& signals.contains(StateSignal::EnablingApp) ==> signals.contains(StateSignal::InstallingApp)
    &&& signals.contains(StateSignal::AddingAppInterface) ==> signals.contains(
        StateSignal::EnablingApp,
    )
}

/// Whether signals are those of a run that got ready: they end with the
/// readiness signal, and the signals of the key generation are all there or
/// none of them is, and likewise those of the installation.
pub open spec fn tells_of_readiness(signals: Seq<StateSignal>) -> bool {
    &&& signals.len() > 0 && signals.last() == StateSignal::IsReady
    &&& signals.contains(StateSignal::CreatingKeys) <==> signals.contains(
        StateSignal::RegisteringDna,
    )
    &&& signals.contains(StateSignal::InstallingApp) <==> signals.contains(
        StateSignal::EnablingApp,
    )
    &&& signals.contains(StateSignal::EnablingApp) <==> signals.contains(
        StateSignal::AddingAppInterface,
    )
}

/// Every beginning of an expected sequence is in emission order.
pub proof fn lemma_expected_signals_in_order(
    first_run: bool,
    new_identity: bool,
    fresh_install: bool,
    signals: Seq<StateSignal>,
)
    requires
        signals.is_prefix_of(expected_signals(first_run, new_identity, fresh_install)),
    ensures
        in_emission_order(signals),
{
    let full = expected_signals(first_run, new_identity, fresh_install);
    assert forall|i: int| 0 <= i < signals.len() implies signals[i] == full[i] by {}
    if signals.contains(StateSignal::RegisteringDna) {
        let i = choose|i: int| 0 <= i < signals.len() && signals[i] == StateSignal::RegisteringDna;
        assert(full[i] == StateSignal::RegisteringDna);
        assert(signals[1] == StateSignal::CreatingKeys);
    }
    if signals.contains(StateSignal::EnablingApp) {
        let i = choose|i: int| 0 <= i < signals.len() && signals[i] == StateSignal::EnablingApp;
        assert(full[i] == StateSignal::EnablingApp);
        assert(signals[i - 1] == StateSignal::InstallingApp);
    }
    if signals.contains(StateSignal::AddingAppInterface) {
        let i = choose|i: int|
            0 <= i < signals.len() && signals[i] == StateSignal::AddingAppInterface;
        assert(full[i] == StateSignal::AddingAppInterface);
        assert(signals[i - 1] == StateSignal::EnablingApp);
    }
}

/// An expected sequence tells of readiness.
pub proof fn lemma_expected_signals_tell_of_readiness(
    first_run: bool,
    new_identity: bool,
    fresh_install: bool,
)
    ensures
        tells_of_readiness(expected_signals(first_run, new_identity, fresh_install)),
{
    let full = expected_signals(first_run, new_identity, fresh_install);
    lemma_expected_signals_in_order(first_run, new_identity, fresh_install, full);
    if new_identity {
        assert(full[1] == StateSignal::CreatingKeys);
        assert(full[2] == StateSignal::RegisteringDna);
    }
    if fresh_install {
        let at = full.len() - 4;
        assert(full[at] == StateSignal::InstallingApp);
        assert(full[at + 1] == StateSignal::EnablingApp);
        assert(full[at + 2] == StateSignal::AddingAppInterface);
    }
    if full.contains(StateSignal::CreatingKeys) {
        let i = choose|i: int| 0 <= i < full.len() && full[i] == StateSignal::CreatingKeys;
        assert(new_identity);
    }
    if full.contains(StateSignal::InstallingApp) {
        let i = choose|i: int| 0 <= i < full.len() && full[i] == StateSignal::InstallingApp;
        assert(fresh_install);
    }
}

} // verus!
