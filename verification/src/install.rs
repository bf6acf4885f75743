//! Installing and enabling the application: what to ask of the runtime, and
//! how to read its answers.

use crate::error::{OrchestrationError, OrchestrationErrorView};
use crate::identity::Identity;
use vstd::prelude::*;

verus! {

/// The hash that names one DNA of a bundle.
#[derive(Clone, Copy, Debug, PartialEq, Eq, Hash)]
pub struct DnaHash {
    pub bytes: [u8; 32],
}

/// One cell of an application: a DNA run on behalf of an agent.
#[derive(Clone, Copy, Debug, PartialEq, Eq, Hash)]
pub struct CellId {
    pub dna: DnaHash,
    pub agent: Identity,
}

/// A cell that did not start when its application was enabled.
#[derive(Clone, Debug, PartialEq, Eq)]
pub struct ActivationError {
    pub cell: CellId,
    pub message: String,
}

/// The mathematical value of an [`ActivationError`].
pub struct ActivationErrorView {
    pub cell: CellId,
    pub message: Seq<char>,
}

impl View for ActivationError {
    type V = ActivationErrorView;

    open spec fn view(&self) -> ActivationErrorView {
        ActivationErrorView { cell: self.cell, message: self.message@ }
    }
}

/// The values of a list of activation errors, in the list's order.
pub open spec fn activation_views(errors: Seq<ActivationError>) -> Seq<ActivationErrorView> {
    Seq::new(errors.len(), |i: int| errors[i]@)
}

/// The request to install an application as one unit.
#[derive(Clone, Debug, PartialEq, Eq)]
pub struct InstallRequest {
    /// The identifier the application is installed under.
    pub app_id: String,
    /// One cell per DNA of the bundle, in the bundle's order.
    pub cells: Vec<CellId>,
    /// The seed that sets the application's network apart, if any.
    pub network_seed: Option<String>,
}

/// The mathematical value of an [`InstallRequest`].
pub struct InstallRequestView {
    pub app_id: Seq<char>,
    pub cells: Seq<CellId>,
    pub network_seed: Option<Seq<char>>,
}

impl View for InstallRequest {
    type V = InstallRequestView;

    open spec fn view(&self) -> InstallRequestView {
        InstallRequestView {
            app_id: self.app_id@,
            cells: self.cells@,
            network_seed: self.network_seed.deep_view(),
        }
    }
}

/// The cells of a bundle for one agent: each DNA paired with the agent's key,
/// in the bundle's order.
pub open spec fn pair_cells(dnas: Seq<DnaHash>, agent: Identity) -> Seq<CellId> {
    Seq::new(dnas.len(), |i: int| CellId { dna: dnas[i], agent })
}

/// The index of the earliest DNA that the backend rejected, if it rejected any.
/// An outcome is the backend's complaint, or `None` where it accepted the DNA.
pub open spec fn first_rejection(outcomes: Seq<Option<Seq<char>>>) -> Option<int>
    decreases outcomes.len(),
{
    if outcomes.len() == 0 {
        None
    } else {
        match first_rejection(outcomes.drop_last()) {
            Some(i) => Some(i),
            None => if outcomes.last() is Some {
                Some(outcomes.len() - 1)
            } else {
                None
            },
        }
    }
}

/// Whether a bundle's DNAs were registered: all of them, or the bundle counts
/// as not registered at all. The error names the earliest rejected DNA.
pub open spec fn registration_verdict(
    dnas: Seq<DnaHash>,
    outcomes: Seq<Option<Seq<char>>>,
) -> Result<(), OrchestrationErrorView> {
    if outcomes.len() != dnas.len() {
        Err(OrchestrationErrorView::UnexpectedEvent)
    } else {
        match first_rejection(outcomes) {
            Some(i) => Err(
                OrchestrationErrorView::DnaRegistration {
                    dna: dnas[i],
                    message: outcomes[i]->Some_0,
                },
            ),
            None => Ok(()),
        }
    }
}

/// What enabling an application came to. `present` says whether the runtime
/// still knows the application afterwards; `errors` are the cells that did
/// not start. Of several such cells only the last is reported.
pub open spec fn enable_verdict(
    app_id: Seq<char>,
    present: bool,
    errors: Seq<ActivationErrorView>,
) -> Result<(), OrchestrationErrorView> {
    if !present {
        Err(OrchestrationErrorView::AppNotInstalled { app_id })
    } else if errors.len() > 0 {
        Err(
            OrchestrationErrorView::CellActivation {
                cell: errors.last().cell,
                message: errors.last().message,
            },
        )
    } else {
        Ok(())
    }
}

/// `first_rejection` finds the least index with a complaint, and none exactly
/// when every DNA was accepted.
pub proof fn lemma_first_rejection_is_earliest(outcomes: Seq<Option<Seq<char>>>)
    ensures
        match first_rejection(outcomes) {
            Some(i) => 0 <= i < outcomes.len() && outcomes[i] is Some && forall|j: int|
                0 <= j < i ==> (#[trigger] outcomes[j]) is None,
            None => forall|j: int| 0 <= j < outcomes.len() ==> (#[trigger] outcomes[j]) is None,
        },
    decreases outcomes.len(),
{
    if outcomes.len() > 0 {
        let front = outcomes.drop_last();
        lemma_first_rejection_is_earliest(front);
        assert forall|j: int| 0 <= j < front.len() implies front[j] == outcomes[j] by {}
    }
}

/// A rejection found among the first outcomes stays the earliest however many
/// outcomes follow.
pub proof fn lemma_first_rejection_of_prefix(outcomes: Seq<Option<Seq<char>>>, n: int)
    requires
        0 <= n <= outcomes.len(),
        first_rejection(outcomes.take(n)) is Some,
    ensures
        first_rejection(outcomes) == first_rejection(outcomes.take(n)),
    decreases outcomes.len() - n,
{
    if n < outcomes.len() {
        assert(outcomes.take(n + 1).drop_last() == outcomes.take(n));
        lemma_first_rejection_of_prefix(outcomes, n + 1);
    } else {
        assert(outcomes.take(n) == outcomes);
    }
}

/// Builds the request that installs a bundle's DNAs for `agent_key` under
/// `app_id`, as one unit.
pub fn install_app(
    agent_key: Identity,
    app_id: String,
    dnas: &Vec<DnaHash>,
    network_seed: Option<String>,
) -> (request: InstallRequest)
    ensures
        request@ == (InstallRequestView {
            app_id: app_id@,
            cells: pair_cells(dnas@, agent_key),
            network_seed: network_seed.deep_view(),
        }),
{
    let mut cells: Vec<CellId> = Vec::new();
    let mut i: usize = 0;
    while i < dnas.len()
        invariant
            i <= dnas.len(),
            cells@ == pair_cells(dnas@.take(i as int), agent_key),
        decreases dnas.len() - i,
    {
        cells.push(CellId { dna: dnas[i], agent: agent_key });
        i += 1;
    }
    proof {
        assert(dnas@.take(i as int) == dnas@);
    }
    InstallRequest { app_id, cells, network_seed }
}

/// Reads the outcomes of registering a bundle's DNAs, one outcome per DNA in
/// the bundle's order. One rejection fails the whole bundle.
pub fn check_registrations(dnas: &Vec<DnaHash>, outcomes: &Vec<Option<String>>) -> (verdict: Result<
    (),
    OrchestrationError,
>)
    ensures
        match verdict {
            Ok(()) => registration_verdict(dnas@, outcomes.deep_view()) is Ok,
            Err(error) => registration_verdict(dnas@, outcomes.deep_view()) == Err::<
                (),
                OrchestrationErrorView,
            >(error@),
        },
{
    if outcomes.len() != dnas.len() {
        return Err(OrchestrationError::UnexpectedEvent);
    }
    let ghost all = outcomes.deep_view();
    let mut i: usize = 0;
    while i < outcomes.len()
        invariant
            i <= outcomes.len(),
            outcomes.len() == dnas.len(),
            all == outcomes.deep_view(),
            first_rejection(all.take(i as int)) is None,
        decreases outcomes.len() - i,
    {
        proof {
            assert(all.take(i + 1).drop_last() == all.take(i as int));
            assert(all[i as int] == outcomes@[i as int].deep_view());
        }
        match &outcomes[i] {
            Some(message) => {
                proof {
                    lemma_first_rejection_of_prefix(all, i + 1);
                }
                return Err(
                    OrchestrationError::DnaRegistration { dna: dnas[i], message: message.clone() },
                );
            },
            None => {},
        }
        i += 1;
    }
    proof {
        assert(all.take(i as int) == all);
    }
    Ok(())
}

/// Reads the runtime's answer to enabling the application `app_id`.
pub fn enable_app(app_id: String, present: bool, errors: Vec<ActivationError>) -> (verdict: Result<
    (),
    OrchestrationError,
>)
    ensures
        match verdict {
            Ok(()) => enable_verdict(app_id@, present, activation_views(errors@)) is Ok,
            Err(error) => enable_verdict(app_id@, present, activation_views(errors@)) == Err::<
                (),
                OrchestrationErrorView,
            >(error@),
        },
{
    if !present {
        return Err(OrchestrationError::AppNotInstalled { app_id });
    }
    let mut errors = errors;
    match errors.pop() {
        Some(last) => Err(
            OrchestrationError::CellActivation { cell: last.cell, message: last.message },
        ),
        None => Ok(()),
    }
}

} // verus!
