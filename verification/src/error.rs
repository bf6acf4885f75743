//! What can end an orchestration pass early.

use crate::install::{CellId, DnaHash};
use vstd::prelude::*;

verus! {

/// A failure of the orchestration pass. None of them is retried: each one
/// ends the pass, and the host ends the process.
#[derive(Clone, Debug, PartialEq, Eq)]
pub enum OrchestrationError {
    /// The runtime could not answer a query about its own state.
    Runtime { message: String },
    /// The keystore could not be reached or refused the request.
    Keystore { message: String },
    /// The application bundle is malformed.
    BundleDecode { message: String },
    /// The backend rejected one of the bundle's DNAs.
    DnaRegistration { dna: DnaHash, message: String },
    /// The application could not be installed under its identifier.
    Install { message: String },
    /// The application was gone right after it had been enabled.
    AppNotInstalled { app_id: String },
    /// A cell failed to start; of several such failures this is the last.
    CellActivation { cell: CellId, message: String },
    /// No interface could be bound on the requested port.
    Interface { message: String },
    /// The host answered a request with the answer to another one.
    UnexpectedEvent,
}

/// The mathematical value of an [`OrchestrationError`].
pub enum OrchestrationErrorView {
    Runtime { message: Seq<char> },
    Keystore { message: Seq<char> },
    BundleDecode { message: Seq<char> },
    DnaRegistration { dna: DnaHash, message: Seq<char> },
    Install { message: Seq<char> },
    AppNotInstalled { app_id: Seq<char> },
    CellActivation { cell: CellId, message: Seq<char> },
    Interface { message: Seq<char> },
    UnexpectedEvent,
}

impl View for OrchestrationError {
    type V = OrchestrationErrorView;

    open spec fn view(&self) -> OrchestrationErrorView {
        match self {
            OrchestrationError::Runtime { message } => OrchestrationErrorView::Runtime {
                message: message@,
            },
            OrchestrationError::Keystore { message } => OrchestrationErrorView::Keystore {
                message: message@,
            },
            OrchestrationError::BundleDecode { message } => OrchestrationErrorView::BundleDecode {
                message: message@,
            },
            OrchestrationError::DnaRegistration { dna, message } => {
                OrchestrationErrorView::DnaRegistration { dna: *dna, message: message@ }
            },
            OrchestrationError::Install { message } => OrchestrationErrorView::Install {
                message: message@,
            },
            OrchestrationError::AppNotInstalled { app_id } => {
                OrchestrationErrorView::AppNotInstalled { app_id: app_id@ }
            },
            OrchestrationError::CellActivation { cell, message } => {
                OrchestrationErrorView::CellActivation { cell: *cell, message: message@ }
            },
            OrchestrationError::Interface { message } => OrchestrationErrorView::Interface {
                message: message@,
            },
            OrchestrationError::UnexpectedEvent => OrchestrationErrorView::UnexpectedEvent,
        }
    }
}

} // verus!
