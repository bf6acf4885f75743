//! The application's network interface: bound once, then reused.

use vstd::prelude::*;

verus! {

/// How the application gets the port it is served on.
#[derive(Clone, Copy, Debug, PartialEq, Eq, Structural)]
pub enum PortPlan {
    /// An interface is already bound on this port: use it as it is.
    Reuse(u16),
    /// No interface is bound: ask for one on this port, where 0 leaves the
    /// choice to the system.
    Bind(u16),
}

/// The plan for an application with the interfaces `existing`, when the host
/// was configured with the port `requested`.
pub open spec fn port_plan(existing: Seq<u16>, requested: u16) -> PortPlan {
    if existing.len() > 0 {
        PortPlan::Reuse(existing[0])
    } else {
        PortPlan::Bind(requested)
    }
}

/// Reuses the first interface the application already has, whatever port was
/// requested for this run; only an application without any gets a new one.
pub fn allocate_or_reuse(existing: &Vec<u16>, requested_port: u16) -> (plan: PortPlan)
    ensures
        plan == port_plan(existing@, requested_port),
{
    if existing.len() > 0 {
        PortPlan::Reuse(existing[0])
    } else {
        PortPlan::Bind(requested_port)
    }
}

} // verus!
