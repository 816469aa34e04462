//! A ship's navigation status and what a dock command does to it.

use vstd::prelude::*;

verus! {

/// Where a ship is, as the game service reports it.
#[derive(Debug, PartialEq, Eq, Structural, Clone, Copy)]
pub enum NavStatus {
    InTransit,
    InOrbit,
    Docked,
}

/// The status after a dock command: a ship in orbit docks, a docked ship
/// stays docked, a ship in transit cannot dock and keeps travelling.
pub open spec fn docked_status(s: NavStatus) -> NavStatus {
    match s {
        NavStatus::InTransit => NavStatus::InTransit,
        _ => NavStatus::Docked,
    }
}

impl NavStatus {
    /// The status after a dock command.
    pub fn dock(self) -> (r: NavStatus)
        ensures
            r == docked_status(self),
    {
        match self {
            NavStatus::InTransit => NavStatus::InTransit,
            _ => NavStatus::Docked,
        }
    }
}

/// Docking is idempotent: a docked ship is left as it is, and docking twice
/// ends where docking once does.
pub proof fn lemma_dock_idempotent(s: NavStatus)
    ensures
        docked_status(NavStatus::Docked) == NavStatus::Docked,
        docked_status(docked_status(s)) == docked_status(s),
{
}

} // verus!
