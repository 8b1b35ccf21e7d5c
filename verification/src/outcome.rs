//! Per-item outcomes and the pass-level verdict.  A pass reports failure
//! when any item failed, yet every item is still processed; creation is
//! not transactional, so a created scenario whose trigger failed stays
//! created and is only reported.

use vstd::prelude::*;
use crate::reconciler::ItemPlan;

verus! {

/// How executing one creation plan went: the scenario call failed, or it
/// succeeded and the trigger call failed, or both objects were created.
/// There is no compensating action: a scenario created before a trigger
/// failure is left in place.
#[derive(Clone, Copy, Debug, PartialEq, Eq, Structural)]
pub enum CreationOutcome {
    ScenarioFailed,
    TriggerFailed,
    AllCreated,
}

/// The outcome recorded for one item of a pass.
#[derive(Clone, Copy, Debug, PartialEq, Eq, Structural)]
pub enum ItemOutcome {
    /// The derived scenario already existed; nothing was done.
    Skipped,
    /// Scenario and trigger were both created.
    Created,
    /// The item's key does not follow the naming convention.
    UnsupportedFormat,
    /// The item's host id is absent from the host snapshot.
    HostNotFound,
    /// The scenario creation call failed; the trigger was not attempted.
    ScenarioCreationFailed,
    /// The scenario was created but the trigger creation call failed.
    TriggerCreationFailed,
}

/// The outcome owed to an item whose plan needs no creation call.
pub open spec fn plan_outcome_spec(plan: ItemPlan) -> Option<ItemOutcome> {
    match plan {
        ItemPlan::UnsupportedFormat => Some(ItemOutcome::UnsupportedFormat),
        ItemPlan::AlreadyPresent => Some(ItemOutcome::Skipped),
        ItemPlan::HostNotFound => Some(ItemOutcome::HostNotFound),
        ItemPlan::Create { .. } => None,
    }
}

/// Settles an item whose plan needs no creation call; a creation plan is
/// handed back for execution.
pub fn plan_outcome(plan: &ItemPlan) -> (r: Option<ItemOutcome>)
    ensures
        r == plan_outcome_spec(*plan),
{
    match plan {
        ItemPlan::UnsupportedFormat => Some(ItemOutcome::UnsupportedFormat),
        ItemPlan::AlreadyPresent => Some(ItemOutcome::Skipped),
        ItemPlan::HostNotFound => Some(ItemOutcome::HostNotFound),
        ItemPlan::Create { .. } => None,
    }
}

/// The outcome owed to an executed creation plan.
pub open spec fn creation_outcome_spec(c: CreationOutcome) -> ItemOutcome {
    match c {
        CreationOutcome::ScenarioFailed => ItemOutcome::ScenarioCreationFailed,
        CreationOutcome::TriggerFailed => ItemOutcome::TriggerCreationFailed,
        CreationOutcome::AllCreated => ItemOutcome::Created,
    }
}

/// Records how executing a creation plan went.
pub fn creation_outcome(c: &CreationOutcome) -> (r: ItemOutcome)
    ensures
        r == creation_outcome_spec(*c),
{
    match c {
        CreationOutcome::ScenarioFailed => ItemOutcome::ScenarioCreationFailed,
        CreationOutcome::TriggerFailed => ItemOutcome::TriggerCreationFailed,
        CreationOutcome::AllCreated => ItemOutcome::Created,
    }
}

/// Whether an outcome counts as an item-level error.
pub open spec fn outcome_is_error_spec(o: ItemOutcome) -> bool {
    !(o is Skipped || o is Created)
}

/// Tells an item-level error from a successful or skipped item.
pub fn outcome_is_error(o: &ItemOutcome) -> (r: bool)
    ensures
        r == outcome_is_error_spec(*o),
{
    match o {
        ItemOutcome::Skipped => false,
        ItemOutcome::Created => false,
        _ => true,
    }
}

/// Whether a whole pass succeeded: no item produced an error.
pub open spec fn all_ok(outcomes: Seq<ItemOutcome>) -> bool {
    forall|i: int| 0 <= i < outcomes.len() ==> !outcome_is_error_spec(outcomes[i])
}

/// Reduces the ordered per-item outcomes of a pass to its success flag:
/// true exactly when no item produced an error.
pub fn aggregate_outcomes(outcomes: &Vec<ItemOutcome>) -> (r: bool)
    ensures
        r == all_ok(outcomes@),
{
    let mut i: usize = 0;
    while i < outcomes.len()
        invariant
            0 <= i <= outcomes@.len(),
            forall|j: int| 0 <= j < i ==> !outcome_is_error_spec(outcomes@[j]),
        decreases outcomes@.len() - i,
    {
        if outcome_is_error(&outcomes[i]) {
            return false;
        }
        i += 1;
    }
    true
}

/// Why a whole run failed: a fatal stage, or at least one item error.
#[derive(Clone, Copy, Debug, PartialEq, Eq, Structural)]
pub enum RunError {
    /// The authentication handshake failed; nothing was fetched.
    AuthFailed,
    /// One of the three snapshot fetches failed; nothing was reconciled.
    FetchFailed,
    /// The pass ran to the end but at least one item produced an error.
    ItemErrors,
}

/// The process-level verdict of a run: authentication and the snapshot
/// fetch are fatal stages tried in that order; once both succeeded, the
/// run fails exactly when some item failed.
pub fn run_verdict(auth_ok: bool, fetch_ok: bool, items_ok: bool) -> (r: Result<(), RunError>)
    ensures
        !auth_ok ==> r == Err::<(), RunError>(RunError::AuthFailed),
        auth_ok && !fetch_ok ==> r == Err::<(), RunError>(RunError::FetchFailed),
        auth_ok && fetch_ok && !items_ok ==> r == Err::<(), RunError>(RunError::ItemErrors),
        auth_ok && fetch_ok && items_ok ==> r == Ok::<(), RunError>(()),
{
    if !auth_ok {
        Err(RunError::AuthFailed)
    } else if !fetch_ok {
        Err(RunError::FetchFailed)
    } else if !items_ok {
        Err(RunError::ItemErrors)
    } else {
        Ok(())
    }
}

/// Partial success is accepted but reported: when a trigger creation
/// fails after its scenario was created, the recorded outcome is an
/// item-level error, so the pass as a whole reports failure; no outcome
/// undoes the created scenario.
pub proof fn lemma_partial_success_reported(outcomes: Seq<ItemOutcome>, i: int)
    requires
        0 <= i < outcomes.len(),
        outcomes[i] == creation_outcome_spec(CreationOutcome::TriggerFailed),
    ensures
        outcomes[i] is TriggerCreationFailed,
        outcome_is_error_spec(outcomes[i]),
        !all_ok(outcomes),
{
}

} // verus!
