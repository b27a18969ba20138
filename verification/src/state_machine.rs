//! Artifact lifecycle state machine.
//!
//! Draft → Complete → Valid → Approved → (upstream change) → Stale, and a
//! stale artifact is reworked from Draft. Every other move is refused, in
//! particular Draft → Approved, Draft → Valid, Complete → Approved and
//! Approved → Draft.

use vstd::prelude::*;
use crate::domain::ArtifactState;

verus! {

/// The lifecycle moves that the engine accepts.
pub open spec fn legal_transition(from: ArtifactState, to: ArtifactState) -> bool {
    match (from, to) {
        (ArtifactState::Draft, ArtifactState::Complete) => true,
        (ArtifactState::Complete, ArtifactState::Valid) => true,
        (ArtifactState::Valid, ArtifactState::Approved) => true,
        (ArtifactState::Approved, ArtifactState::Stale) => true,
        (ArtifactState::Stale, ArtifactState::Draft) => true,
        _ => false,
    }
}

/// The five states in their canonical order.
pub open spec fn states_in_order() -> Seq<ArtifactState> {
    seq![
        ArtifactState::Draft,
        ArtifactState::Complete,
        ArtifactState::Valid,
        ArtifactState::Approved,
        ArtifactState::Stale,
    ]
}

/// The states reachable from `from` in one legal move, in canonical order.
pub open spec fn legal_targets(from: ArtifactState) -> Seq<ArtifactState> {
    states_in_order().filter(|to: ArtifactState| legal_transition(from, to))
}

/// Whether the lifecycle allows moving an artifact from `from` to `to`.
pub fn is_legal_transition(from: ArtifactState, to: ArtifactState) -> (legal: bool)
    ensures
        legal == legal_transition(from, to),
{
    match (from, to) {
        (ArtifactState::Draft, ArtifactState::Complete) => true,
        (ArtifactState::Complete, ArtifactState::Valid) => true,
        (ArtifactState::Valid, ArtifactState::Approved) => true,
        (ArtifactState::Approved, ArtifactState::Stale) => true,
        (ArtifactState::Stale, ArtifactState::Draft) => true,
        _ => false,
    }
}

/// The handbook's forbidden moves are never legal.
pub proof fn forbidden_transitions_are_refused()
    ensures
        !legal_transition(ArtifactState::Draft, ArtifactState::Approved),
        !legal_transition(ArtifactState::Draft, ArtifactState::Valid),
        !legal_transition(ArtifactState::Complete, ArtifactState::Approved),
        !legal_transition(ArtifactState::Approved, ArtifactState::Draft),
{
}

/// Approval is reached only from Valid: an artifact cannot skip
/// completion or validation on its way to Approved.
pub proof fn approval_requires_validation(from: ArtifactState)
    ensures
        legal_transition(from, ArtifactState::Approved) <==> from == ArtifactState::Valid,
{
}

/// Staleness is reached only from Approved: only an approval can be
/// invalidated by an upstream change.
pub proof fn staleness_follows_approval(from: ArtifactState)
    ensures
        legal_transition(from, ArtifactState::Stale) <==> from == ArtifactState::Approved,
{
}

/// No move leaves an artifact where it was.
pub proof fn no_transition_is_a_self_loop(s: ArtifactState)
    ensures
        !legal_transition(s, s),
{
}


/// Each step of `path` is a legal move.
pub open spec fn is_lifecycle_path(path: Seq<ArtifactState>) -> bool {
    forall|i: int| 0 <= i < path.len() - 1 ==> legal_transition(#[trigger] path[i], path[i + 1])
}

/// No artifact reaches Approved from Draft without passing through Complete
/// and then Valid: completion and validation come before approval.
pub proof fn approval_passes_through_completion_and_validation(path: Seq<ArtifactState>)
    requires
        is_lifecycle_path(path),
        path.len() > 0,
        path[0] == ArtifactState::Draft,
        path.last() == ArtifactState::Approved,
    ensures
        path.len() >= 4,
        path[path.len() - 2] == ArtifactState::Valid,
        path[path.len() - 3] == ArtifactState::Complete,
{
    let n = path.len() as int;
    assert(legal_transition(path[n - 2], path[n - 1]));
    assert(path[n - 2] == ArtifactState::Valid);
    assert(legal_transition(path[n - 3], path[n - 2]));
    assert(path[n - 3] == ArtifactState::Complete);
    assert(n - 3 != 0);
}

} // verus!
