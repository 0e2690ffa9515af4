//! The strictly ordered call sequence of one invocation.
//!
//! Each invocation walks `Start -> MetadataCreated -> Minted ->
//! EditionCreated`, advancing one phase per successful call; any failed call
//! moves it to `Aborted`, which is terminal. The token is committed only in
//! `EditionCreated`, so it exists only when all three calls succeeded in
//! order; the host transaction discards every mutation otherwise.

use vstd::prelude::*;

verus! {

/// Where an invocation stands in its call sequence.
#[derive(Clone, Copy, Debug, PartialEq, Eq, Structural)]
pub enum Phase {
    /// No call issued yet.
    Start,
    /// The metadata record was created.
    MetadataCreated,
    /// The single unit was minted.
    Minted,
    /// The master edition was created; the invocation is committed.
    EditionCreated,
    /// A call failed; every prior mutation is discarded.
    Aborted,
}

/// The call to issue next in a phase, by position in the plan.
#[derive(Clone, Copy, Debug, PartialEq, Eq, Structural)]
pub enum Step {
    CreateMetadata,
    MintOne,
    CreateMasterEdition,
}

/// The transition the sequence makes in a phase once the pending call has
/// reported success or failure.
pub open spec fn spec_advance(p: Phase, call_succeeded: bool) -> Phase {
    match p {
        Phase::Start => if call_succeeded {
            Phase::MetadataCreated
        } else {
            Phase::Aborted
        },
        Phase::MetadataCreated => if call_succeeded {
            Phase::Minted
        } else {
            Phase::Aborted
        },
        Phase::Minted => if call_succeeded {
            Phase::EditionCreated
        } else {
            Phase::Aborted
        },
        Phase::EditionCreated => Phase::EditionCreated,
        Phase::Aborted => Phase::Aborted,
    }
}

/// Advance the sequence by the outcome of the pending call.
pub fn advance(p: Phase, call_succeeded: bool) -> (r: Phase)
    ensures
        r == spec_advance(p, call_succeeded),
{
    match p {
        Phase::Start => if call_succeeded {
            Phase::MetadataCreated
        } else {
            Phase::Aborted
        },
        Phase::MetadataCreated => if call_succeeded {
            Phase::Minted
        } else {
            Phase::Aborted
        },
        Phase::Minted => if call_succeeded {
            Phase::EditionCreated
        } else {
            Phase::Aborted
        },
        Phase::EditionCreated => Phase::EditionCreated,
        Phase::Aborted => Phase::Aborted,
    }
}

/// The call a phase still owes, if any: the calls come strictly in plan
/// order, and a committed or aborted invocation issues nothing further.
pub open spec fn spec_next_step(p: Phase) -> Option<Step> {
    match p {
        Phase::Start => Some(Step::CreateMetadata),
        Phase::MetadataCreated => Some(Step::MintOne),
        Phase::Minted => Some(Step::CreateMasterEdition),
        Phase::EditionCreated => None,
        Phase::Aborted => None,
    }
}

/// The call to issue in a phase, or nothing when the invocation has ended.
pub fn next_step(p: Phase) -> (r: Option<Step>)
    ensures
        r == spec_next_step(p),
{
    match p {
        Phase::Start => Some(Step::CreateMetadata),
        Phase::MetadataCreated => Some(Step::MintOne),
        Phase::Minted => Some(Step::CreateMasterEdition),
        Phase::EditionCreated => None,
        Phase::Aborted => None,
    }
}

/// The phase reached from `Start` after a sequence of call outcomes.
pub open spec fn run_outcomes(outcomes: Seq<bool>) -> Phase
    decreases outcomes.len(),
{
    if outcomes.len() == 0 {
        Phase::Start
    } else {
        spec_advance(run_outcomes(outcomes.drop_last()), outcomes.last())
    }
}

/// Law: which phase a sequence of call outcomes reaches. In particular the
/// invocation is committed exactly when its first three calls all
/// succeeded, and it is aborted exactly when one of the first three calls
/// failed.
pub proof fn lemma_run_outcomes_characterized(outcomes: Seq<bool>)
    ensures
        run_outcomes(outcomes) == Phase::Start <==> outcomes.len() == 0,
        run_outcomes(outcomes) == Phase::MetadataCreated <==> (outcomes.len() == 1 && outcomes[0]),
        run_outcomes(outcomes) == Phase::Minted <==> (outcomes.len() == 2 && outcomes[0]
            && outcomes[1]),
        run_outcomes(outcomes) == Phase::EditionCreated <==> (outcomes.len() >= 3 && outcomes[0]
            && outcomes[1] && outcomes[2]),
        run_outcomes(outcomes) == Phase::Aborted <==> (exists|i: int|
            0 <= i < outcomes.len() && i < 3 && !outcomes[i]),
    decreases outcomes.len(),
{
    if outcomes.len() > 0 {
        let prefix = outcomes.drop_last();
        lemma_run_outcomes_characterized(prefix);
        assert(forall|i: int| 0 <= i < prefix.len() ==> prefix[i] == outcomes[i]);
        if exists|i: int| 0 <= i < prefix.len() && i < 3 && !prefix[i] {
            let i = choose|i: int| 0 <= i < prefix.len() && i < 3 && !prefix[i];
            assert(0 <= i < outcomes.len() && i < 3 && !outcomes[i]);
        }
        if exists|i: int| 0 <= i < outcomes.len() && i < 3 && !outcomes[i] {
            let i = choose|i: int| 0 <= i < outcomes.len() && i < 3 && !outcomes[i];
            if i < prefix.len() {
                assert(0 <= i < prefix.len() && i < 3 && !prefix[i]);
            }
        }
    }
}

/// Law: a failed call among the first three aborts the invocation, so it is
/// never committed and no token exists: every mutation of the sequence is
/// discarded with the transaction.
pub proof fn lemma_failed_call_aborts(outcomes: Seq<bool>, i: int)
    requires
        0 <= i < outcomes.len(),
        i < 3,
        !outcomes[i],
    ensures
        run_outcomes(outcomes) == Phase::Aborted,
        run_outcomes(outcomes) != Phase::EditionCreated,
{
    lemma_run_outcomes_characterized(outcomes);
}

} // verus!
