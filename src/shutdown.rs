//! The order in which the pipeline is brought down.
//!
//! The producer stops issuing copies first; a frame still waiting in the slot is
//! handed back to its pool; an outstanding copy is waited on; then the importer
//! and last the exporter release the shared memory. Neither side is destroyed
//! while a copy is outstanding.
use vstd::prelude::*;

verus! {

/// What is still running or held when shutdown begins or while it proceeds.
#[derive(Debug, Clone, Copy, PartialEq, Eq, Structural)]
pub struct ShutdownState {
    pub producer_running: bool,
    /// A frame sits in the slot, delivered but not copied.
    pub pending_frame: bool,
    /// A copy into the bridge was submitted and not yet waited on.
    pub submission_outstanding: bool,
    pub importer_alive: bool,
    pub exporter_alive: bool,
}

#[derive(Debug, Clone, Copy, PartialEq, Eq, Structural)]
pub enum ShutdownAction {
    StopProducer,
    ReleasePendingFrame,
    WaitForSubmission,
    DestroyImporter,
    DestroyExporter,
}

/// Nothing runs and nothing is held.
pub open spec fn is_quiescent(s: ShutdownState) -> bool {
    !s.producer_running && !s.pending_frame && !s.submission_outstanding && !s.importer_alive
        && !s.exporter_alive
}

/// The state after performing `a`.
pub open spec fn after(s: ShutdownState, a: ShutdownAction) -> ShutdownState {
    match a {
        ShutdownAction::StopProducer => ShutdownState { producer_running: false, ..s },
        ShutdownAction::ReleasePendingFrame => ShutdownState { pending_frame: false, ..s },
        ShutdownAction::WaitForSubmission => ShutdownState { submission_outstanding: false, ..s },
        ShutdownAction::DestroyImporter => ShutdownState { importer_alive: false, ..s },
        ShutdownAction::DestroyExporter => ShutdownState { exporter_alive: false, ..s },
    }
}

/// The state after performing the actions of `plan` in order.
pub open spec fn after_all(s: ShutdownState, plan: Seq<ShutdownAction>) -> ShutdownState
    decreases plan.len(),
{
    if plan.len() == 0 {
        s
    } else {
        after_all(after(s, plan[0]), plan.drop_first())
    }
}

/// An action is safe in a state when it does not destroy a side of the bridge
/// while a copy is outstanding, nor the exporter while the importer lives, nor
/// anything while the producer may still issue copies.
pub open spec fn safe_in(s: ShutdownState, a: ShutdownAction) -> bool {
    match a {
        ShutdownAction::DestroyImporter => !s.producer_running && !s.submission_outstanding,
        ShutdownAction::DestroyExporter => !s.producer_running && !s.submission_outstanding
            && !s.importer_alive,
        _ => true,
    }
}

/// Every action of `plan` is safe in the state reached just before it.
pub open spec fn plan_safe(s: ShutdownState, plan: Seq<ShutdownAction>) -> bool
    decreases plan.len(),
{
    plan.len() == 0 || (safe_in(s, plan[0]) && plan_safe(after(s, plan[0]), plan.drop_first()))
}

/// The next action of an orderly shutdown, or `None` once nothing is left.
pub fn next_shutdown_action(s: ShutdownState) -> (r: Option<ShutdownAction>)
    ensures
        r is None <==> is_quiescent(s),
        r matches Some(a) ==> safe_in(s, a) && after(s, a) != s,
        s.producer_running ==> r == Some(ShutdownAction::StopProducer),
        !s.producer_running && s.pending_frame ==> r == Some(ShutdownAction::ReleasePendingFrame),
{
    if s.producer_running {
        Some(ShutdownAction::StopProducer)
    } else if s.pending_frame {
        Some(ShutdownAction::ReleasePendingFrame)
    } else if s.submission_outstanding {
        Some(ShutdownAction::WaitForSubmission)
    } else if s.importer_alive {
        Some(ShutdownAction::DestroyImporter)
    } else if s.exporter_alive {
        Some(ShutdownAction::DestroyExporter)
    } else {
        None
    }
}

pub open spec fn held_count(s: ShutdownState) -> nat {
    (if s.producer_running { 1nat } else { 0nat }) + (if s.pending_frame { 1nat } else { 0nat })
        + (if s.submission_outstanding { 1nat } else { 0nat }) + (if s.importer_alive { 1nat } else { 0nat })
        + (if s.exporter_alive { 1nat } else { 0nat })
}

proof fn lemma_after_all_push(s: ShutdownState, plan: Seq<ShutdownAction>, a: ShutdownAction)
    ensures
        after_all(s, plan.push(a)) == after(after_all(s, plan), a),
        plan_safe(s, plan.push(a)) == (plan_safe(s, plan) && safe_in(after_all(s, plan), a)),
    decreases plan.len(),
{
    if plan.len() == 0 {
        let one = plan.push(a);
        assert(one.drop_first() =~= Seq::<ShutdownAction>::empty());
        assert(one[0] == a);
        assert(after_all(after(s, a), one.drop_first()) == after(s, a));
        assert(plan_safe(after(s, a), one.drop_first()));
    } else {
        let longer = plan.push(a);
        assert(longer.drop_first() =~= plan.drop_first().push(a));
        assert(longer[0] == plan[0]);
        lemma_after_all_push(after(s, plan[0]), plan.drop_first(), a);
    }
}

/// The whole shutdown from state `s`: the actions that `next_shutdown_action`
/// gives, performed one after the other until nothing is left.
pub fn shutdown_plan(s: ShutdownState) -> (plan: Vec<ShutdownAction>)
    ensures
        is_quiescent(after_all(s, plan@)),
        plan_safe(s, plan@),
        plan@.len() <= 5,
        s.pending_frame ==> plan@.contains(ShutdownAction::ReleasePendingFrame),
{
    let mut plan: Vec<ShutdownAction> = Vec::new();
    let mut cur = s;
    proof {
        assert(after_all(s, plan@) == s);
    }
    loop
        invariant
            cur == after_all(s, plan@),
            plan_safe(s, plan@),
            plan@.len() + held_count(cur) == held_count(s),
            s.pending_frame && !cur.pending_frame ==> plan@.contains(ShutdownAction::ReleasePendingFrame),
            cur.pending_frame ==> s.pending_frame,
        decreases held_count(cur),
    {
        match next_shutdown_action(cur) {
            None => {
                return plan;
            },
            Some(a) => {
                proof {
                    lemma_after_all_push(s, plan@, a);
                }
                let ghost old_plan = plan@;
                plan.push(a);
                cur = match a {
                    ShutdownAction::StopProducer => ShutdownState { producer_running: false, ..cur },
                    ShutdownAction::ReleasePendingFrame => ShutdownState { pending_frame: false, ..cur },
                    ShutdownAction::WaitForSubmission => ShutdownState { submission_outstanding: false, ..cur },
                    ShutdownAction::DestroyImporter => ShutdownState { importer_alive: false, ..cur },
                    ShutdownAction::DestroyExporter => ShutdownState { exporter_alive: false, ..cur },
                };
                proof {
                    assert(plan@.last() == a);
                    if s.pending_frame && old_plan.contains(ShutdownAction::ReleasePendingFrame) {
                        let k = choose|k: int| 0 <= k < old_plan.len() && old_plan[k] == ShutdownAction::ReleasePendingFrame;
                        assert(plan@[k] == ShutdownAction::ReleasePendingFrame);
                    }
                    if s.pending_frame && a == ShutdownAction::ReleasePendingFrame {
                        assert(plan@[plan@.len() - 1] == ShutdownAction::ReleasePendingFrame);
                    }
                }
            },
        }
    }
}

} // verus!
