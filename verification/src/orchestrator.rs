//! The hide orchestrator: a state machine that sequences architecture
//! resolution, injector dispatch, the peer wait, the parameter write and the
//! final verification into one operation, failing straight to its terminal
//! state on the first error.
//!
//! Each non-terminal state names the one piece of outside work that is
//! pending; the driver performs it and hands the outcome back as an event.
//! The driver therefore opens a process only in `ResolvingArchitecture`,
//! waits on the channel only in `AwaitingPeer`, and so on: the lemmas below
//! turn that reading into proved statements about which states a run can
//! visit.

use vstd::prelude::*;
use crate::arch::ArchitectureInfo;
use crate::arch::spec_arch_supported;
use crate::arch::mavinject_path_from_arch;
use crate::arch::dll_name_from_arch;

verus! {

/// States of one hide attempt. Every failure short-circuits to
/// `Verified { hidden: false }`; the success path walks the states in order.
#[derive(Clone, Copy, PartialEq, Eq, Structural, Debug)]
pub enum HideState {
    /// Nothing checked yet; the stored target handle is about to be read.
    Idle,
    /// The target is valid; its owning process is being opened and queried.
    ResolvingArchitecture,
    /// Injector and module are chosen; module path resolution, channel
    /// creation and the guarded injector launch are in progress.
    Dispatching,
    /// The injector reported success; polling for the injected code to
    /// connect to the channel.
    AwaitingPeer,
    /// The peer connected; the one parameter record is being written.
    WritingParams,
    /// The record is written; the channel settles, then the window's
    /// capture-affinity flag is re-queried.
    Settling,
    /// Terminal: the outcome of the attempt.
    Verified { hidden: bool },
}

/// Outcomes of the outside work, one event per non-terminal state.
#[derive(Clone, Copy, PartialEq, Eq, Structural, Debug)]
pub enum HideEvent {
    /// The stored target handle was read; `is_null` when no window is
    /// targeted or the handle is the null handle.
    TargetChecked { is_null: bool },
    /// The process open and architecture query finished; nothing on failure.
    ArchitectureResolved { arch: Option<ArchitectureInfo> },
    /// Module path resolution, channel creation and the injector launch
    /// finished; `launched` only when the injector reported success.
    DispatchCompleted { launched: bool },
    /// The bounded peer wait finished.
    PeerWaitCompleted { connected: bool },
    /// The parameter-record write finished; a short or failed write is not
    /// `ok`.
    WriteCompleted { ok: bool },
    /// The settle delay elapsed and the capture-affinity flag was
    /// re-queried; `excluded` is that flag's final reading.
    SettleVerified { excluded: bool },
}

/// The transition relation. A terminal state absorbs every event; an event
/// that does not answer the pending state fails the attempt.
pub open spec fn spec_step(s: HideState, e: HideEvent) -> HideState {
    match (s, e) {
        (HideState::Idle, HideEvent::TargetChecked { is_null }) => {
            if is_null {
                HideState::Verified { hidden: false }
            } else {
                HideState::ResolvingArchitecture
            }
        },
        (HideState::ResolvingArchitecture, HideEvent::ArchitectureResolved { arch }) => {
            match arch {
                Some(a) => {
                    if spec_arch_supported(a) {
                        HideState::Dispatching
                    } else {
                        HideState::Verified { hidden: false }
                    }
                },
                None => HideState::Verified { hidden: false },
            }
        },
        (HideState::Dispatching, HideEvent::DispatchCompleted { launched }) => {
            if launched {
                HideState::AwaitingPeer
            } else {
                HideState::Verified { hidden: false }
            }
        },
        (HideState::AwaitingPeer, HideEvent::PeerWaitCompleted { connected }) => {
            if connected {
                HideState::WritingParams
            } else {
                HideState::Verified { hidden: false }
            }
        },
        (HideState::WritingParams, HideEvent::WriteCompleted { ok }) => {
            if ok {
                HideState::Settling
            } else {
                HideState::Verified { hidden: false }
            }
        },
        (HideState::Settling, HideEvent::SettleVerified { excluded }) => {
            HideState::Verified { hidden: excluded }
        },
        (HideState::Verified { hidden }, _) => HideState::Verified { hidden },
        _ => HideState::Verified { hidden: false },
    }
}

/// One transition of the orchestrator.
pub fn step(s: HideState, e: HideEvent) -> (r: HideState)
    ensures
        r == spec_step(s, e),
{
    match (s, e) {
        (HideState::Idle, HideEvent::TargetChecked { is_null }) => {
            if is_null {
                HideState::Verified { hidden: false }
            } else {
                HideState::ResolvingArchitecture
            }
        },
        (HideState::ResolvingArchitecture, HideEvent::ArchitectureResolved { arch }) => {
            match arch {
                Some(a) => {
                    let injector = mavinject_path_from_arch(a);
                    let module = dll_name_from_arch(a);
                    match (injector, module) {
                        (Some(_), Some(_)) => HideState::Dispatching,
                        _ => HideState::Verified { hidden: false },
                    }
                },
                None => HideState::Verified { hidden: false },
            }
        },
        (HideState::Dispatching, HideEvent::DispatchCompleted { launched }) => {
            if launched {
                HideState::AwaitingPeer
            } else {
                HideState::Verified { hidden: false }
            }
        },
        (HideState::AwaitingPeer, HideEvent::PeerWaitCompleted { connected }) => {
            if connected {
                HideState::WritingParams
            } else {
                HideState::Verified { hidden: false }
            }
        },
        (HideState::WritingParams, HideEvent::WriteCompleted { ok }) => {
            if ok {
                HideState::Settling
            } else {
                HideState::Verified { hidden: false }
            }
        },
        (HideState::Settling, HideEvent::SettleVerified { excluded }) => {
            HideState::Verified { hidden: excluded }
        },
        (HideState::Verified { hidden }, _) => HideState::Verified { hidden },
        _ => HideState::Verified { hidden: false },
    }
}

/// A run of the orchestrator: the state after folding the events, in order,
/// over the initial state.
pub open spec fn spec_run(events: Seq<HideEvent>) -> HideState
    decreases events.len(),
{
    if events.len() == 0 {
        HideState::Idle
    } else {
        spec_step(spec_run(events.drop_last()), events.last())
    }
}

/// Drive one hide attempt over the recorded outcomes of its outside work.
pub fn run_hide_flow(events: &Vec<HideEvent>) -> (r: HideState)
    ensures
        r == spec_run(events@),
{
    let mut state = HideState::Idle;
    let mut i: usize = 0;
    while i < events.len()
        invariant
            0 <= i <= events@.len(),
            state == spec_run(events@.take(i as int)),
        decreases events@.len() - i,
    {
        proof {
            assert(events@.take(i + 1).drop_last() =~= events@.take(i as int));
            assert(events@.take(i + 1).last() == events@[i as int]);
        }
        state = step(state, events[i]);
        i = i + 1;
    }
    proof {
        assert(events@.take(events@.len() as int) =~= events@);
    }
    state
}

/// An event reports a failure of the outside work it answers for.
pub open spec fn spec_event_fails(e: HideEvent) -> bool {
    match e {
        HideEvent::TargetChecked { is_null } => is_null,
        HideEvent::ArchitectureResolved { arch } => match arch {
            Some(a) => !spec_arch_supported(a),
            None => true,
        },
        HideEvent::DispatchCompleted { launched } => !launched,
        HideEvent::PeerWaitCompleted { connected } => !connected,
        HideEvent::WriteCompleted { ok } => !ok,
        HideEvent::SettleVerified { .. } => false,
    }
}

/// Any failure at any state short-circuits directly to the failed terminal
/// state, with no later state attempted.
pub proof fn lemma_failure_short_circuits(s: HideState, e: HideEvent)
    requires
        !(s is Verified),
        spec_event_fails(e),
    ensures
        spec_step(s, e) == (HideState::Verified { hidden: false }),
{
}

/// The terminal state absorbs every further event.
pub proof fn lemma_verified_is_terminal(s: HideState, e: HideEvent)
    requires
        s is Verified,
    ensures
        spec_step(s, e) == s,
{
}

/// Each working state is entered from its predecessor alone, on the one
/// successful event that answers it: the orchestrator resolves architecture
/// only for a non-null target, and waits on the channel only after the
/// injector reported success.
pub proof fn lemma_entry_conditions(s: HideState, e: HideEvent)
    ensures
        spec_step(s, e) is ResolvingArchitecture ==> s is Idle
            && e == (HideEvent::TargetChecked { is_null: false }),
        spec_step(s, e) is Dispatching ==> s is ResolvingArchitecture
            && (e matches HideEvent::ArchitectureResolved { arch: Some(a) }
                && spec_arch_supported(a)),
        spec_step(s, e) is AwaitingPeer ==> s is Dispatching
            && e == (HideEvent::DispatchCompleted { launched: true }),
        spec_step(s, e) is WritingParams ==> s is AwaitingPeer
            && e == (HideEvent::PeerWaitCompleted { connected: true }),
        spec_step(s, e) is Settling ==> s is WritingParams
            && e == (HideEvent::WriteCompleted { ok: true }),
{
}

/// Once a run's prefix reaches the terminal state, every longer prefix of
/// the run stays there.
pub proof fn lemma_run_stays_verified(events: Seq<HideEvent>, k: int, m: int)
    requires
        0 <= k <= m <= events.len(),
        spec_run(events.take(k)) is Verified,
    ensures
        spec_run(events.take(m)) == spec_run(events.take(k)),
    decreases m - k,
{
    if m == k {
    } else {
        assert(events.take(k + 1).drop_last() =~= events.take(k));
        assert(events.take(k + 1).last() == events[k]);
        lemma_run_stays_verified(events, k + 1, m);
    }
}

/// A run on a null or invalid target handle is failed from its very first
/// event on: no prefix of it ever reaches `ResolvingArchitecture`, so no
/// process is ever opened for it.
pub proof fn lemma_null_target_short_circuits(events: Seq<HideEvent>, m: int)
    requires
        events.len() >= 1,
        events[0] == (HideEvent::TargetChecked { is_null: true }),
        1 <= m <= events.len(),
    ensures
        spec_run(events.take(m)) == (HideState::Verified { hidden: false }),
{
    assert(events.take(1).drop_last() =~= Seq::<HideEvent>::empty());
    assert(events.take(1).last() == events[0]);
    assert(spec_run(Seq::<HideEvent>::empty()) == HideState::Idle);
    assert(spec_run(events.take(1)) == (HideState::Verified { hidden: false }));
    lemma_run_stays_verified(events, 1, m);
}

/// A failed injector launch fails the attempt at once: every longer prefix
/// of the run is already terminal, so the channel wait is never entered.
pub proof fn lemma_failed_dispatch_short_circuits(events: Seq<HideEvent>, k: int, m: int)
    requires
        0 <= k < events.len(),
        spec_run(events.take(k)) is Dispatching,
        events[k] == (HideEvent::DispatchCompleted { launched: false }),
        k < m <= events.len(),
    ensures
        spec_run(events.take(m)) == (HideState::Verified { hidden: false }),
{
    assert(events.take(k + 1).drop_last() =~= events.take(k));
    assert(events.take(k + 1).last() == events[k]);
    assert(spec_run(events.take(k + 1)) == (HideState::Verified { hidden: false }));
    lemma_run_stays_verified(events, k + 1, m);
}

} // verus!
