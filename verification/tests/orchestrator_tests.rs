use exclude_from_capture::arch::ArchitectureInfo;
use exclude_from_capture::arch::MACHINE_AMD64;
use exclude_from_capture::arch::MACHINE_UNKNOWN;
use exclude_from_capture::orchestrator::HideEvent;
use exclude_from_capture::orchestrator::HideState;
use exclude_from_capture::orchestrator::run_hide_flow;
use exclude_from_capture::orchestrator::step;

fn native_64() -> ArchitectureInfo {
    ArchitectureInfo { host: MACHINE_AMD64, process: MACHINE_UNKNOWN }
}

fn success_events(final_excluded: bool) -> Vec<HideEvent> {
    vec![
        HideEvent::TargetChecked { is_null: false },
        HideEvent::ArchitectureResolved { arch: Some(native_64()) },
        HideEvent::DispatchCompleted { launched: true },
        HideEvent::PeerWaitCompleted { connected: true },
        HideEvent::WriteCompleted { ok: true },
        HideEvent::SettleVerified { excluded: final_excluded },
    ]
}

#[test]
fn null_target_fails_before_architecture_resolution() {
    // The very first transition is terminal, so the driver never reaches
    // the state in which it would open a process.
    let s = step(HideState::Idle, HideEvent::TargetChecked { is_null: true });
    assert_eq!(s, HideState::Verified { hidden: false });
    let run = run_hide_flow(&vec![HideEvent::TargetChecked { is_null: true }]);
    assert_eq!(run, HideState::Verified { hidden: false });
}

#[test]
fn valid_target_moves_to_architecture_resolution() {
    let s = step(HideState::Idle, HideEvent::TargetChecked { is_null: false });
    assert_eq!(s, HideState::ResolvingArchitecture);
}

#[test]
fn unresolvable_architecture_fails_the_attempt() {
    let s = step(
        HideState::ResolvingArchitecture,
        HideEvent::ArchitectureResolved { arch: None },
    );
    assert_eq!(s, HideState::Verified { hidden: false });
}

#[test]
fn unsupported_architecture_fails_the_attempt() {
    let exotic = ArchitectureInfo { host: 0xAA64, process: MACHINE_UNKNOWN };
    let s = step(
        HideState::ResolvingArchitecture,
        HideEvent::ArchitectureResolved { arch: Some(exotic) },
    );
    assert_eq!(s, HideState::Verified { hidden: false });
}

#[test]
fn failed_launch_fails_without_a_channel_wait() {
    // The failed dispatch is terminal at once: the next state is not
    // AwaitingPeer, so the driver never polls the channel.
    let s = step(HideState::Dispatching, HideEvent::DispatchCompleted { launched: false });
    assert_eq!(s, HideState::Verified { hidden: false });
    let events = vec![
        HideEvent::TargetChecked { is_null: false },
        HideEvent::ArchitectureResolved { arch: Some(native_64()) },
        HideEvent::DispatchCompleted { launched: false },
    ];
    assert_eq!(run_hide_flow(&events), HideState::Verified { hidden: false });
}

#[test]
fn peer_never_connecting_fails_the_attempt() {
    let s = step(HideState::AwaitingPeer, HideEvent::PeerWaitCompleted { connected: false });
    assert_eq!(s, HideState::Verified { hidden: false });
}

#[test]
fn failed_write_fails_the_attempt() {
    let s = step(HideState::WritingParams, HideEvent::WriteCompleted { ok: false });
    assert_eq!(s, HideState::Verified { hidden: false });
}

#[test]
fn successful_flow_walks_every_state_and_verifies() {
    let mut s = HideState::Idle;
    let expected = [
        HideState::ResolvingArchitecture,
        HideState::Dispatching,
        HideState::AwaitingPeer,
        HideState::WritingParams,
        HideState::Settling,
        HideState::Verified { hidden: true },
    ];
    for (e, want) in success_events(true).into_iter().zip(expected) {
        s = step(s, e);
        assert_eq!(s, want);
    }
    assert_eq!(run_hide_flow(&success_events(true)), HideState::Verified { hidden: true });
}

#[test]
fn already_excluded_window_runs_the_full_flow_again() {
    // No short-circuit for an already-excluded target: the run still walks
    // every state, and the final re-query reports it still excluded.
    let mut s = HideState::Idle;
    let mut visited = Vec::new();
    for e in success_events(true) {
        s = step(s, e);
        visited.push(s);
    }
    assert_eq!(visited.len(), 6);
    assert!(visited.contains(&HideState::Dispatching));
    assert!(visited.contains(&HideState::AwaitingPeer));
    assert!(visited.contains(&HideState::WritingParams));
    assert!(visited.contains(&HideState::Settling));
    assert_eq!(s, HideState::Verified { hidden: true });
}

#[test]
fn settle_verification_reports_what_the_query_saw() {
    let s = step(HideState::Settling, HideEvent::SettleVerified { excluded: false });
    assert_eq!(s, HideState::Verified { hidden: false });
}

#[test]
fn terminal_state_absorbs_further_events() {
    let s = HideState::Verified { hidden: true };
    let after = step(s, HideEvent::TargetChecked { is_null: false });
    assert_eq!(after, HideState::Verified { hidden: true });
}

#[test]
fn out_of_protocol_event_fails_the_attempt() {
    let s = step(HideState::Idle, HideEvent::WriteCompleted { ok: true });
    assert_eq!(s, HideState::Verified { hidden: false });
}
