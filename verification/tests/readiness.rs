use readiness_gate::gate::AssetHandle;
use readiness_gate::gate::ReadinessGate;
use readiness_gate::status::LoadState;
use readiness_gate::status::aggregate_status;

#[test]
fn empty_set_polls_loaded() {
    let gate = ReadinessGate::new();
    let statuses: Vec<LoadState> = vec![];
    assert_eq!(gate.poll(&statuses), LoadState::Loaded);
}

#[test]
fn any_failed_dominates() {
    let mut gate = ReadinessGate::new();
    gate.register(AssetHandle { id: 1 });
    gate.register(AssetHandle { id: 2 });
    assert_eq!(gate.poll(&vec![LoadState::Failed, LoadState::Loaded]), LoadState::Failed);
    assert_eq!(gate.poll(&vec![LoadState::Pending, LoadState::Failed]), LoadState::Failed);
    assert_eq!(gate.poll(&vec![LoadState::Failed, LoadState::Failed]), LoadState::Failed);
}

#[test]
fn all_loaded_polls_loaded() {
    let mut gate = ReadinessGate::new();
    gate.register(AssetHandle { id: 10 });
    gate.register(AssetHandle { id: 11 });
    gate.register(AssetHandle { id: 12 });
    let statuses = vec![LoadState::Loaded, LoadState::Loaded, LoadState::Loaded];
    assert_eq!(gate.poll(&statuses), LoadState::Loaded);
}

#[test]
fn pending_when_no_failure_and_not_all_loaded() {
    let mut gate = ReadinessGate::new();
    gate.register(AssetHandle { id: 1 });
    gate.register(AssetHandle { id: 2 });
    assert_eq!(gate.poll(&vec![LoadState::Pending, LoadState::Loaded]), LoadState::Pending);
    assert_eq!(gate.poll(&vec![LoadState::Pending, LoadState::Pending]), LoadState::Pending);
}

#[test]
fn aggregate_status_exact_values() {
    assert_eq!(aggregate_status(&vec![]), LoadState::Loaded);
    assert_eq!(aggregate_status(&vec![LoadState::Pending]), LoadState::Pending);
    assert_eq!(aggregate_status(&vec![LoadState::Failed]), LoadState::Failed);
    assert_eq!(aggregate_status(&vec![LoadState::Loaded]), LoadState::Loaded);
    assert_eq!(
        aggregate_status(&vec![LoadState::Loaded, LoadState::Pending, LoadState::Failed]),
        LoadState::Failed
    );
}

#[test]
fn registration_is_recorded_in_order() {
    let mut gate = ReadinessGate::new();
    assert_eq!(gate.len(), 0);
    let a = AssetHandle { id: 3 };
    let b = AssetHandle { id: 4 };
    assert!(!gate.contains(a));
    gate.register(a);
    assert!(gate.contains(a));
    assert!(!gate.contains(b));
    gate.register(b);
    assert_eq!(gate.len(), 2);
    assert_eq!(gate.handle_at(0), a);
    assert_eq!(gate.handle_at(1), b);
}
