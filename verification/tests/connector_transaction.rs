use jay_compositor::backend::transaction::AppliedParts;
use jay_compositor::backend::transaction::ConnectorTransaction;
use jay_compositor::backend::BackendColorSpace;
use jay_compositor::backend::BackendConnectorState;
use jay_compositor::backend::BackendEotfs;
use jay_compositor::backend::Mode;

fn state(serial: u64, enabled: bool) -> BackendConnectorState {
    BackendConnectorState {
        serial,
        enabled,
        active: true,
        mode: Mode { width: 800, height: 600, refresh_rate_millihz: 60_000 },
        non_desktop_override: None,
        vrr: false,
        tearing: false,
        format: 0x34325258,
        color_space: BackendColorSpace::Default,
        eotf: BackendEotfs::Default,
        gamma_lut: None,
    }
}

#[test]
fn one_part_per_kind() {
    let mut t = ConnectorTransaction::new();
    assert_eq!(t.part_of(3), None);
    assert_eq!(t.add_part(3), 0);
    assert_eq!(t.add_part(9), 1);
    assert_eq!(t.part_of(3), Some(0));
    assert_eq!(t.part_of(9), Some(1));
    assert_eq!(t.part_of(4), None);
    t.record(1, state(5, true));
    t.record(2, state(6, false));
    t.record(1, state(7, false));
    assert_eq!(t.num_parts(), 2);
    let mut order = t.part_order();
    order.sort();
    assert_eq!(order, vec![0, 1]);
    // A later state for a connector replaces the earlier one.
    let mut states = t.take_states();
    states.sort_by_key(|s| s.0);
    assert_eq!(states.len(), 2);
    assert_eq!(states[0].0, 1);
    assert_eq!(states[0].1.serial, 7);
    assert!(!states[0].1.enabled);
    assert_eq!(states[1].0, 2);
    assert_eq!(states[1].1.serial, 6);
    assert!(t.take_states().is_empty());
}

#[test]
fn rollback_goes_backwards_and_commit_leaves_nothing() {
    let mut a = AppliedParts::new();
    a.push(0);
    a.push(2);
    a.push(1);
    let mut b = AppliedParts { applied: a.applied.clone() };
    assert_eq!(a.rollback(), vec![1, 2, 0]);
    assert!(a.rollback().is_empty());
    assert_eq!(b.commit(), vec![0, 2, 1]);
    assert!(b.rollback().is_empty());
}
