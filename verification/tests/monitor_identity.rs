use layershell::monitor::{MonitorHandle, MonitorHandleExtWayland};

#[test]
fn native_id_is_stable_across_calls() {
    let m = MonitorHandle::new(41);
    assert_eq!(m.native_id(), 41);
    assert_eq!(m.native_id(), m.native_id());
}

#[test]
fn handles_onto_the_same_display_agree() {
    let a = MonitorHandle::new(7);
    let b = MonitorHandle::new(7);
    assert_eq!(a.native_id(), b.native_id());
    let other = MonitorHandle::new(8);
    assert_ne!(a.native_id(), other.native_id());
}
