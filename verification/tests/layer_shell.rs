use layershell::dispatch::ThreadId;
use layershell::event_loop::{
    BackendKind, CreationError, EventLoopBuilder, EventLoopBuilderExtWayland,
    EventLoopWindowTarget, EventLoopWindowTargetExtWayland, HostCapabilities,
};
use layershell::shell::{
    Anchor, AnchorEdge, KeyboardInteractivity, Layer, LayerShellConfig, Margin, ShellOp,
    ShellOpKind, ShellState, EXCLUSIVE_ZONE_IGNORE, EXCLUSIVE_ZONE_NONE,
};
use layershell::window::{
    BackendWindowVariant, Window, WindowBuilder, WindowBuilderExtWayland, WindowExtWayland,
};

const MAIN: ThreadId = ThreadId(1);

fn full_host() -> HostCapabilities {
    HostCapabilities {
        wayland_available: true,
        x11_available: true,
        wayland_layer_shell: true,
        main_thread: MAIN,
    }
}

fn wayland_target() -> EventLoopWindowTarget {
    EventLoopBuilder::new().build(full_host(), MAIN).unwrap()
}

fn x11_target() -> EventLoopWindowTarget {
    let mut b = EventLoopBuilder::new();
    b.with_any_thread(false);
    let host = HostCapabilities { wayland_available: false, ..full_host() };
    b.build(host, MAIN).unwrap()
}

fn wayland_requests(w: &Window) -> &Vec<ShellOp> {
    match &w.variant {
        BackendWindowVariant::Wayland(state) => &state.requests,
        BackendWindowVariant::X11(_) => panic!("expected a Wayland window"),
    }
}

fn wayland_state(w: &Window) -> ShellState {
    match &w.variant {
        BackendWindowVariant::Wayland(state) => state.state,
        BackendWindowVariant::X11(_) => panic!("expected a Wayland window"),
    }
}

#[test]
fn builder_accumulates_layer_shell_config() {
    let b = WindowBuilder::new()
        .with_layer_shell(Layer::Top)
        .with_exclusive_zone(32)
        .with_margin(1, 2, 3, 4)
        .with_keyboard_interactivity(KeyboardInteractivity::OnDemand);
    assert_eq!(b.layer_shell.layer, Some(Layer::Top));
    assert_eq!(b.layer_shell.exclusive_zone, Some(32));
    assert_eq!(b.layer_shell.margin, Some(Margin { top: 1, right: 2, bottom: 3, left: 4 }));
    assert_eq!(
        b.layer_shell.keyboard_interactivity,
        Some(KeyboardInteractivity::OnDemand)
    );
    assert_eq!(b.layer_shell.anchor, None);
}

#[test]
fn builder_attaches_application_name() {
    let b = WindowBuilder::new().with_name(String::from("org.example.panel"), String::from("dock"));
    let name = b.name.as_ref().unwrap();
    assert_eq!(name.general, "org.example.panel");
    assert_eq!(name.instance, "dock");
    let w = b.build(&wayland_target(), MAIN).unwrap();
    let kept = w.name.as_ref().unwrap();
    assert_eq!(kept.general, "org.example.panel");
    assert_eq!(kept.instance, "dock");
}

#[test]
fn forced_backend_unavailable() {
    let mut b = EventLoopBuilder::new();
    b.with_wayland();
    let host = HostCapabilities { wayland_available: false, ..full_host() };
    assert_eq!(b.build(host, MAIN), Err(CreationError::BackendUnavailable));
}

#[test]
fn no_backend_at_all_unavailable() {
    let host = HostCapabilities {
        wayland_available: false,
        x11_available: false,
        ..full_host()
    };
    assert_eq!(
        EventLoopBuilder::new().build(host, MAIN),
        Err(CreationError::BackendUnavailable)
    );
}

#[test]
fn event_loop_off_main_thread_refused_by_default() {
    let r = EventLoopBuilder::new().build(full_host(), ThreadId(9));
    assert_eq!(r, Err(CreationError::BackendThreadViolation));
}

#[test]
fn event_loop_off_main_thread_allowed_when_opted_in() {
    let mut b = EventLoopBuilder::new();
    b.with_any_thread(true);
    let t = b.build(full_host(), ThreadId(9)).unwrap();
    assert_eq!(t.owner_thread, ThreadId(9));
    assert!(t.is_wayland());
}

#[test]
fn target_backend_queries() {
    assert!(wayland_target().is_wayland());
    assert!(!x11_target().is_wayland());
    assert_eq!(x11_target().backend, BackendKind::X11);
}

#[test]
fn window_creation_off_owning_thread_fails() {
    let t = wayland_target();
    let r = WindowBuilder::new().build(&t, ThreadId(2));
    assert_eq!(r.err(), Some(CreationError::BackendThreadViolation));
}

#[test]
fn shell_layer_without_protocol_fails_all_or_nothing() {
    let host = HostCapabilities { wayland_layer_shell: false, ..full_host() };
    let t = EventLoopBuilder::new().build(host, MAIN).unwrap();
    let r = WindowBuilder::new().with_layer_shell(Layer::Overlay).build(&t, MAIN);
    assert_eq!(r.err(), Some(CreationError::ShellProtocolUnsupported));
}

#[test]
fn shell_layer_on_x11_backend_fails() {
    let t = x11_target();
    let r = WindowBuilder::new().with_layer_shell(Layer::Background).build(&t, MAIN);
    assert_eq!(r.err(), Some(CreationError::ShellProtocolUnsupported));
}

#[test]
fn plain_window_without_layer_still_builds_where_protocol_missing() {
    let host = HostCapabilities { wayland_layer_shell: false, ..full_host() };
    let t = EventLoopBuilder::new().build(host, MAIN).unwrap();
    let w = WindowBuilder::new().build(&t, MAIN).unwrap();
    assert_eq!(wayland_state(&w), ShellState::fresh());
}

#[test]
fn requested_layer_seeds_initial_state() {
    let t = wayland_target();
    let w = WindowBuilder::new()
        .with_layer_shell(Layer::Top)
        .with_exclusive_zone(24)
        .build(&t, MAIN)
        .unwrap();
    let s = wayland_state(&w);
    assert_eq!(s.layer, Layer::Top);
    assert_eq!(s.exclusive_zone, 24);
    assert_eq!(s.anchor, Anchor::empty());
    assert_eq!(s.margin, Margin::default());
    assert_eq!(s.keyboard_interactivity, KeyboardInteractivity::NoFocus);
    assert!(wayland_requests(&w).is_empty());
}

#[test]
fn values_stored_without_layer_are_inert() {
    let t = wayland_target();
    let w = WindowBuilder::new()
        .with_margin(9, 9, 9, 9)
        .with_exclusive_zone(77)
        .build(&t, MAIN)
        .unwrap();
    assert_eq!(wayland_state(&w), ShellState::fresh());
}

#[test]
fn margin_setter_inline_issues_one_ordered_request() {
    let t = wayland_target();
    let mut w = WindowBuilder::new().with_layer_shell(Layer::Top).build(&t, MAIN).unwrap();
    w.set_margin(MAIN, 10, 20, 30, 40);
    let expected = ShellOp::Margin(Margin { top: 10, right: 20, bottom: 30, left: 40 });
    assert_eq!(wayland_requests(&w).as_slice(), &[expected]);
    assert_eq!(wayland_state(&w).margin, Margin { top: 10, right: 20, bottom: 30, left: 40 });
    assert!(w.dispatcher.pending.is_empty());
}

#[test]
fn setters_replace_exactly_one_property() {
    let t = wayland_target();
    let mut w = WindowBuilder::new().with_layer_shell(Layer::Bottom).build(&t, MAIN).unwrap();
    w.set_layer(MAIN, Layer::Overlay);
    let mut a = Anchor::empty();
    a.set(AnchorEdge::Left);
    w.set_anchor(MAIN, a);
    w.set_keyboard_interactivity(MAIN, KeyboardInteractivity::Exclusive);
    let s = wayland_state(&w);
    assert_eq!(s.layer, Layer::Overlay);
    assert!(s.anchor.contains(AnchorEdge::Left));
    assert!(!s.anchor.contains(AnchorEdge::Top));
    assert_eq!(s.keyboard_interactivity, KeyboardInteractivity::Exclusive);
    assert_eq!(s.margin, Margin::default());
    assert_eq!(wayland_requests(&w).len(), 3);
}

#[test]
fn exclusive_zone_sentinels_pass_through() {
    let t = wayland_target();
    let mut w = WindowBuilder::new().with_layer_shell(Layer::Top).build(&t, MAIN).unwrap();
    w.set_exclusive_zone(MAIN, EXCLUSIVE_ZONE_IGNORE);
    assert_eq!(wayland_state(&w).exclusive_zone, -1);
    w.set_exclusive_zone(MAIN, EXCLUSIVE_ZONE_NONE);
    assert_eq!(wayland_state(&w).exclusive_zone, 0);
    w.set_exclusive_zone(MAIN, 48);
    assert_eq!(wayland_state(&w).exclusive_zone, 48);
}

#[test]
fn setters_on_x11_window_are_diagnosed_noops() {
    let t = x11_target();
    let mut w = WindowBuilder::new().build(&t, MAIN).unwrap();
    w.set_layer(MAIN, Layer::Top);
    w.set_anchor(MAIN, Anchor::empty());
    w.set_exclusive_zone(MAIN, 5);
    w.set_margin(MAIN, 1, 1, 1, 1);
    w.set_keyboard_interactivity(MAIN, KeyboardInteractivity::OnDemand);
    match &w.variant {
        BackendWindowVariant::X11(_) => {}
        BackendWindowVariant::Wayland(_) => panic!("variant must not change"),
    }
    assert!(w.dispatcher.pending.is_empty());
    assert_eq!(
        w.diagnostics,
        vec![
            ShellOpKind::Layer,
            ShellOpKind::Anchor,
            ShellOpKind::ExclusiveZone,
            ShellOpKind::Margin,
            ShellOpKind::KeyboardInteractivity,
        ]
    );
}

#[test]
fn off_thread_submissions_queue_then_drain_in_order() {
    let t = wayland_target();
    let mut w = WindowBuilder::new().with_layer_shell(Layer::Top).build(&t, MAIN).unwrap();
    // Tagged units of work from three distinct non-owning threads.
    w.set_exclusive_zone(ThreadId(2), 100);
    w.set_exclusive_zone(ThreadId(3), 200);
    w.set_exclusive_zone(ThreadId(4), 300);
    assert!(wayland_requests(&w).is_empty());
    assert_eq!(w.dispatcher.pending.len(), 3);
    w.run_pending(MAIN);
    assert!(w.dispatcher.pending.is_empty());
    assert_eq!(
        wayland_requests(&w).as_slice(),
        &[
            ShellOp::ExclusiveZone(100),
            ShellOp::ExclusiveZone(200),
            ShellOp::ExclusiveZone(300),
        ]
    );
    assert_eq!(wayland_state(&w).exclusive_zone, 300);
}

#[test]
fn queued_work_on_x11_window_diagnoses_on_drain() {
    let t = x11_target();
    let mut w = WindowBuilder::new().build(&t, MAIN).unwrap();
    w.set_margin(ThreadId(5), 1, 2, 3, 4);
    assert!(w.diagnostics.is_empty());
    assert_eq!(w.dispatcher.pending.len(), 1);
    w.run_pending(MAIN);
    assert!(w.dispatcher.pending.is_empty());
    assert_eq!(w.diagnostics, vec![ShellOpKind::Margin]);
}

#[test]
fn draining_in_batches_keeps_submission_order() {
    let t = wayland_target();
    let mut w = WindowBuilder::new().with_layer_shell(Layer::Top).build(&t, MAIN).unwrap();
    w.set_exclusive_zone(ThreadId(2), 1);
    w.set_exclusive_zone(ThreadId(3), 2);
    w.run_pending(MAIN);
    w.set_exclusive_zone(ThreadId(2), 3);
    w.run_pending(MAIN);
    assert_eq!(
        wayland_requests(&w).as_slice(),
        &[
            ShellOp::ExclusiveZone(1),
            ShellOp::ExclusiveZone(2),
            ShellOp::ExclusiveZone(3),
        ]
    );
}

#[test]
fn anchor_bits_are_independent() {
    let mut a = Anchor::empty();
    a.set(AnchorEdge::Top);
    a.set(AnchorEdge::Left);
    assert!(a.contains(AnchorEdge::Top));
    assert!(a.contains(AnchorEdge::Left));
    assert!(!a.contains(AnchorEdge::Bottom));
    assert!(!a.contains(AnchorEdge::Right));
    a.set(AnchorEdge::Bottom);
    assert!(a.contains(AnchorEdge::Top));
    assert!(a.contains(AnchorEdge::Left));
    assert!(a.contains(AnchorEdge::Bottom));
    assert!(!a.contains(AnchorEdge::Right));
}

#[test]
fn defaults_match_protocol_defaults() {
    assert_eq!(Layer::default(), Layer::Bottom);
    assert_eq!(Anchor::default(), Anchor::empty());
    assert_eq!(KeyboardInteractivity::default(), KeyboardInteractivity::NoFocus);
    assert_eq!(Margin::default(), Margin { top: 0, right: 0, bottom: 0, left: 0 });
    let c = LayerShellConfig::unconfigured();
    assert_eq!(c.layer, None);
}
