//! The generic window: one handle over a closed set of backend-specific
//! native windows, a builder that accumulates its creation-time
//! configuration, and the runtime shell-surface setters, each routed through
//! the thread-affine dispatcher.
//!
//! The whole observable behaviour of a window is captured by one
//! mathematical model, [`WindowModel`], and two functions on it:
//! [`submit_model`] says what one submission does (run inline on the owning
//! thread, queue from anywhere else), and [`drained_model`] says what
//! draining the queue on the owning thread does. Every mutating operation's
//! contract is an equation over this model.

use vstd::prelude::*;
use crate::dispatch::{Dispatcher, ThreadId};
use crate::event_loop::{BackendKind, CreationError, EventLoopWindowTarget};
use crate::shell::{
    apply_shell, default_shell_state, initial_shell_state, Anchor, KeyboardInteractivity, Layer,
    LayerShellConfig, Margin, ShellOp, ShellOpKind, ShellState,
};

verus! {

/// The application identity attached to a window at creation, matching the
/// desktop-entry application-id convention. The `instance` part is accepted
/// and kept, but is not currently propagated anywhere observable: a
/// documented limitation, not silently dropped.
#[derive(Clone, Debug)]
pub struct ApplicationName {
    pub general: String,
    pub instance: String,
}

impl ApplicationName {
    pub fn new(general: String, instance: String) -> (r: ApplicationName)
        ensures
            r.general == general,
            r.instance == instance,
    {
        ApplicationName { general, instance }
    }
}

/// The native state owned by a Wayland-backed window: the live shell-surface
/// properties and the native protocol requests issued so far, in order. The
/// request log is the narrow interface to the compositor: the wire encoding
/// of each entry is the business of unverified code at the process edge.
#[derive(Clone, Debug)]
pub struct WaylandWindowState {
    pub state: ShellState,
    pub requests: Vec<ShellOp>,
}

impl WaylandWindowState {
    /// Executes one runtime request on the native state: the one property
    /// it carries is replaced, and exactly one native protocol request,
    /// carrying the same value, is issued.
    pub fn apply(&mut self, op: ShellOp)
        ensures
            final(self).state == apply_shell(old(self).state, op),
            final(self).requests@ == old(self).requests@.push(op),
    {
        match op {
            ShellOp::Layer(l) => self.state.layer = l,
            ShellOp::Anchor(a) => self.state.anchor = a,
            ShellOp::ExclusiveZone(z) => self.state.exclusive_zone = z,
            ShellOp::Margin(m) => self.state.margin = m,
            ShellOp::KeyboardInteractivity(k) => self.state.keyboard_interactivity = k,
        }
        self.requests.push(op);
    }
}

/// The native state owned by an X11-backed window. Its internals are an
/// external collaborator; nothing in the shell-surface feature reads or
/// writes them, which is exactly what the runtime setters' contracts say.
#[derive(Clone, Debug)]
pub struct X11WindowState {}

/// The closed set of backend-specific native windows behind one generic
/// handle. The variant is chosen at creation and never changes afterward.
#[derive(Clone, Debug)]
pub enum BackendWindowVariant {
    Wayland(WaylandWindowState),
    X11(X11WindowState),
}

impl BackendWindowVariant {
    /// The backend tag of the variant.
    pub open spec fn kind(self) -> BackendKind {
        match self {
            BackendWindowVariant::Wayland(_) => BackendKind::Wayland,
            BackendWindowVariant::X11(_) => BackendKind::X11,
        }
    }
}

/// The mathematical model of a window: everything a caller can observe.
/// For a non-Wayland window `shell` is the default state and `requests` is
/// empty, and both stay so forever.
#[verifier::ext_equal]
pub ghost struct WindowModel {
    /// The thread owning the window's native state.
    pub owner: ThreadId,
    /// The backend tag, fixed at creation.
    pub backend: BackendKind,
    /// The application identity, fixed at creation.
    pub name: Option<ApplicationName>,
    /// The live shell-surface properties (Wayland only).
    pub shell: ShellState,
    /// The native protocol requests issued so far, in order (Wayland only).
    pub requests: Seq<ShellOp>,
    /// Work queued for the owning thread, oldest first.
    pub pending: Seq<ShellOp>,
    /// The operations ignored because the variant does not support them,
    /// in the order they were attempted.
    pub diagnostics: Seq<ShellOpKind>,
}

/// What executing one unit of work on the owning thread does. On the
/// Wayland variant the carried property is replaced and exactly one native
/// request is issued; on any other variant nothing native happens and the
/// operation's name is recorded on the diagnostic channel.
pub open spec fn apply_model(m: WindowModel, op: ShellOp) -> WindowModel {
    if m.backend == BackendKind::Wayland {
        WindowModel { shell: apply_shell(m.shell, op), requests: m.requests.push(op), ..m }
    } else {
        WindowModel { diagnostics: m.diagnostics.push(op.kind_spec()), ..m }
    }
}

/// What one submission does: executed at once when submitted from the
/// owning thread, appended to the queue from any other thread.
pub open spec fn submit_model(m: WindowModel, caller: ThreadId, op: ShellOp) -> WindowModel {
    if caller == m.owner {
        apply_model(m, op)
    } else {
        WindowModel { pending: m.pending.push(op), ..m }
    }
}

/// The model after executing `ops`, oldest first, on the owning thread.
pub open spec fn run_ops(m: WindowModel, ops: Seq<ShellOp>) -> WindowModel
    decreases ops.len(),
{
    if ops.len() == 0 {
        m
    } else {
        run_ops(apply_model(m, ops[0]), ops.drop_first())
    }
}

/// The model after the owning thread drains the queue: everything that was
/// pending has executed, in submission order, and the queue is empty.
pub open spec fn drained_model(m: WindowModel) -> WindowModel {
    run_ops(WindowModel { pending: Seq::<ShellOp>::empty(), ..m }, m.pending)
}

/// A live generic window handle: the backend variant it owns, the
/// dispatcher marshalling work onto its owning thread, and the diagnostic
/// channel for operations its variant does not support.
#[derive(Debug)]
pub struct Window {
    pub name: Option<ApplicationName>,
    pub dispatcher: Dispatcher,
    pub variant: BackendWindowVariant,
    pub diagnostics: Vec<ShellOpKind>,
}

impl View for Window {
    type V = WindowModel;

    open spec fn view(&self) -> WindowModel {
        WindowModel {
            owner: self.dispatcher.owner,
            backend: self.variant.kind(),
            name: self.name,
            shell: match self.variant {
                BackendWindowVariant::Wayland(w) => w.state,
                BackendWindowVariant::X11(_) => default_shell_state(),
            },
            requests: match self.variant {
                BackendWindowVariant::Wayland(w) => w.requests@,
                BackendWindowVariant::X11(_) => Seq::<ShellOp>::empty(),
            },
            pending: self.dispatcher.pending@,
            diagnostics: self.diagnostics@,
        }
    }
}

impl Window {
    /// Executes one unit of work immediately. Only the dispatcher's inline
    /// path and the owner's drain go through here.
    fn apply_now(&mut self, op: ShellOp)
        ensures
            final(self)@ == apply_model(old(self)@, op),
    {
        match &mut self.variant {
            BackendWindowVariant::Wayland(w) => {
                w.apply(op);
            },
            BackendWindowVariant::X11(_) => {
                let k = op.kind();
                self.diagnostics.push(k);
            },
        }
    }

    /// Submits one unit of work, from any thread: it runs at once when the
    /// caller is the owning thread and is queued otherwise. Never blocks,
    /// never fails, never answers with an error.
    pub fn submit(&mut self, caller: ThreadId, op: ShellOp)
        ensures
            final(self)@ == submit_model(old(self)@, caller, op),
    {
        if self.dispatcher.runs_inline(caller) {
            self.apply_now(op);
        } else {
            self.dispatcher.enqueue(op);
        }
    }

    /// Drains the queue on the owning thread: every queued unit of work
    /// executes, oldest first, and the queue is left empty. The event loop
    /// calls this between iterations; only the owner may. On a Wayland
    /// window the drained work issues exactly the queued requests, appended
    /// to the log in submission order; on any other backend nothing native
    /// happens and only diagnostics grow.
    pub fn run_pending(&mut self, caller: ThreadId)
        requires
            caller == old(self).dispatcher.owner,
        ensures
            final(self)@ == drained_model(old(self)@),
            final(self)@.pending == Seq::<ShellOp>::empty(),
            final(self)@.owner == old(self)@.owner,
            final(self)@.backend == old(self)@.backend,
            final(self)@.name == old(self)@.name,
            old(self)@.backend == BackendKind::Wayland ==> final(self)@.requests == old(
                self,
            )@.requests + old(self)@.pending && final(self)@.shell == apply_shell_all(
                old(self)@.shell,
                old(self)@.pending,
            ) && final(self)@.diagnostics == old(self)@.diagnostics,
            old(self)@.backend != BackendKind::Wayland ==> final(self)@.requests == old(
                self,
            )@.requests && final(self)@.shell == old(self)@.shell,
    {
        proof {
            let start = WindowModel { pending: Seq::<ShellOp>::empty(), ..old(self)@ };
            lemma_run_ops_invariants(start, old(self)@.pending);
            if old(self)@.backend == BackendKind::Wayland {
                lemma_run_ops_wayland(start, old(self)@.pending);
            } else {
                lemma_run_ops_foreign(start, old(self)@.pending);
            }
        }
        let ops = self.dispatcher.take_pending();
        let ghost m0: WindowModel = self@;
        let n: usize = ops.len();
        let mut i: usize = 0;
        while i < n
            invariant
                i <= n,
                n == ops@.len(),
                self@ == run_ops(m0, ops@.take(i as int)),
            decreases n - i,
        {
            proof {
                lemma_run_ops_push(m0, ops@.take(i as int), ops@[i as int]);
                assert(ops@.take(i as int).push(ops@[i as int]) =~= ops@.take(i as int + 1));
            }
            let op = ops[i];
            self.apply_now(op);
            i += 1;
        }
        proof {
            assert(ops@.take(n as int) =~= ops@);
        }
    }
}

/// What executing work can never change: the owning thread, the backend
/// tag and the application identity are fixed for the window's lifetime,
/// and execution itself consumes nothing from the queue.
pub proof fn lemma_run_ops_invariants(m: WindowModel, ops: Seq<ShellOp>)
    ensures
        run_ops(m, ops).owner == m.owner,
        run_ops(m, ops).backend == m.backend,
        run_ops(m, ops).name == m.name,
        run_ops(m, ops).pending == m.pending,
    decreases ops.len(),
{
    if ops.len() > 0 {
        lemma_run_ops_invariants(apply_model(m, ops[0]), ops.drop_first());
    }
}

/// Executing a queue one element at a time agrees with executing it whole:
/// appending one more unit of work and running everything is the same as
/// running what was there and then that unit.
pub proof fn lemma_run_ops_push(m: WindowModel, ops: Seq<ShellOp>, op: ShellOp)
    ensures
        run_ops(m, ops.push(op)) == apply_model(run_ops(m, ops), op),
    decreases ops.len(),
{
    if ops.len() == 0 {
        assert(ops.push(op)[0] == op);
        assert(ops.push(op).drop_first() =~= Seq::<ShellOp>::empty());
        assert(run_ops(m, ops.push(op)) == run_ops(
            apply_model(m, op),
            Seq::<ShellOp>::empty(),
        ));
        assert(run_ops(apply_model(m, op), Seq::<ShellOp>::empty()) == apply_model(m, op));
        assert(run_ops(m, ops) == m);
    } else {
        assert(ops.push(op)[0] == ops[0]);
        assert(ops.push(op).drop_first() =~= ops.drop_first().push(op));
        assert(run_ops(m, ops.push(op)) == run_ops(
            apply_model(m, ops[0]),
            ops.drop_first().push(op),
        ));
        lemma_run_ops_push(apply_model(m, ops[0]), ops.drop_first(), op);
        assert(run_ops(m, ops) == run_ops(apply_model(m, ops[0]), ops.drop_first()));
    }
}

/// Units of work execute in submission order, whichever threads submitted
/// them: running a queue that arrived as a first batch followed by a second
/// is exactly running the first batch and then the second. Together with
/// the queue's append-only growth this pins the execution order to the
/// arrival order.
pub proof fn lemma_run_ops_append(m: WindowModel, first: Seq<ShellOp>, second: Seq<ShellOp>)
    ensures
        run_ops(m, first + second) == run_ops(run_ops(m, first), second),
    decreases first.len(),
{
    if first.len() == 0 {
        assert(first + second =~= second);
    } else {
        assert((first + second)[0] == first[0]);
        assert((first + second).drop_first() =~= first.drop_first() + second);
        lemma_run_ops_append(apply_model(m, first[0]), first.drop_first(), second);
    }
}

/// On a Wayland window, executing queued work issues exactly the queued
/// requests, appended to the log in execution order, and the backend tag
/// and queue-owner never change.
pub proof fn lemma_run_ops_wayland(m: WindowModel, ops: Seq<ShellOp>)
    requires
        m.backend == BackendKind::Wayland,
    ensures
        run_ops(m, ops).requests == m.requests + ops,
        run_ops(m, ops).backend == m.backend,
        run_ops(m, ops).owner == m.owner,
        run_ops(m, ops).shell == apply_shell_all(m.shell, ops),
        run_ops(m, ops).diagnostics == m.diagnostics,
        run_ops(m, ops).pending == m.pending,
    decreases ops.len(),
{
    if ops.len() == 0 {
        assert(m.requests + ops =~= m.requests);
    } else {
        lemma_run_ops_wayland(apply_model(m, ops[0]), ops.drop_first());
        assert(m.requests.push(ops[0]) + ops.drop_first() =~= m.requests + ops);
    }
}

/// The shell state after a run of requests, each replacing the property it
/// carries, oldest first.
pub open spec fn apply_shell_all(s: ShellState, ops: Seq<ShellOp>) -> ShellState
    decreases ops.len(),
{
    if ops.len() == 0 {
        s
    } else {
        apply_shell_all(apply_shell(s, ops[0]), ops.drop_first())
    }
}

/// On a window of any other backend, executing queued work has no native
/// effect whatever: no request is issued and no shell property moves; each
/// executed unit of work only leaves its name on the diagnostic channel.
pub proof fn lemma_run_ops_foreign(m: WindowModel, ops: Seq<ShellOp>)
    requires
        m.backend != BackendKind::Wayland,
    ensures
        run_ops(m, ops).requests == m.requests,
        run_ops(m, ops).shell == m.shell,
        run_ops(m, ops).backend == m.backend,
        run_ops(m, ops).owner == m.owner,
        run_ops(m, ops).pending == m.pending,
        run_ops(m, ops).diagnostics == m.diagnostics + ops.map_values(|op: ShellOp| op.kind_spec()),
    decreases ops.len(),
{
    if ops.len() == 0 {
        assert(m.diagnostics + ops.map_values(|op: ShellOp| op.kind_spec()) =~= m.diagnostics);
    } else {
        lemma_run_ops_foreign(apply_model(m, ops[0]), ops.drop_first());
        assert(m.diagnostics.push(ops[0].kind_spec()) + ops.drop_first().map_values(
            |op: ShellOp| op.kind_spec(),
        ) =~= m.diagnostics + ops.map_values(|op: ShellOp| op.kind_spec()));
    }
}

/// A runtime setter on a non-Wayland window is a diagnosed no-op, whether
/// it runs inline or is queued and later drained: the request log, the
/// shell state and the backend are exactly what they were, and the caller
/// got no error back because submission never answers with one.
pub proof fn lemma_foreign_setter_no_native_effect(m: WindowModel, caller: ThreadId, op: ShellOp)
    requires
        m.backend != BackendKind::Wayland,
    ensures
        submit_model(m, caller, op).requests == m.requests,
        submit_model(m, caller, op).shell == m.shell,
        submit_model(m, caller, op).backend == m.backend,
        drained_model(submit_model(m, caller, op)).requests == m.requests,
        drained_model(submit_model(m, caller, op)).shell == m.shell,
        drained_model(submit_model(m, caller, op)).backend == m.backend,
{
    let submitted = submit_model(m, caller, op);
    lemma_run_ops_foreign(
        WindowModel { pending: Seq::<ShellOp>::empty(), ..submitted },
        submitted.pending,
    );
}

/// Submitting a margin from the owning thread of a Wayland window yields
/// exactly one unit of work carrying (top, right, bottom, left) in that
/// order, issued as a native request before the call returns, with the
/// queue untouched.
pub proof fn lemma_margin_inline_effect(
    m: WindowModel,
    caller: ThreadId,
    top: i32,
    right: i32,
    bottom: i32,
    left: i32,
)
    requires
        caller == m.owner,
        m.backend == BackendKind::Wayland,
    ensures
        ({
            let op = ShellOp::Margin(Margin { top, right, bottom, left });
            let after = submit_model(m, caller, op);
            after.requests == m.requests.push(op) && after.shell.margin == (Margin {
                top,
                right,
                bottom,
                left,
            }) && after.pending == m.pending && after.diagnostics == m.diagnostics
        }),
{
}

/// The model a window starts its live phase in: the variant tag and owner
/// come from the event loop, the shell state from the creation request, and
/// every log is empty.
pub open spec fn created_model(
    target: EventLoopWindowTarget,
    name: Option<ApplicationName>,
    config: LayerShellConfig,
) -> WindowModel {
    WindowModel {
        owner: target.owner_thread,
        backend: target.backend,
        name: name,
        shell: if target.backend == BackendKind::Wayland {
            initial_shell_state(config)
        } else {
            default_shell_state()
        },
        requests: Seq::<ShellOp>::empty(),
        pending: Seq::<ShellOp>::empty(),
        diagnostics: Seq::<ShellOpKind>::empty(),
    }
}

/// Accumulates a window's creation-time configuration. Purely a value:
/// nothing native happens until the builder is consumed by `build`.
#[derive(Clone, Debug)]
pub struct WindowBuilder {
    pub name: Option<ApplicationName>,
    pub layer_shell: LayerShellConfig,
}

impl WindowBuilder {
    /// A builder asking for a plain top-level window with no identity.
    pub fn new() -> (b: WindowBuilder)
        ensures
            b.name is None,
            b.layer_shell == (LayerShellConfig {
                layer: None,
                anchor: None,
                exclusive_zone: None,
                margin: None,
                keyboard_interactivity: None,
            }),
    {
        WindowBuilder { name: None, layer_shell: LayerShellConfig::unconfigured() }
    }

    /// Consumes the builder and creates the native window under the given
    /// event loop, all or nothing.
    ///
    /// Fails with `BackendThreadViolation` exactly when off-thread creation
    /// is disallowed and the caller is not the owning thread; otherwise
    /// fails with `ShellProtocolUnsupported` exactly when a shell-surface
    /// layer was requested and the backend cannot negotiate the protocol.
    /// On success the window is live with the created model; on failure no
    /// window exists at all.
    pub fn build(self, target: &EventLoopWindowTarget, caller: ThreadId) -> (r: Result<
        Window,
        CreationError,
    >)
        ensures
            (!target.any_thread && caller != target.owner_thread) <==> r == Err::<
                Window,
                CreationError,
            >(CreationError::BackendThreadViolation),
            ((target.any_thread || caller == target.owner_thread) && self.layer_shell.layer is Some
                && !target.layer_shell_available) <==> r == Err::<Window, CreationError>(
                CreationError::ShellProtocolUnsupported,
            ),
            r is Ok ==> r->Ok_0@ == created_model(*target, self.name, self.layer_shell),
            r is Err ==> (r->Err_0 == CreationError::BackendThreadViolation || r->Err_0
                == CreationError::ShellProtocolUnsupported),
    {
        if !target.any_thread && caller.0 != target.owner_thread.0 {
            return Err(CreationError::BackendThreadViolation);
        }
        let wants_shell = match self.layer_shell.layer {
            Some(_) => true,
            None => false,
        };
        if wants_shell && !target.layer_shell_available {
            return Err(CreationError::ShellProtocolUnsupported);
        }
        let variant = match target.backend {
            BackendKind::Wayland => BackendWindowVariant::Wayland(
                WaylandWindowState { state: ShellState::initial(self.layer_shell), requests: Vec::new() },
            ),
            BackendKind::X11 => BackendWindowVariant::X11(X11WindowState {}),
        };
        let w = Window {
            name: self.name,
            dispatcher: Dispatcher::new(target.owner_thread),
            variant,
            diagnostics: Vec::new(),
        };
        Ok(w)
    }
}

/// The runtime shell-surface setters, callable from any thread on a live
/// window. Each captures its value as one unit of work and hands it to the
/// thread-affine dispatcher: executed before the call returns when invoked
/// on the owning thread, queued otherwise. On a non-Wayland variant the
/// executed work degrades to a diagnosed no-op; the caller never sees an
/// error either way.
pub trait WindowExtWayland {
    /// The window's observable model.
    spec fn model(&self) -> WindowModel;

    /// Moves the surface to the given layer.
    fn set_layer(&mut self, caller: ThreadId, layer: Layer)
        ensures
            final(self).model() == submit_model(
                old(self).model(),
                caller,
                ShellOp::Layer(layer),
            ),
    ;

    /// Replaces the set of anchored edges.
    fn set_anchor(&mut self, caller: ThreadId, anchor: Anchor)
        ensures
            final(self).model() == submit_model(
                old(self).model(),
                caller,
                ShellOp::Anchor(anchor),
            ),
    ;

    /// Replaces the exclusive zone: a raw signed pixel count, with -1 the
    /// sentinel for ignoring other surfaces' zones and 0 for none.
    fn set_exclusive_zone(&mut self, caller: ThreadId, exclusive_zone: i32)
        ensures
            final(self).model() == submit_model(
                old(self).model(),
                caller,
                ShellOp::ExclusiveZone(exclusive_zone),
            ),
    ;

    /// Replaces the margins, in the fixed order top, right, bottom, left.
    fn set_margin(&mut self, caller: ThreadId, top: i32, right: i32, bottom: i32, left: i32)
        ensures
            final(self).model() == submit_model(
                old(self).model(),
                caller,
                ShellOp::Margin(Margin { top, right, bottom, left }),
            ),
    ;

    /// Replaces the keyboard-interactivity mode.
    fn set_keyboard_interactivity(
        &mut self,
        caller: ThreadId,
        keyboard_interactivity: KeyboardInteractivity,
    )
        ensures
            final(self).model() == submit_model(
                old(self).model(),
                caller,
                ShellOp::KeyboardInteractivity(keyboard_interactivity),
            ),
    ;
}

impl WindowExtWayland for Window {
    open spec fn model(&self) -> WindowModel {
        self@
    }

    fn set_layer(&mut self, caller: ThreadId, layer: Layer) {
        self.submit(caller, ShellOp::Layer(layer));
    }

    fn set_anchor(&mut self, caller: ThreadId, anchor: Anchor) {
        self.submit(caller, ShellOp::Anchor(anchor));
    }

    fn set_exclusive_zone(&mut self, caller: ThreadId, exclusive_zone: i32) {
        self.submit(caller, ShellOp::ExclusiveZone(exclusive_zone));
    }

    fn set_margin(&mut self, caller: ThreadId, top: i32, right: i32, bottom: i32, left: i32) {
        self.submit(caller, ShellOp::Margin(Margin { top, right, bottom, left }));
    }

    fn set_keyboard_interactivity(
        &mut self,
        caller: ThreadId,
        keyboard_interactivity: KeyboardInteractivity,
    ) {
        self.submit(caller, ShellOp::KeyboardInteractivity(keyboard_interactivity));
    }
}

/// The builder surface for the shell-surface role: each call is a pure
/// accumulation into the creation request, chainable, with no native
/// effect until the builder is consumed. Requesting a layer is the signal
/// to negotiate the protocol at creation; the other values are honoured
/// only alongside a requested layer and otherwise stored inertly.
pub trait WindowBuilderExtWayland {
    /// The application identity accumulated so far.
    spec fn name_spec(&self) -> Option<ApplicationName>;

    /// The shell-surface request accumulated so far.
    spec fn layer_shell_spec(&self) -> LayerShellConfig;

    /// Attaches the application identity: `general` is the application id
    /// that should match the desktop entry shipped with the program, and
    /// `instance` is kept but currently propagated nowhere observable.
    fn with_name(self, general: String, instance: String) -> (r: Self) where Self: Sized
        ensures
            r.name_spec() is Some,
            r.name_spec()->0.general == general,
            r.name_spec()->0.instance == instance,
            r.layer_shell_spec() == self.layer_shell_spec(),
    ;

    /// Asks for the shell-surface role on the given layer. Creation will
    /// fail with `ShellProtocolUnsupported` when the backend cannot
    /// negotiate the protocol.
    fn with_layer_shell(self, layer: Layer) -> (r: Self) where Self: Sized
        ensures
            r.layer_shell_spec() == (LayerShellConfig {
                layer: Some(layer),
                ..self.layer_shell_spec()
            }),
            r.name_spec() == self.name_spec(),
    ;

    /// Sets the creation-time anchored edges.
    fn with_anchor(self, anchor: Anchor) -> (r: Self) where Self: Sized
        ensures
            r.layer_shell_spec() == (LayerShellConfig {
                anchor: Some(anchor),
                ..self.layer_shell_spec()
            }),
            r.name_spec() == self.name_spec(),
    ;

    /// Sets the creation-time exclusive zone, as a raw signed pixel count
    /// with -1 the sentinel for ignoring other surfaces' zones.
    fn with_exclusive_zone(self, exclusive_zone: i32) -> (r: Self) where Self: Sized
        ensures
            r.layer_shell_spec() == (LayerShellConfig {
                exclusive_zone: Some(exclusive_zone),
                ..self.layer_shell_spec()
            }),
            r.name_spec() == self.name_spec(),
    ;

    /// Sets the creation-time margins, in the fixed order top, right,
    /// bottom, left.
    fn with_margin(self, top: i32, right: i32, bottom: i32, left: i32) -> (r: Self) where
        Self: Sized
        ensures
            r.layer_shell_spec() == (LayerShellConfig {
                margin: Some(Margin { top, right, bottom, left }),
                ..self.layer_shell_spec()
            }),
            r.name_spec() == self.name_spec(),
    ;

    /// Sets the creation-time keyboard-interactivity mode.
    fn with_keyboard_interactivity(self, keyboard_interactivity: KeyboardInteractivity) -> (r:
        Self) where Self: Sized
        ensures
            r.layer_shell_spec() == (LayerShellConfig {
                keyboard_interactivity: Some(keyboard_interactivity),
                ..self.layer_shell_spec()
            }),
            r.name_spec() == self.name_spec(),
    ;
}

impl WindowBuilderExtWayland for WindowBuilder {
    open spec fn name_spec(&self) -> Option<ApplicationName> {
        self.name
    }

    open spec fn layer_shell_spec(&self) -> LayerShellConfig {
        self.layer_shell
    }

    fn with_name(self, general: String, instance: String) -> (r: Self) {
        WindowBuilder {
            name: Some(ApplicationName::new(general, instance)),
            layer_shell: self.layer_shell,
        }
    }

    fn with_layer_shell(self, layer: Layer) -> (r: Self) {
        WindowBuilder {
            name: self.name,
            layer_shell: LayerShellConfig { layer: Some(layer), ..self.layer_shell },
        }
    }

    fn with_anchor(self, anchor: Anchor) -> (r: Self) {
        WindowBuilder {
            name: self.name,
            layer_shell: LayerShellConfig { anchor: Some(anchor), ..self.layer_shell },
        }
    }

    fn with_exclusive_zone(self, exclusive_zone: i32) -> (r: Self) {
        WindowBuilder {
            name: self.name,
            layer_shell: LayerShellConfig {
                exclusive_zone: Some(exclusive_zone),
                ..self.layer_shell
            },
        }
    }

    fn with_margin(self, top: i32, right: i32, bottom: i32, left: i32) -> (r: Self) {
        WindowBuilder {
            name: self.name,
            layer_shell: LayerShellConfig {
                margin: Some(Margin { top, right, bottom, left }),
                ..self.layer_shell
            },
        }
    }

    fn with_keyboard_interactivity(self, keyboard_interactivity: KeyboardInteractivity) -> (r:
        Self) {
        WindowBuilder {
            name: self.name,
            layer_shell: LayerShellConfig {
                keyboard_interactivity: Some(keyboard_interactivity),
                ..self.layer_shell
            },
        }
    }
}

} // verus!
