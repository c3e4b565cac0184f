//! Backend selection and event-loop construction. Which native backend to
//! use, and whether creation may happen off the loop's own thread, are fixed
//! here once; everything downstream reads the decision from the constructed
//! target instead of consulting process-wide state.

use vstd::prelude::*;
use crate::dispatch::ThreadId;

verus! {

/// The closed set of native backends this crate knows.
#[derive(Clone, Copy, Debug, PartialEq, Eq, Structural)]
pub enum BackendKind {
    Wayland,
    X11,
}

/// The typed failures creation can answer with. All are recoverable: the
/// caller may retry with another configuration.
#[derive(Clone, Copy, Debug, PartialEq, Eq, Structural)]
pub enum CreationError {
    /// A forced backend cannot be provided by the host environment, or no
    /// known backend is available at all. Raised at event-loop construction.
    BackendUnavailable,
    /// Creation was attempted off the required thread while off-thread
    /// creation is disallowed. Raised at event-loop and window creation.
    BackendThreadViolation,
    /// A shell-surface layer was requested but the active backend lacks the
    /// protocol extension. Raised at window creation; no partial window is
    /// left behind.
    ShellProtocolUnsupported,
}

/// What the host environment offers, resolved once at the edge of the
/// process and passed in explicitly: which backends can be instantiated,
/// which thread is the designated main thread, and whether the Wayland
/// compositor advertises the layer-shell protocol extension.
#[derive(Clone, Copy, Debug, PartialEq, Eq, Structural)]
pub struct HostCapabilities {
    pub wayland_available: bool,
    pub x11_available: bool,
    /// Whether the compositor offers the layer-shell global. Meaningful
    /// only when the Wayland backend is available.
    pub wayland_layer_shell: bool,
    /// The process's designated main thread, the default home of every
    /// event loop.
    pub main_thread: ThreadId,
}

/// Which backend a loop built from `forced` ends up on, given the host:
/// a forced backend is taken exactly when the host offers it, and with no
/// preference stated Wayland is preferred over X11. `None` means
/// construction fails with `BackendUnavailable`.
pub open spec fn selected_backend(host: HostCapabilities, forced: Option<BackendKind>) -> Option<
    BackendKind,
> {
    match forced {
        Some(BackendKind::Wayland) => if host.wayland_available {
            Some(BackendKind::Wayland)
        } else {
            None
        },
        Some(BackendKind::X11) => if host.x11_available {
            Some(BackendKind::X11)
        } else {
            None
        },
        None => if host.wayland_available {
            Some(BackendKind::Wayland)
        } else if host.x11_available {
            Some(BackendKind::X11)
        } else {
            None
        },
    }
}

/// Write-only configuration accumulated before the event loop exists.
#[derive(Clone, Copy, Debug, PartialEq, Eq, Structural)]
pub struct EventLoopBuilder {
    pub forced_backend: Option<BackendKind>,
    pub any_thread: bool,
}

/// The constructed event loop's public face: the facts fixed for the loop's
/// whole lifetime that window creation and dispatching read.
#[derive(Clone, Copy, Debug, PartialEq, Eq, Structural)]
pub struct EventLoopWindowTarget {
    /// The backend the loop runs on; fixed at construction.
    pub backend: BackendKind,
    /// The thread that owns the loop and every native handle created under
    /// it.
    pub owner_thread: ThreadId,
    /// Whether window creation may be called off the owning thread.
    pub any_thread: bool,
    /// Whether shell-surface creation can be negotiated: true exactly on a
    /// Wayland backend whose compositor offers the protocol extension.
    pub layer_shell_available: bool,
}

impl EventLoopBuilder {
    /// The default configuration: no forced backend, creation restricted to
    /// the main thread.
    pub fn new() -> (b: EventLoopBuilder)
        ensures
            b.forced_backend is None,
            !b.any_thread,
    {
        EventLoopBuilder { forced_backend: None, any_thread: false }
    }

    /// Constructs the event loop on the calling thread.
    ///
    /// Fails with `BackendThreadViolation` exactly when off-thread creation
    /// is disallowed and the caller is not the host's main thread; otherwise
    /// fails with `BackendUnavailable` exactly when no backend can be
    /// selected. On success the calling thread becomes the owning thread.
    pub fn build(&self, host: HostCapabilities, current_thread: ThreadId) -> (r: Result<
        EventLoopWindowTarget,
        CreationError,
    >)
        ensures
            (!self.any_thread && current_thread != host.main_thread) ==> r == Err::<
                EventLoopWindowTarget,
                CreationError,
            >(CreationError::BackendThreadViolation),
            (self.any_thread || current_thread == host.main_thread) ==> match selected_backend(
                host,
                self.forced_backend,
            ) {
                Some(kind) => r == Ok::<EventLoopWindowTarget, CreationError>(
                    EventLoopWindowTarget {
                        backend: kind,
                        owner_thread: current_thread,
                        any_thread: self.any_thread,
                        layer_shell_available: kind == BackendKind::Wayland
                            && host.wayland_layer_shell,
                    },
                ),
                None => r == Err::<EventLoopWindowTarget, CreationError>(
                    CreationError::BackendUnavailable,
                ),
            },
    {
        if !self.any_thread && current_thread.0 != host.main_thread.0 {
            return Err(CreationError::BackendThreadViolation);
        }
        let kind: BackendKind = match self.forced_backend {
            Some(BackendKind::Wayland) => {
                if !host.wayland_available {
                    return Err(CreationError::BackendUnavailable);
                }
                BackendKind::Wayland
            },
            Some(BackendKind::X11) => {
                if !host.x11_available {
                    return Err(CreationError::BackendUnavailable);
                }
                BackendKind::X11
            },
            None => {
                if host.wayland_available {
                    BackendKind::Wayland
                } else if host.x11_available {
                    BackendKind::X11
                } else {
                    return Err(CreationError::BackendUnavailable);
                }
            },
        };
        Ok(
            EventLoopWindowTarget {
                backend: kind,
                owner_thread: current_thread,
                any_thread: self.any_thread,
                layer_shell_available: match kind {
                    BackendKind::Wayland => host.wayland_layer_shell,
                    BackendKind::X11 => false,
                },
            },
        )
    }
}

/// Event-loop configuration specific to the Wayland backend.
pub trait EventLoopBuilderExtWayland {
    /// The backend the builder currently forces, if any.
    spec fn forced_backend_spec(&self) -> Option<BackendKind>;

    /// Whether the builder currently allows off-thread creation.
    spec fn any_thread_spec(&self) -> bool;

    /// Forces the Wayland backend: construction will no longer fall back to
    /// any other backend. Leaves the threading policy as it was.
    fn with_wayland(&mut self)
        ensures
            final(self).forced_backend_spec() == Some(BackendKind::Wayland),
            final(self).any_thread_spec() == old(self).any_thread_spec(),
    ;

    /// Decides whether the event loop and its windows may be created off
    /// the main thread. Off by default, to keep behaviour uniform across
    /// platforms. Leaves the forced backend as it was.
    fn with_any_thread(&mut self, any_thread: bool)
        ensures
            final(self).any_thread_spec() == any_thread,
            final(self).forced_backend_spec() == old(self).forced_backend_spec(),
    ;
}

impl EventLoopBuilderExtWayland for EventLoopBuilder {
    open spec fn forced_backend_spec(&self) -> Option<BackendKind> {
        self.forced_backend
    }

    open spec fn any_thread_spec(&self) -> bool {
        self.any_thread
    }

    fn with_wayland(&mut self) {
        self.forced_backend = Some(BackendKind::Wayland);
    }

    fn with_any_thread(&mut self, any_thread: bool) {
        self.any_thread = any_thread;
    }
}

/// Queries on a constructed event loop that are specific to Wayland.
pub trait EventLoopWindowTargetExtWayland {
    /// The backend the target was constructed on.
    spec fn backend_spec(&self) -> BackendKind;

    /// True exactly when the target runs on the Wayland backend.
    fn is_wayland(&self) -> (r: bool)
        ensures
            r == (self.backend_spec() == BackendKind::Wayland),
    ;
}

impl EventLoopWindowTargetExtWayland for EventLoopWindowTarget {
    open spec fn backend_spec(&self) -> BackendKind {
        self.backend
    }

    fn is_wayland(&self) -> (r: bool) {
        match self.backend {
            BackendKind::Wayland => true,
            BackendKind::X11 => false,
        }
    }
}

} // verus!
