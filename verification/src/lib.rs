//! A Wayland layer-shell extension for a cross-platform windowing library.
//!
//! One generic window handle fronts a closed set of backend-specific native
//! windows. Layer-shell configuration is accumulated by a builder before the
//! native window exists; after creation, runtime setters route every mutation
//! through a thread-affine dispatcher so that backend-owned native state is
//! only ever touched on the thread that owns the event loop. On a backend
//! without the layer-shell role the setters degrade to diagnosed no-ops.

pub mod dispatch;
pub mod event_loop;
pub mod monitor;
pub mod shell;
pub mod window;
