//! Monitor identity. A monitor handle carries the backend-native numeric
//! identifier of one physical display; reading it back is stateless,
//! constant-time and free of failure modes.

use vstd::prelude::*;

verus! {

/// A handle onto one physical monitor. Two handles refer to the same
/// physical display within one compositor session exactly when they carry
/// the same native identifier; the identifier is stable for the monitor's
/// lifetime but not guaranteed stable across compositor restarts.
#[derive(Clone, Copy, Debug, PartialEq, Eq, Structural)]
pub struct MonitorHandle {
    /// The backend-native identifier of the display.
    pub id: u32,
}

impl MonitorHandle {
    pub fn new(id: u32) -> (m: MonitorHandle)
        ensures
            m.id == id,
    {
        MonitorHandle { id }
    }
}

/// Queries on a monitor handle that are specific to Wayland.
pub trait MonitorHandleExtWayland {
    /// The native identifier the handle carries.
    spec fn native_id_spec(&self) -> u32;

    /// Returns the inner identifier of the monitor: a pure read of the
    /// handle, so repeated calls on one handle, and calls on any two
    /// handles with the same identifier, return the same value.
    fn native_id(&self) -> (r: u32)
        ensures
            r == self.native_id_spec(),
    ;
}

impl MonitorHandleExtWayland for MonitorHandle {
    open spec fn native_id_spec(&self) -> u32 {
        self.id
    }

    fn native_id(&self) -> (r: u32) {
        self.id
    }
}

} // verus!
