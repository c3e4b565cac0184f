//! Value types for the layer-shell surface role: the layer itself, edge
//! anchoring, exclusive zones, margins and keyboard interactivity, together
//! with the runtime requests (`ShellOp`) that carry them to a live surface.

use vstd::prelude::*;

verus! {

/// The z-depth a shell surface is rendered at. The ordinal order
/// (background lowest, overlay highest) maps one to one onto the
/// compositor protocol's layer enumeration.
#[derive(Clone, Copy, Debug, PartialEq, Eq, Structural)]
pub enum Layer {
    Background,
    Bottom,
    Top,
    Overlay,
}

impl Default for Layer {
    /// A surface that asks for no particular layer sits on the bottom layer.
    fn default() -> (r: Layer)
        ensures
            r == Layer::Bottom,
    {
        Layer::Bottom
    }
}

/// One edge of the anchor rectangle.
#[derive(Clone, Copy, Debug, PartialEq, Eq, Structural)]
pub enum AnchorEdge {
    Top,
    Bottom,
    Left,
    Right,
}

/// The set of edges a shell surface is pinned to. The four bits are
/// orthogonal: setting one never clears another, and the empty set means
/// the surface floats unanchored (centered).
#[derive(Clone, Copy, Debug, PartialEq, Eq, Structural)]
pub struct Anchor {
    pub top: bool,
    pub bottom: bool,
    pub left: bool,
    pub right: bool,
}

impl Anchor {
    /// Whether the given edge is in the set.
    pub open spec fn has(self, edge: AnchorEdge) -> bool {
        match edge {
            AnchorEdge::Top => self.top,
            AnchorEdge::Bottom => self.bottom,
            AnchorEdge::Left => self.left,
            AnchorEdge::Right => self.right,
        }
    }

    /// The empty set: no edge anchored.
    pub fn empty() -> (a: Anchor)
        ensures
            !a.top && !a.bottom && !a.left && !a.right,
    {
        Anchor { top: false, bottom: false, left: false, right: false }
    }

    /// Adds one edge to the set. The bits are independent: every other
    /// edge keeps exactly the membership it had before the call.
    pub fn set(&mut self, edge: AnchorEdge)
        ensures
            final(self).top == (old(self).top || edge == AnchorEdge::Top),
            final(self).bottom == (old(self).bottom || edge == AnchorEdge::Bottom),
            final(self).left == (old(self).left || edge == AnchorEdge::Left),
            final(self).right == (old(self).right || edge == AnchorEdge::Right),
    {
        match edge {
            AnchorEdge::Top => self.top = true,
            AnchorEdge::Bottom => self.bottom = true,
            AnchorEdge::Left => self.left = true,
            AnchorEdge::Right => self.right = true,
        }
    }

    /// Membership test for one edge.
    pub fn contains(&self, edge: AnchorEdge) -> (b: bool)
        ensures
            b == self.has(edge),
    {
        match edge {
            AnchorEdge::Top => self.top,
            AnchorEdge::Bottom => self.bottom,
            AnchorEdge::Left => self.left,
            AnchorEdge::Right => self.right,
        }
    }
}

impl Default for Anchor {
    fn default() -> (r: Anchor)
        ensures
            !r.top && !r.bottom && !r.left && !r.right,
    {
        Anchor { top: false, bottom: false, left: false, right: false }
    }
}

/// How a shell surface takes keyboard focus.
#[derive(Clone, Copy, Debug, PartialEq, Eq, Structural)]
pub enum KeyboardInteractivity {
    /// The surface ignores the keyboard entirely. This is the default.
    NoFocus,
    /// The surface demands the keyboard exclusively. Compositors honour
    /// this only above ordinary surfaces; on the background and bottom
    /// layers they treat it as `OnDemand`.
    Exclusive,
    /// The surface receives keyboard input only while focused.
    OnDemand,
}

impl Default for KeyboardInteractivity {
    fn default() -> (r: KeyboardInteractivity)
        ensures
            r == KeyboardInteractivity::NoFocus,
    {
        KeyboardInteractivity::NoFocus
    }
}

/// The exclusive-zone value that reserves no space and lets the compositor
/// displace the surface.
pub const EXCLUSIVE_ZONE_NONE: i32 = 0;

/// The sentinel exclusive-zone value meaning the surface ignores the zones
/// other surfaces have claimed. The zone is carried as a raw signed pixel
/// count with this one sentinel, exactly as the protocol transmits it;
/// positive values reserve that many pixels.
pub const EXCLUSIVE_ZONE_IGNORE: i32 = -1;

/// Margins between the surface and the edges it is anchored to, in the
/// fixed order top, right, bottom, left.
#[derive(Clone, Copy, Debug, PartialEq, Eq, Structural)]
pub struct Margin {
    pub top: i32,
    pub right: i32,
    pub bottom: i32,
    pub left: i32,
}

impl Default for Margin {
    fn default() -> (r: Margin)
        ensures
            r == (Margin { top: 0, right: 0, bottom: 0, left: 0 }),
    {
        Margin { top: 0, right: 0, bottom: 0, left: 0 }
    }
}

/// One runtime request against a live shell surface: the operation together
/// with the value it carries. These are the units of work the dispatcher
/// queues, and, once executed on a Wayland surface, the native protocol
/// requests issued.
#[derive(Clone, Copy, Debug, PartialEq, Eq, Structural)]
pub enum ShellOp {
    Layer(Layer),
    Anchor(Anchor),
    ExclusiveZone(i32),
    Margin(Margin),
    KeyboardInteractivity(KeyboardInteractivity),
}

/// The bare name of a runtime operation, used by the diagnostic channel to
/// say which operation was ignored on a backend it does not apply to.
#[derive(Clone, Copy, Debug, PartialEq, Eq, Structural)]
pub enum ShellOpKind {
    Layer,
    Anchor,
    ExclusiveZone,
    Margin,
    KeyboardInteractivity,
}

impl ShellOp {
    /// The operation's name, without the value it carries.
    pub open spec fn kind_spec(self) -> ShellOpKind {
        match self {
            ShellOp::Layer(_) => ShellOpKind::Layer,
            ShellOp::Anchor(_) => ShellOpKind::Anchor,
            ShellOp::ExclusiveZone(_) => ShellOpKind::ExclusiveZone,
            ShellOp::Margin(_) => ShellOpKind::Margin,
            ShellOp::KeyboardInteractivity(_) => ShellOpKind::KeyboardInteractivity,
        }
    }

    pub fn kind(&self) -> (k: ShellOpKind)
        ensures
            k == self.kind_spec(),
    {
        match self {
            ShellOp::Layer(_) => ShellOpKind::Layer,
            ShellOp::Anchor(_) => ShellOpKind::Anchor,
            ShellOp::ExclusiveZone(_) => ShellOpKind::ExclusiveZone,
            ShellOp::Margin(_) => ShellOpKind::Margin,
            ShellOp::KeyboardInteractivity(_) => ShellOpKind::KeyboardInteractivity,
        }
    }
}

/// The live shell-surface state of a Wayland window: the current value of
/// each double-buffered property the layer-shell role exposes.
#[derive(Clone, Copy, Debug, PartialEq, Eq, Structural)]
pub struct ShellState {
    pub layer: Layer,
    pub anchor: Anchor,
    pub exclusive_zone: i32,
    pub margin: Margin,
    pub keyboard_interactivity: KeyboardInteractivity,
}

/// The state of a freshly created surface that asked for nothing: bottom
/// layer, unanchored, no exclusive zone, zero margins, keyboard ignored.
pub open spec fn default_shell_state() -> ShellState {
    ShellState {
        layer: Layer::Bottom,
        anchor: Anchor { top: false, bottom: false, left: false, right: false },
        exclusive_zone: 0,
        margin: Margin { top: 0, right: 0, bottom: 0, left: 0 },
        keyboard_interactivity: KeyboardInteractivity::NoFocus,
    }
}

/// What one runtime operation does to the live shell state: it replaces
/// the one property it carries and leaves the other four untouched.
pub open spec fn apply_shell(s: ShellState, op: ShellOp) -> ShellState {
    match op {
        ShellOp::Layer(l) => ShellState { layer: l, ..s },
        ShellOp::Anchor(a) => ShellState { anchor: a, ..s },
        ShellOp::ExclusiveZone(z) => ShellState { exclusive_zone: z, ..s },
        ShellOp::Margin(m) => ShellState { margin: m, ..s },
        ShellOp::KeyboardInteractivity(k) => ShellState { keyboard_interactivity: k, ..s },
    }
}

/// The creation-time description of the desired shell-surface role,
/// accumulated by the window builder before the native window exists.
///
/// A present `layer` is the signal to negotiate the shell-surface protocol
/// at creation time. The other four fields are honoured only when `layer`
/// is present: values stored without a requested layer are kept but have
/// no effect on the created window, a decision this crate makes explicit
/// rather than leaving open.
#[derive(Clone, Copy, Debug, PartialEq, Eq, Structural)]
pub struct LayerShellConfig {
    pub layer: Option<Layer>,
    pub anchor: Option<Anchor>,
    pub exclusive_zone: Option<i32>,
    pub margin: Option<Margin>,
    pub keyboard_interactivity: Option<KeyboardInteractivity>,
}

impl LayerShellConfig {
    /// The empty request: an ordinary top-level surface.
    pub fn unconfigured() -> (c: LayerShellConfig)
        ensures
            c == (LayerShellConfig {
                layer: None,
                anchor: None,
                exclusive_zone: None,
                margin: None,
                keyboard_interactivity: None,
            }),
    {
        LayerShellConfig {
            layer: None,
            anchor: None,
            exclusive_zone: None,
            margin: None,
            keyboard_interactivity: None,
        }
    }
}

impl ShellState {
    /// The default state, as a value.
    pub fn fresh() -> (s: ShellState)
        ensures
            s == default_shell_state(),
    {
        ShellState {
            layer: Layer::Bottom,
            anchor: Anchor { top: false, bottom: false, left: false, right: false },
            exclusive_zone: 0,
            margin: Margin { top: 0, right: 0, bottom: 0, left: 0 },
            keyboard_interactivity: KeyboardInteractivity::NoFocus,
        }
    }

    /// The state a new Wayland surface starts in, computed from its
    /// creation request.
    pub fn initial(c: LayerShellConfig) -> (s: ShellState)
        ensures
            s == initial_shell_state(c),
    {
        match c.layer {
            Some(layer) => ShellState {
                layer,
                anchor: match c.anchor {
                    Some(a) => a,
                    None => Anchor::empty(),
                },
                exclusive_zone: match c.exclusive_zone {
                    Some(z) => z,
                    None => 0,
                },
                margin: match c.margin {
                    Some(m) => m,
                    None => Margin { top: 0, right: 0, bottom: 0, left: 0 },
                },
                keyboard_interactivity: match c.keyboard_interactivity {
                    Some(k) => k,
                    None => KeyboardInteractivity::NoFocus,
                },
            },
            None => ShellState::fresh(),
        }
    }
}

/// The shell state a new Wayland surface starts in, given its creation
/// request: the configured values where a layer was requested, the
/// defaults everywhere else.
pub open spec fn initial_shell_state(c: LayerShellConfig) -> ShellState {
    if c.layer is Some {
        ShellState {
            layer: c.layer->0,
            anchor: if c.anchor is Some { c.anchor->0 } else { default_shell_state().anchor },
            exclusive_zone: if c.exclusive_zone is Some { c.exclusive_zone->0 } else { 0 },
            margin: if c.margin is Some { c.margin->0 } else { default_shell_state().margin },
            keyboard_interactivity: if c.keyboard_interactivity is Some {
                c.keyboard_interactivity->0
            } else {
                KeyboardInteractivity::NoFocus
            },
        }
    } else {
        default_shell_state()
    }
}

} // verus!
