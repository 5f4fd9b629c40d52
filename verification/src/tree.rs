use vstd::prelude::*;

verus! {

/// The kind of a node in the window manager's layout tree. Only container
/// nodes can represent application windows; every other kind (output,
/// workspace, split, ...) is structural.
#[derive(Clone, Copy, PartialEq, Eq, Structural, Debug)]
pub enum NodeKind {
    Container,
    Other,
}

/// One node of the window manager's layout tree, reduced to the fields the
/// layout decision depends on, plus the tiled children.
#[derive(Debug)]
pub struct WindowNode {
    pub node_type: NodeKind,
    /// Whether the node is currently visible; absent means not yet known.
    pub visible: Option<bool>,
    /// Whether the node currently holds the input focus.
    pub focused: bool,
    /// Process id of the owning process; absent for placeholder nodes.
    pub pid: Option<i32>,
    /// Left edge of the node's rectangle on screen.
    pub x: i32,
    pub children: Vec<WindowNode>,
}

/// Identity of a window, as far as the layout decision needs one: its left
/// edge and its owning process. An absent process id is recorded as -1, the
/// sentinel the window manager itself uses for "no process".
#[derive(Clone, Copy, PartialEq, Eq, Structural, Debug)]
pub struct Window {
    pub x: i32,
    pub pid: i32,
}

/// The identity snapshot `Window::from_node` takes.
pub open spec fn spec_window_of(n: WindowNode) -> Window {
    Window { x: n.x, pid: n.pid.unwrap_or(-1i32) }
}

impl Window {
    /// Take the identity snapshot of a node.
    pub fn from_node(node: &WindowNode) -> (w: Window)
        ensures
            w == spec_window_of(*node),
    {
        Window { x: node.x, pid: node.pid.unwrap_or(-1) }
    }
}

/// A node is interesting — may become focused or master — exactly when it is
/// a container, is known to be visible, and has a real owning process.
/// An absent `visible` or `pid` defaults to "not interesting", never to an
/// error.
pub open spec fn node_interesting(n: WindowNode) -> bool {
    &&& n.node_type == NodeKind::Container
    &&& n.visible.unwrap_or(false)
    &&& n.pid.unwrap_or(-1i32) != -1i32
}

/// What one interesting node contributes to a traversal: its identity and
/// whether it held the input focus.
pub struct Observation {
    pub window: Window,
    pub focused: bool,
}

/// The observation a single node contributes: one element if the node is
/// interesting, none otherwise.
pub open spec fn own_obs(n: WindowNode) -> Seq<Observation> {
    if node_interesting(n) {
        seq![Observation { window: spec_window_of(n), focused: n.focused }]
    } else {
        Seq::<Observation>::empty()
    }
}

/// The observations a walk of the tree rooted at `n` makes, in order:
/// each node before its children, children left to right. Every node's
/// subtree is walked, interesting or not.
pub open spec fn obs_seq(n: WindowNode) -> Seq<Observation>
    decreases n,
{
    own_obs(n) + obs_seq_all(n.children@)
}

/// The observations of a forest, tree by tree.
pub open spec fn obs_seq_all(s: Seq<WindowNode>) -> Seq<Observation>
    decreases s,
{
    if s.len() == 0 {
        Seq::<Observation>::empty()
    } else {
        obs_seq(s[0]) + obs_seq_all(s.drop_first())
    }
}

} // verus!
