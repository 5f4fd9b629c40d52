use vstd::prelude::*;

use crate::state::{tree_state, SwayState};
use crate::tree::WindowNode;

verus! {

/// One of the two layout commands the daemon can issue to the window
/// manager.
#[derive(Clone, Copy, PartialEq, Eq, Structural, Debug)]
pub enum LayoutCommand {
    /// Arrange the next window beside the current one ("splith").
    SplitHorizontal,
    /// Arrange the next window below the current one ("splitv").
    SplitVertical,
}

/// The command a completed state calls for: nothing unless both a focused
/// and a master window were recorded; a horizontal split when the focused
/// window is the master (same owning process), a vertical one otherwise.
pub open spec fn spec_decision(st: SwayState) -> Option<LayoutCommand> {
    match (st.focused_window, st.master_window) {
        (Some(f), Some(m)) => if f.pid == m.pid {
            Some(LayoutCommand::SplitHorizontal)
        } else {
            Some(LayoutCommand::SplitVertical)
        },
        _ => None,
    }
}

/// Decide which command, if any, a completed state calls for.
pub fn decide(st: &SwayState) -> (r: Option<LayoutCommand>)
    ensures
        r == spec_decision(*st),
{
    match (&st.focused_window, &st.master_window) {
        (Some(f), Some(m)) => if f.pid == m.pid {
            Some(LayoutCommand::SplitHorizontal)
        } else {
            Some(LayoutCommand::SplitVertical)
        },
        _ => None,
    }
}

impl LayoutCommand {
    /// The exact command string the window manager understands.
    pub fn command_str(&self) -> (r: &'static str)
        ensures
            *self == LayoutCommand::SplitHorizontal ==> r@ == "splith"@,
            *self == LayoutCommand::SplitVertical ==> r@ == "splitv"@,
    {
        match self {
            LayoutCommand::SplitHorizontal => "splith",
            LayoutCommand::SplitVertical => "splitv",
        }
    }
}

/// Everything the daemon does with one fresh tree snapshot: traverse it
/// from a fresh state and decide which command, if any, to issue.
pub fn process_tree(root: WindowNode) -> (r: Option<LayoutCommand>)
    ensures
        r == spec_decision(tree_state(root)),
{
    let mut st = SwayState::new();
    st.update(root);
    decide(&st)
}

/// One focus-change event's worth of work, given the outcome of the tree
/// fetch: a failed fetch is skipped silently — no command — and a fresh
/// snapshot is traversed and decided on.
pub fn process_snapshot(snapshot: Option<WindowNode>) -> (r: Option<LayoutCommand>)
    ensures
        r == (match snapshot {
            Some(root) => spec_decision(tree_state(root)),
            None => None::<LayoutCommand>,
        }),
{
    match snapshot {
        Some(root) => process_tree(root),
        None => None,
    }
}

} // verus!
