//! A window-manager layout helper: from a snapshot of the manager's window
//! tree it determines the focused window and the master window (the leftmost
//! visible one), and decides which of the two split commands to issue.

pub mod dispatch;
pub mod events;
pub mod laws;
pub mod state;
pub mod tree;
