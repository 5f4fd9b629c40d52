use swaysplit::dispatch::{decide, process_snapshot, process_tree, LayoutCommand};
use swaysplit::state::SwayState;
use swaysplit::tree::{NodeKind, Window, WindowNode};

fn window(visible: Option<bool>, focused: bool, pid: Option<i32>, x: i32) -> WindowNode {
    WindowNode { node_type: NodeKind::Container, visible, focused, pid, x, children: vec![] }
}

fn structural(children: Vec<WindowNode>) -> WindowNode {
    WindowNode {
        node_type: NodeKind::Other,
        visible: None,
        focused: false,
        pid: None,
        x: 0,
        children,
    }
}

#[test]
fn focused_window_right_of_master_splits_vertically() {
    let a = window(Some(true), true, Some(1), 100);
    let b = window(Some(true), false, Some(2), 50);
    let root = structural(vec![a, b]);

    let mut state = SwayState::new();
    state.update(root);
    assert_eq!(state.focused_window, Some(Window { x: 100, pid: 1 }));
    assert_eq!(state.master_window, Some(Window { x: 50, pid: 2 }));
    assert_eq!(decide(&state), Some(LayoutCommand::SplitVertical));
}

#[test]
fn focused_window_that_is_master_splits_horizontally() {
    let a = window(Some(true), true, Some(1), 30);
    let b = window(Some(true), false, Some(2), 50);
    let root = structural(vec![a, b]);

    let mut state = SwayState::new();
    state.update(root);
    assert_eq!(state.focused_window, Some(Window { x: 30, pid: 1 }));
    assert_eq!(state.master_window, Some(Window { x: 30, pid: 1 }));
    assert_eq!(state.focused_window, state.master_window);
    assert_eq!(decide(&state), Some(LayoutCommand::SplitHorizontal));
}

#[test]
fn tree_without_interesting_nodes_issues_no_command() {
    let hidden = window(Some(false), false, Some(7), 10);
    let unknown = window(None, true, Some(8), 20);
    let orphan = window(Some(true), false, None, 30);
    let root = structural(vec![hidden, unknown, orphan]);
    assert_eq!(process_tree(root), None);
}

#[test]
fn failed_tree_fetch_is_skipped_without_command() {
    assert_eq!(process_snapshot(None), None);
}

#[test]
fn fresh_snapshot_is_processed_to_a_command() {
    let a = window(Some(true), true, Some(1), 100);
    let b = window(Some(true), false, Some(2), 50);
    let root = structural(vec![a, b]);
    assert_eq!(process_snapshot(Some(root)), Some(LayoutCommand::SplitVertical));
}

#[test]
fn single_interesting_node_is_its_own_master() {
    let lone = window(Some(true), true, Some(42), 640);
    let root = structural(vec![lone]);

    let mut state = SwayState::new();
    state.update(root);
    assert_eq!(state.focused_window, Some(Window { x: 640, pid: 42 }));
    assert_eq!(state.master_window, Some(Window { x: 640, pid: 42 }));
    assert_eq!(decide(&state), Some(LayoutCommand::SplitHorizontal));
}

#[test]
fn master_is_leftmost_interesting_window() {
    let root = structural(vec![
        window(Some(true), false, Some(1), 400),
        window(Some(true), true, Some(2), 120),
        window(Some(true), false, Some(3), 900),
        window(Some(true), false, Some(4), -40),
    ]);

    let mut state = SwayState::new();
    state.update(root);
    assert_eq!(state.master_window, Some(Window { x: -40, pid: 4 }));
}

#[test]
fn equal_left_edges_keep_the_first_seen_master() {
    let root = structural(vec![
        window(Some(true), false, Some(1), 50),
        window(Some(true), true, Some(2), 50),
    ]);

    let mut state = SwayState::new();
    state.update(root);
    assert_eq!(state.master_window, Some(Window { x: 50, pid: 1 }));
}

#[test]
fn later_focused_node_overwrites_earlier_one() {
    let root = structural(vec![
        window(Some(true), true, Some(1), 10),
        window(Some(true), true, Some(2), 20),
    ]);

    let mut state = SwayState::new();
    state.update(root);
    assert_eq!(state.focused_window, Some(Window { x: 20, pid: 2 }));
}

#[test]
fn traversal_twice_on_same_tree_yields_identical_state() {
    let build = || {
        structural(vec![
            window(Some(true), true, Some(1), 100),
            window(Some(true), false, Some(2), 50),
        ])
    };

    let mut once = SwayState::new();
    once.update(build());

    let mut twice = SwayState::new();
    twice.update(build());
    twice.update(build());

    assert_eq!(once, twice);
}

#[test]
fn invisible_wrapper_still_surfaces_its_focused_leaf() {
    let leaf = window(Some(true), true, Some(9), 75);
    let wrapper = WindowNode {
        node_type: NodeKind::Container,
        visible: Some(false),
        focused: false,
        pid: Some(8),
        x: 5,
        children: vec![leaf],
    };
    let root = structural(vec![wrapper]);

    let mut state = SwayState::new();
    state.update(root);
    assert_eq!(state.focused_window, Some(Window { x: 75, pid: 9 }));
    assert_eq!(state.master_window, Some(Window { x: 75, pid: 9 }));
}

#[test]
fn filtered_nodes_never_become_focused_or_master() {
    let noise = vec![
        WindowNode {
            node_type: NodeKind::Other,
            visible: Some(true),
            focused: true,
            pid: Some(1),
            x: -500,
            children: vec![],
        },
        window(Some(false), true, Some(2), -400),
        window(None, true, Some(3), -300),
        window(Some(true), true, None, -200),
        window(Some(true), true, Some(-1), -100),
    ];
    let real = window(Some(true), true, Some(4), 80);
    let mut children = noise;
    children.push(real);
    let root = structural(children);

    let mut state = SwayState::new();
    state.update(root);
    assert_eq!(state.focused_window, Some(Window { x: 80, pid: 4 }));
    assert_eq!(state.master_window, Some(Window { x: 80, pid: 4 }));
}

#[test]
fn new_state_has_nothing_recorded() {
    let state = SwayState::new();
    assert_eq!(state.focused_window, None);
    assert_eq!(state.master_window, None);
    assert_eq!(decide(&state), None);
}

#[test]
fn reset_clears_both_records() {
    let root = structural(vec![window(Some(true), true, Some(1), 10)]);
    let mut state = SwayState::new();
    state.update(root);
    assert!(state.focused_window.is_some());

    state.reset();
    assert_eq!(state.focused_window, None);
    assert_eq!(state.master_window, None);
}

#[test]
fn state_without_focused_window_issues_no_command() {
    let root = structural(vec![window(Some(true), false, Some(1), 10)]);
    let mut state = SwayState::new();
    state.update(root);
    assert_eq!(state.focused_window, None);
    assert!(state.master_window.is_some());
    assert_eq!(decide(&state), None);
}

#[test]
fn from_node_records_missing_pid_as_sentinel() {
    let node = window(Some(true), false, None, 12);
    let w = Window::from_node(&node);
    assert_eq!(w, Window { x: 12, pid: -1 });

    let node = window(Some(true), false, Some(33), 7);
    assert_eq!(Window::from_node(&node), Window { x: 7, pid: 33 });
}

#[test]
fn deeply_nested_window_is_found() {
    let leaf = window(Some(true), true, Some(5), 3);
    let mid = structural(vec![leaf]);
    let top = structural(vec![mid]);
    let root = structural(vec![top]);

    let mut state = SwayState::new();
    state.update(root);
    assert_eq!(state.focused_window, Some(Window { x: 3, pid: 5 }));
}
