use vstd::prelude::*;

use crate::tree::{
    node_interesting, obs_seq, obs_seq_all, own_obs, NodeKind, Observation, Window, WindowNode,
};

verus! {

/// The outcome of one traversal of the window tree: which window holds the
/// input focus and which window is the master (the leftmost interesting
/// one), if the tree held any interesting window at all.
#[derive(PartialEq, Eq, Debug)]
pub struct SwayState {
    pub focused_window: Option<Window>,
    pub master_window: Option<Window>,
}

/// A state with nothing recorded yet.
pub open spec fn initial_state() -> SwayState {
    SwayState { focused_window: None, master_window: None }
}

/// How one observation changes the state: the focus record is overwritten
/// whenever the observed node was focused (last write wins), and the master
/// record keeps a running minimum of the left edge — a strictly smaller `x`
/// replaces it, a tie keeps the incumbent.
pub open spec fn record(st: SwayState, o: Observation) -> SwayState {
    SwayState {
        focused_window: if o.focused {
            Some(o.window)
        } else {
            st.focused_window
        },
        master_window: match st.master_window {
            Some(m) => if o.window.x < m.x {
                Some(o.window)
            } else {
                Some(m)
            },
            None => Some(o.window),
        },
    }
}

/// The state after folding the observations of `s`, in order, over `st`.
pub open spec fn state_from(st: SwayState, s: Seq<Observation>) -> SwayState
    decreases s.len(),
{
    if s.len() == 0 {
        st
    } else {
        state_from(record(st, s[0]), s.drop_first())
    }
}

/// The state one traversal of the tree rooted at `n` produces from scratch.
pub open spec fn tree_state(n: WindowNode) -> SwayState {
    state_from(initial_state(), obs_seq(n))
}

/// Folding a concatenation is folding the two halves in turn.
pub proof fn lemma_state_from_concat(st: SwayState, a: Seq<Observation>, b: Seq<Observation>)
    ensures
        state_from(st, a + b) == state_from(state_from(st, a), b),
    decreases a.len(),
{
    if a.len() == 0 {
        assert(a + b =~= b);
    } else {
        assert((a + b)[0] == a[0]);
        assert((a + b).drop_first() =~= a.drop_first() + b);
        lemma_state_from_concat(record(st, a[0]), a.drop_first(), b);
    }
}

/// The observations of a forest split anywhere are the observations of the
/// two halves, in order.
pub proof fn lemma_obs_seq_all_concat(a: Seq<WindowNode>, b: Seq<WindowNode>)
    ensures
        obs_seq_all(a + b) == obs_seq_all(a) + obs_seq_all(b),
    decreases a.len(),
{
    if a.len() == 0 {
        assert(a + b =~= b);
        assert(obs_seq_all(a) + obs_seq_all(b) =~= obs_seq_all(b));
    } else {
        assert((a + b)[0] == a[0]);
        assert((a + b).drop_first() =~= a.drop_first() + b);
        lemma_obs_seq_all_concat(a.drop_first(), b);
        assert(obs_seq(a[0]) + (obs_seq_all(a.drop_first()) + obs_seq_all(b)) =~= (obs_seq(a[0])
            + obs_seq_all(a.drop_first())) + obs_seq_all(b));
    }
}

/// Extending a prefix of a forest by one tree appends that tree's
/// observations.
pub proof fn lemma_obs_seq_all_snoc(s: Seq<WindowNode>, i: int)
    requires
        0 <= i < s.len(),
    ensures
        obs_seq_all(s.subrange(0, i + 1)) == obs_seq_all(s.subrange(0, i)) + obs_seq(s[i]),
{
    let front = s.subrange(0, i);
    let single = s.subrange(i, i + 1);
    assert(s.subrange(0, i + 1) =~= front + single);
    lemma_obs_seq_all_concat(front, single);
    assert(single.drop_first() =~= Seq::<WindowNode>::empty());
    assert(obs_seq_all(Seq::<WindowNode>::empty()) =~= Seq::<Observation>::empty());
    assert(obs_seq_all(single) =~= obs_seq(s[i]));
}

impl SwayState {
    /// A fresh state, with no focused and no master window recorded.
    pub fn new() -> (st: SwayState)
        ensures
            st == initial_state(),
    {
        SwayState { focused_window: None, master_window: None }
    }

    /// Forget both records, returning to the initial state.
    pub fn reset(&mut self)
        ensures
            *final(self) == initial_state(),
    {
        self.focused_window = None;
        self.master_window = None;
    }

    /// Walk the whole tree under `root_node` and fold every interesting
    /// node's observation into the state, each node before its children,
    /// children left to right.
    pub fn update(&mut self, root_node: WindowNode)
        ensures
            *final(self) == state_from(*old(self), obs_seq(root_node)),
    {
        self.update_node(&root_node);
    }

    /// Recursive worker for `update`: fold one subtree's observations.
    fn update_node(&mut self, node: &WindowNode)
        ensures
            *final(self) == state_from(*old(self), obs_seq(*node)),
        decreases *node,
    {
        if node.node_type == NodeKind::Container && node.visible.unwrap_or(false)
            && node.pid.unwrap_or(-1) != -1 {
            if node.focused {
                self.focused_window = Some(Window::from_node(node));
            }
            match &self.master_window {
                Some(master_window) => {
                    if node.x < master_window.x {
                        self.master_window = Some(Window::from_node(node));
                    }
                },
                None => {
                    self.master_window = Some(Window::from_node(node));
                },
            }
        }
        let ghost st_own = *self;
        proof {
            let o_own = own_obs(*node);
            if node_interesting(*node) {
                assert(o_own.drop_first() =~= Seq::<Observation>::empty());
                assert(state_from(record(*old(self), o_own[0]), Seq::<Observation>::empty())
                    == record(*old(self), o_own[0]));
                assert(st_own == record(*old(self), o_own[0]));
            }
            assert(st_own == state_from(*old(self), o_own));
        }
        let mut i: usize = 0;
        while i < node.children.len()
            invariant
                i <= node.children.len(),
                *self == state_from(st_own, obs_seq_all(node.children@.subrange(0, i as int))),
            decreases node.children.len() - i,
        {
            self.update_node(&node.children[i]);
            proof {
                lemma_obs_seq_all_snoc(node.children@, i as int);
                lemma_state_from_concat(
                    st_own,
                    obs_seq_all(node.children@.subrange(0, i as int)),
                    obs_seq(node.children@[i as int]),
                );
            }
            i = i + 1;
        }
        proof {
            assert(node.children@.subrange(0, node.children@.len() as int) =~= node.children@);
            lemma_state_from_concat(*old(self), own_obs(*node), obs_seq_all(node.children@));
        }
    }
}

} // verus!
