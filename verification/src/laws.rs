use vstd::prelude::*;

use crate::dispatch::{spec_decision, LayoutCommand};
use crate::state::{initial_state, record, state_from, tree_state, SwayState};
use crate::tree::{
    node_interesting, obs_seq, obs_seq_all, own_obs, Observation, Window, WindowNode,
};

verus! {

/// The window of the last focused observation in `s`, if any.
pub open spec fn seq_focused(s: Seq<Observation>) -> Option<Window>
    decreases s.len(),
{
    if s.len() == 0 {
        None
    } else {
        match seq_focused(s.drop_first()) {
            Some(w) => Some(w),
            None => if s[0].focused {
                Some(s[0].window)
            } else {
                None
            },
        }
    }
}

/// What the fold records as focused: the last focused observation wins;
/// with none, the starting state's record is kept.
pub proof fn lemma_state_from_focused(st: SwayState, s: Seq<Observation>)
    ensures
        state_from(st, s).focused_window == (match seq_focused(s) {
            Some(w) => Some(w),
            None => st.focused_window,
        }),
    decreases s.len(),
{
    if s.len() > 0 {
        lemma_state_from_focused(record(st, s[0]), s.drop_first());
    }
}

/// What the fold records as master: a window exactly when one was recorded
/// before or `s` observes one, never to the right of the starting record,
/// and never to the right of any observation in `s`.
pub proof fn lemma_state_from_master(st: SwayState, s: Seq<Observation>)
    ensures
        state_from(st, s).master_window is Some <==> (st.master_window is Some || s.len() > 0),
        st.master_window is Some ==> state_from(st, s).master_window->0.x <= st.master_window->0.x,
        forall|i: int|
            0 <= i < s.len() ==> state_from(st, s).master_window->0.x <= s[i].window.x,
    decreases s.len(),
{
    if s.len() > 0 {
        lemma_state_from_master(record(st, s[0]), s.drop_first());
        assert forall|i: int| 0 <= i < s.len() implies state_from(st, s).master_window->0.x
            <= s[i].window.x by {
            if i > 0 {
                assert(s.drop_first()[i - 1] == s[i]);
            }
        }
    }
}

/// A master record already at or left of every observation in `s` survives
/// the fold unchanged: a tie never replaces the incumbent.
pub proof fn lemma_state_from_master_stable(st: SwayState, s: Seq<Observation>)
    requires
        st.master_window is Some,
        forall|i: int| 0 <= i < s.len() ==> st.master_window->0.x <= s[i].window.x,
    ensures
        state_from(st, s).master_window == st.master_window,
    decreases s.len(),
{
    if s.len() > 0 {
        assert(record(st, s[0]).master_window == st.master_window);
        assert forall|i: int| 0 <= i < s.drop_first().len() implies st.master_window->0.x
            <= s.drop_first()[i].window.x by {
            assert(s.drop_first()[i] == s[i + 1]);
        }
        lemma_state_from_master_stable(record(st, s[0]), s.drop_first());
    }
}

/// Minimality of the master: a traversal records a master window exactly
/// when the tree holds an interesting node, and the recorded left edge is
/// less than or equal to every interesting node's left edge.
pub proof fn lemma_master_minimal(root: WindowNode)
    ensures
        tree_state(root).master_window is Some <==> obs_seq(root).len() > 0,
        forall|i: int|
            0 <= i < obs_seq(root).len() ==> tree_state(root).master_window->0.x <= obs_seq(
                root,
            )[i].window.x,
{
    lemma_state_from_master(initial_state(), obs_seq(root));
}

/// Idempotence of the traversal: folding the observations of one unchanged
/// tree a second time leaves the state exactly where the first fold left
/// it, whatever state the fold started from.
pub proof fn lemma_traversal_idempotent(st: SwayState, root: WindowNode)
    ensures
        state_from(state_from(st, obs_seq(root)), obs_seq(root)) == state_from(st, obs_seq(root)),
{
    let s = obs_seq(root);
    let st1 = state_from(st, s);
    lemma_state_from_focused(st, s);
    lemma_state_from_focused(st1, s);
    if s.len() == 0 {
        assert(state_from(st1, s) == st1);
    } else {
        lemma_state_from_master(st, s);
        lemma_state_from_master_stable(st1, s);
    }
}

/// A tree whose single interesting node is focused yields that node as
/// both the focused and the master window — a lone window is its own
/// master — and the decision is the horizontal split.
pub proof fn lemma_single_interesting_focused(root: WindowNode)
    requires
        obs_seq(root).len() == 1,
        obs_seq(root)[0].focused,
    ensures
        tree_state(root).focused_window == Some(obs_seq(root)[0].window),
        tree_state(root).master_window == Some(obs_seq(root)[0].window),
        spec_decision(tree_state(root)) == Some(LayoutCommand::SplitHorizontal),
{
    let s = obs_seq(root);
    let st1 = record(initial_state(), s[0]);
    assert(s.drop_first() =~= Seq::<Observation>::empty());
    assert(state_from(st1, Seq::<Observation>::empty()) == st1);
    assert(tree_state(root) == st1);
}

/// A node that fails the eligibility filter contributes nothing of its
/// own, wherever it stands in the tree: the traversal records exactly what
/// the node's children yield, and those children are still walked.
pub proof fn lemma_uninteresting_node_transparent(n: WindowNode)
    requires
        !node_interesting(n),
    ensures
        obs_seq(n) == obs_seq_all(n.children@),
        tree_state(n) == state_from(initial_state(), obs_seq_all(n.children@)),
{
    assert(own_obs(n) + obs_seq_all(n.children@) =~= obs_seq_all(n.children@));
}

} // verus!
