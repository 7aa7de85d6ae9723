//! Walking a layout tree along its focus lists.
use crate::reply::Node;
use vstd::prelude::*;

verus! {

broadcast use vstd::std_specs::vec::axiom_vec_decreases_to_view;

/// The number of nodes in a tree.
pub open spec fn node_count(n: Node) -> nat
    decreases n,
{
    1 + forest_count(n.nodes@) + forest_count(n.floating_nodes@)
}

/// The number of nodes in a list of trees.
pub open spec fn forest_count(s: Seq<Node>) -> nat
    decreases s,
{
    if s.len() == 0 {
        0
    } else {
        forest_count(s.drop_last()) + node_count(s.last())
    }
}

/// The child that the first entry of a node's focus list names: the first
/// tiling child with that id, else the first floating one.
pub open spec fn focus_child(n: Node) -> Option<Node> {
    if n.focus@.len() == 0 {
        None
    } else if exists|i: int| 0 <= i < n.nodes@.len() && #[trigger] n.nodes@[i].id == n.focus@[0] {
        Some(n.nodes@[choose|i: int| 0 <= i < n.nodes@.len() && #[trigger] n.nodes@[i].id == n.focus@[0]])
    } else if exists|i: int|
        0 <= i < n.floating_nodes@.len() && #[trigger] n.floating_nodes@[i].id == n.focus@[0] {
        Some(
            n.floating_nodes@[choose|i: int|
                0 <= i < n.floating_nodes@.len() && #[trigger] n.floating_nodes@[i].id == n.focus@[0]],
        )
    } else {
        None
    }
}

proof fn lemma_focus_child_decreases(n: Node)
    ensures
        focus_child(n) matches Some(c) ==> decreases_to!(n => c),
{
    if n.focus@.len() > 0 {
        if exists|i: int| 0 <= i < n.nodes@.len() && #[trigger] n.nodes@[i].id == n.focus@[0] {
            let i = choose|i: int| 0 <= i < n.nodes@.len() && #[trigger] n.nodes@[i].id == n.focus@[0];
            assert(decreases_to!(n => n.nodes));
            assert(decreases_to!(n.nodes => n.nodes@));
            assert(decreases_to!(n.nodes@ => n.nodes@[i]));
        } else if exists|i: int|
            0 <= i < n.floating_nodes@.len() && #[trigger] n.floating_nodes@[i].id == n.focus@[0] {
            let i = choose|i: int|
                0 <= i < n.floating_nodes@.len() && #[trigger] n.floating_nodes@[i].id == n.focus@[0];
            assert(decreases_to!(n => n.floating_nodes));
            assert(decreases_to!(n.floating_nodes => n.floating_nodes@));
            assert(decreases_to!(n.floating_nodes@ => n.floating_nodes@[i]));
        }
    }
}

#[via_fn]
proof fn focus_steps_decreases(n: Node) {
    lemma_focus_child_decreases(n);
}

/// How many steps the walk along the first focus entries takes from `n`
/// before it reaches a node whose focus list names no child.
pub open spec fn focus_steps(n: Node) -> nat
    decreases n via focus_steps_decreases
{
    match focus_child(n) {
        Some(c) => 1 + focus_steps(c),
        None => 0,
    }
}

/// A tree in a list counts no more nodes than the list.
proof fn lemma_member_count(s: Seq<Node>, i: int)
    requires
        0 <= i < s.len(),
    ensures
        node_count(s[i]) <= forest_count(s),
    decreases s.len(),
{
    if i < s.len() - 1 {
        lemma_member_count(s.drop_last(), i);
        assert(s.drop_last()[i] == s[i]);
    }
}

/// The walk from a node along the first entries of the focus lists stops
/// after fewer steps than the tree has nodes.
pub proof fn lemma_focus_walk_bounded(n: Node)
    ensures
        focus_steps(n) < node_count(n),
    decreases n,
{
    lemma_focus_child_decreases(n);
    if let Some(c) = focus_child(n) {
        lemma_focus_walk_bounded(c);
        if exists|i: int| 0 <= i < n.nodes@.len() && #[trigger] n.nodes@[i].id == n.focus@[0] {
            let i = choose|i: int| 0 <= i < n.nodes@.len() && #[trigger] n.nodes@[i].id == n.focus@[0];
            lemma_member_count(n.nodes@, i);
        } else {
            let i = choose|i: int|
                0 <= i < n.floating_nodes@.len() && #[trigger] n.floating_nodes@[i].id == n.focus@[0];
            lemma_member_count(n.floating_nodes@, i);
        }
    }
}

/// The node reached after `k` steps along the first focus entries, if the
/// walk goes that far.
pub open spec fn focus_walk(n: Node, k: nat) -> Option<Node>
    decreases k,
{
    if k == 0 {
        Some(n)
    } else {
        match focus_child(n) {
            Some(c) => focus_walk(c, (k - 1) as nat),
            None => None,
        }
    }
}

#[via_fn]
proof fn reaches_focused_decreases(n: Node) {
    lemma_focus_child_decreases(n);
}

/// Whether the walk along the first focus entries, each naming a child,
/// comes to a focused node.
pub open spec fn reaches_focused(n: Node) -> bool
    decreases n via reaches_focused_decreases
{
    n.focused || (focus_child(n) matches Some(c) && reaches_focused(c))
}

/// Where following the first focus entry from the root leads to a focused
/// node, it gets there in fewer steps than the tree has nodes.
pub proof fn lemma_focus_walk_finds_focused(n: Node)
    requires
        reaches_focused(n),
    ensures
        exists|k: nat| k < node_count(n) && (#[trigger] focus_walk(n, k) matches Some(m) && m.focused),
    decreases n,
{
    if n.focused {
        assert(focus_walk(n, 0) == Some(n));
    } else {
        lemma_focus_child_decreases(n);
        let c = focus_child(n)->0;
        lemma_focus_walk_finds_focused(c);
        let k = choose|k: nat| k < node_count(c) && (#[trigger] focus_walk(c, k) matches Some(m) && m.focused);
        assert(focus_walk(n, k + 1) == focus_walk(c, k));
        if exists|i: int| 0 <= i < n.nodes@.len() && #[trigger] n.nodes@[i].id == n.focus@[0] {
            let i = choose|i: int| 0 <= i < n.nodes@.len() && #[trigger] n.nodes@[i].id == n.focus@[0];
            lemma_member_count(n.nodes@, i);
        } else {
            let i = choose|i: int|
                0 <= i < n.floating_nodes@.len() && #[trigger] n.floating_nodes@[i].id == n.focus@[0];
            lemma_member_count(n.floating_nodes@, i);
        }
        assert(k + 1 < node_count(n));
        assert(focus_walk(n, (k + 1) as nat) matches Some(m) && m.focused);
    }
}

} // verus!
