//! The order in which a tree is walked: a node first, then the subtrees of its
//! children, one after the other, from the first child to the last.

use crate::tree::TreeModel;
use vstd::prelude::*;

verus! {

impl<K> TreeModel<K> {
    /// The nodes of the subtree of `i` in the order of the walk: `i` itself,
    /// then the subtree of each of its children in turn.
    pub open spec fn preorder(self, i: int) -> Seq<int>
        decreases self.nodes.len() - i, 1int, 0int,
    {
        if 0 <= i < self.nodes.len() {
            seq![i] + self.preorder_from(i, 0)
        } else {
            Seq::empty()
        }
    }

    /// The subtrees of the children of `p`, from child number `k` on, in the
    /// order of the walk.
    pub open spec fn preorder_from(self, p: int, k: int) -> Seq<int>
        decreases self.nodes.len() - p, 0int, self.children(p).len() - k,
    {
        if 0 <= p < self.nodes.len() && 0 <= k < self.children(p).len() {
            let c = self.children(p)[k];
            (if p < c < self.nodes.len() {
                self.preorder(c)
            } else {
                Seq::empty()
            }) + self.preorder_from(p, k + 1)
        } else {
            Seq::empty()
        }
    }

    /// Whether `x` lies in the subtree of `a`: it is `a` itself, or a later node
    /// whose parent lies in the subtree of `a`.
    pub open spec fn below(self, a: int, x: int) -> bool
        decreases x,
    {
        x == a || (a < x && self.valid(x) && match self.parent(x) {
            Some(p) => 0 <= p < x && self.below(a, p),
            None => false,
        })
    }

    /// The step of the walk from `p` at which the subtree of child number `k`
    /// of `p` begins; with `k` the number of children of `p`, the step at
    /// which the walk ends.
    pub open spec fn child_start(self, p: int, k: int) -> int
        decreases k,
    {
        if k <= 0 {
            1
        } else {
            self.child_start(p, k - 1) + self.preorder(self.children(p)[k - 1]).len()
        }
    }

    /// What a walk has still to visit when `stack` holds the roots of the
    /// subtrees that it has put aside, the next one last.
    pub open spec fn pending(self, stack: Seq<int>) -> Seq<int>
        decreases stack.len(),
    {
        if stack.len() == 0 {
            Seq::empty()
        } else {
            self.preorder(stack.last()) + self.pending(stack.drop_last())
        }
    }
}

/// A node that lies in the subtree of a child lies in the subtree of the parent.
proof fn lemma_below_parent<K>(tree: TreeModel<K>, p: int, c: int, x: int)
    requires
        tree.valid(c),
        0 <= p < c,
        tree.parent(c) == Some(p),
        tree.below(c, x),
    ensures
        tree.below(p, x),
    decreases x,
{
    if x == c {
        assert(tree.below(p, p));
    } else {
        let q = tree.parent(x)->0;
        lemma_below_parent(tree, p, c, q);
    }
}

/// A node among the subtrees of the children of `p` from number `k` on lies
/// in the subtree of one of those children.
proof fn lemma_from_contains<K>(tree: TreeModel<K>, p: int, k: int, x: int) -> (j: int)
    requires
        tree.wf(),
        tree.valid(p),
        0 <= k,
        tree.preorder_from(p, k).contains(x),
    ensures
        k <= j < tree.children(p).len(),
        tree.preorder(tree.children(p)[j]).contains(x),
    decreases tree.children(p).len() - k,
{
    broadcast use vstd::seq_lib::lemma_seq_concat_contains_all_elements;

    let c = tree.children(p)[k];
    assert(tree.fits_under(p, tree.children(p)[k]));
    if tree.preorder(c).contains(x) {
        k
    } else {
        lemma_from_contains(tree, p, k + 1, x)
    }
}

/// What the walk of child number `j` of `p` visits is among the subtrees of
/// the children of `p` from any number up to `j` on.
proof fn lemma_contains_from<K>(tree: TreeModel<K>, p: int, k: int, j: int, x: int)
    requires
        tree.wf(),
        tree.valid(p),
        0 <= k <= j < tree.children(p).len(),
        tree.preorder(tree.children(p)[j]).contains(x),
    ensures
        tree.preorder_from(p, k).contains(x),
    decreases j - k,
{
    broadcast use vstd::seq_lib::lemma_seq_concat_contains_all_elements;

    assert(tree.fits_under(p, tree.children(p)[k]));
    if k < j {
        lemma_contains_from(tree, p, k + 1, j, x);
    }
}

/// What the walk from `a` visits lies in the subtree of `a`.
proof fn lemma_walk_within<K>(tree: TreeModel<K>, a: int, x: int)
    requires
        tree.wf(),
        tree.valid(a),
        tree.preorder(a).contains(x),
    ensures
        tree.valid(x),
        tree.below(a, x),
    decreases tree.nodes.len() - a,
{
    broadcast use vstd::seq_lib::lemma_seq_concat_contains_all_elements;

    if x != a {
        assert(!seq![a].contains(x));
        let j = lemma_from_contains(tree, a, 0, x);
        let c = tree.children(a)[j];
        assert(tree.fits_under(a, tree.children(a)[j]));
        lemma_walk_within(tree, c, x);
        lemma_below_parent(tree, a, c, x);
    }
}

/// A walk that visits a node visits the children of that node.
proof fn lemma_child_walked<K>(tree: TreeModel<K>, a: int, p: int, k: int)
    requires
        tree.wf(),
        tree.valid(a),
        tree.preorder(a).contains(p),
        0 <= k < tree.children(p).len(),
    ensures
        tree.preorder(a).contains(tree.children(p)[k]),
    decreases tree.nodes.len() - a,
{
    broadcast use vstd::seq_lib::lemma_seq_concat_contains_all_elements;

    let x = tree.children(p)[k];
    if p == a {
        assert(tree.fits_under(a, tree.children(a)[k]));
        assert(tree.preorder(x)[0] == x);
        lemma_contains_from(tree, a, 0, k, x);
    } else {
        assert(!seq![a].contains(p));
        let j = lemma_from_contains(tree, a, 0, p);
        let c = tree.children(a)[j];
        assert(tree.fits_under(a, tree.children(a)[j]));
        lemma_child_walked(tree, c, p, k);
        lemma_contains_from(tree, a, 0, j, x);
    }
}

/// The walk from `a` visits what lies in the subtree of `a`.
proof fn lemma_within_walk<K>(tree: TreeModel<K>, a: int, x: int)
    requires
        tree.wf(),
        tree.valid(a),
        tree.valid(x),
        tree.below(a, x),
    ensures
        tree.preorder(a).contains(x),
    decreases x,
{
    if x == a {
        assert(tree.preorder(a)[0] == a);
    } else {
        let q = tree.parent(x)->0;
        lemma_within_walk(tree, a, q);
        let k = choose|k: int| 0 <= k < tree.children(q).len() && tree.children(q)[k] == x;
        lemma_child_walked(tree, a, q, k);
    }
}

/// No node lies in the subtrees of two children of one node.
proof fn lemma_siblings_apart<K>(tree: TreeModel<K>, p: int, j: int, k: int, x: int)
    requires
        tree.wf(),
        tree.valid(p),
        0 <= j < k < tree.children(p).len(),
        tree.below(tree.children(p)[j], x),
    ensures
        !tree.below(tree.children(p)[k], x),
    decreases x,
{
    let a = tree.children(p)[j];
    let b = tree.children(p)[k];
    assert(tree.fits_under(p, tree.children(p)[j]));
    assert(tree.fits_under(p, tree.children(p)[k]));
    assert(tree.precedes(tree.children(p)[j], tree.children(p)[k]));
    if x == a {
    } else if x == b {
        assert(!tree.below(a, p));
    } else {
        let q = tree.parent(x)->0;
        lemma_siblings_apart(tree, p, j, k, q);
    }
}

/// The subtrees of the children of `p` from number `k` on hold no node twice.
proof fn lemma_from_visits_once<K>(tree: TreeModel<K>, p: int, k: int)
    requires
        tree.wf(),
        tree.valid(p),
        0 <= k,
    ensures
        tree.preorder_from(p, k).no_duplicates(),
    decreases tree.nodes.len() - p, 0int, tree.children(p).len() - k,
{
    if k < tree.children(p).len() {
        let c = tree.children(p)[k];
        assert(tree.fits_under(p, tree.children(p)[k]));
        let first = tree.preorder(c);
        let rest = tree.preorder_from(p, k + 1);
        lemma_walk_visits_once(tree, c);
        lemma_from_visits_once(tree, p, k + 1);
        assert forall|i: int, j: int| 0 <= i < first.len() && 0 <= j < rest.len() implies first[i]
            != rest[j] by {
            if first[i] == rest[j] {
                let x = first[i];
                assert(first.contains(x));
                assert(rest.contains(x));
                lemma_walk_within(tree, c, x);
                let later = lemma_from_contains(tree, p, k + 1, x);
                assert(tree.fits_under(p, tree.children(p)[later]));
                lemma_walk_within(tree, tree.children(p)[later], x);
                lemma_siblings_apart(tree, p, k, later, x);
            }
        }
        vstd::seq_lib::lemma_no_dup_in_concat(first, rest);
    }
}

/// The walk from a node visits no node twice.
pub proof fn lemma_walk_visits_once<K>(tree: TreeModel<K>, a: int)
    requires
        tree.wf(),
        tree.valid(a),
    ensures
        tree.preorder(a).no_duplicates(),
    decreases tree.nodes.len() - a, 1int, 0int,
{
    let rest = tree.preorder_from(a, 0);
    lemma_from_visits_once(tree, a, 0);
    assert forall|i: int, j: int| 0 <= i < 1 && 0 <= j < rest.len() implies seq![a][i]
        != rest[j] by {
        if rest[j] == a {
            assert(rest.contains(a));
            let k = lemma_from_contains(tree, a, 0, a);
            assert(tree.fits_under(a, tree.children(a)[k]));
            lemma_walk_within(tree, tree.children(a)[k], a);
        }
    }
    vstd::seq_lib::lemma_no_dup_in_concat(seq![a], rest);
}

/// The walk from a node visits the nodes of its subtree, and no others: the
/// node itself, its children, their children, and so on.
pub proof fn lemma_walk_is_subtree<K>(tree: TreeModel<K>, a: int, x: int)
    requires
        tree.wf(),
        tree.valid(a),
    ensures
        tree.preorder(a).contains(x) <==> tree.valid(x) && tree.below(a, x),
{
    if tree.preorder(a).contains(x) {
        lemma_walk_within(tree, a, x);
    }
    if tree.valid(x) && tree.below(a, x) {
        lemma_within_walk(tree, a, x);
    }
}

/// What lies in the subtree of a node lies within the bytes of that node, and
/// an error that it holds is reported by that node.
pub proof fn lemma_subtree_within_node<K>(tree: TreeModel<K>, a: int, x: int)
    requires
        tree.wf(),
        tree.valid(a),
        tree.valid(x),
        tree.below(a, x),
    ensures
        tree.info(a).start_byte <= tree.info(x).start_byte,
        tree.info(x).start_byte <= tree.info(x).end_byte,
        tree.info(x).end_byte <= tree.info(a).end_byte,
        tree.info(x).has_error ==> tree.info(a).has_error,
    decreases x,
{
    assert(crate::tree::info_ok(tree.info(x)));
    if x != a {
        let q = tree.parent(x)->0;
        lemma_subtree_within_node(tree, a, q);
        let k = choose|k: int| 0 <= k < tree.children(q).len() && tree.children(q)[k] == x;
        assert(tree.fits_under(q, tree.children(q)[k]));
    }
}

/// Every node lies in the subtree of the root.
proof fn lemma_below_root<K>(tree: TreeModel<K>, x: int)
    requires
        tree.wf(),
        tree.valid(x),
    ensures
        tree.below(0, x),
    decreases x,
{
    if x != 0 {
        lemma_below_root(tree, tree.parent(x)->0);
    }
}

/// The walk from the root visits every node of the tree exactly once.
pub proof fn lemma_walk_visits_every_node_once<K>(tree: TreeModel<K>)
    requires
        tree.wf(),
    ensures
        tree.preorder(0).no_duplicates(),
        tree.preorder(0).len() == tree.len(),
        forall|x: int| tree.valid(x) <==> #[trigger] tree.preorder(0).contains(x),
{
    let walk = tree.preorder(0);
    lemma_walk_visits_once(tree, 0);
    assert forall|x: int| tree.valid(x) <==> #[trigger] walk.contains(x) by {
        if tree.valid(x) {
            lemma_below_root(tree, x);
        }
        lemma_walk_is_subtree(tree, 0, x);
    }
    assert(walk.to_set() =~= vstd::set_lib::set_int_range(0, tree.len()));
    walk.unique_seq_to_set();
    vstd::set_lib::lemma_int_range(0, tree.len());
}

/// The walk from `p` from the step at which child number `k` begins is the
/// walk of the subtrees of the children of `p` from number `k` on.
proof fn lemma_child_start<K>(tree: TreeModel<K>, p: int, k: int)
    requires
        tree.wf(),
        tree.valid(p),
        0 <= k <= tree.children(p).len(),
    ensures
        1 <= tree.child_start(p, k) <= tree.preorder(p).len(),
        tree.preorder(p).skip(tree.child_start(p, k)) == tree.preorder_from(p, k),
    decreases k,
{
    let walk = tree.preorder(p);
    if k == 0 {
        assert(walk.skip(1) =~= tree.preorder_from(p, 0));
    } else {
        lemma_child_start(tree, p, k - 1);
        let from = tree.child_start(p, k - 1);
        let c = tree.children(p)[k - 1];
        assert(tree.fits_under(p, tree.children(p)[k - 1]));
        assert(walk.skip(from) == tree.preorder(c) + tree.preorder_from(p, k));
        assert(walk.skip(from).len() == walk.len() - from);
        assert(walk.skip(from + tree.preorder(c).len()) =~= walk.skip(from).skip(
            tree.preorder(c).len() as int,
        ));
        assert(walk.skip(from).skip(tree.preorder(c).len() as int) =~= tree.preorder_from(p, k));
    }
}

/// The order of the walk. The walk from `p` visits `p` first. The subtree of
/// each child of `p` is then visited whole and in one piece, and the subtree
/// of the next child begins where that of the child before it ends; with the
/// subtree of the last child the walk ends.
pub proof fn lemma_walk_order<K>(tree: TreeModel<K>, p: int, k: int)
    requires
        tree.wf(),
        tree.valid(p),
        0 <= k < tree.children(p).len(),
    ensures
        tree.preorder(p)[0] == p,
        tree.child_start(p, 0) == 1,
        tree.child_start(p, k + 1) == tree.child_start(p, k) + tree.preorder(
            tree.children(p)[k],
        ).len(),
        tree.child_start(p, k + 1) <= tree.preorder(p).len(),
        tree.child_start(p, tree.children(p).len() as int) == tree.preorder(p).len(),
        tree.preorder(p).subrange(tree.child_start(p, k), tree.child_start(p, k + 1))
            == tree.preorder(tree.children(p)[k]),
{
    let walk = tree.preorder(p);
    let n = tree.children(p).len() as int;
    lemma_child_start(tree, p, k);
    lemma_child_start(tree, p, k + 1);
    lemma_child_start(tree, p, n);
    let from = tree.child_start(p, k);
    let to = tree.child_start(p, k + 1);
    let c = tree.children(p)[k];
    assert(tree.fits_under(p, tree.children(p)[k]));
    assert(walk.skip(from) == tree.preorder(c) + tree.preorder_from(p, k + 1));
    assert(walk.subrange(from, to) =~= walk.skip(from).take(to - from));
    assert(walk.skip(from).take(to - from) =~= tree.preorder(c));
    assert(walk.skip(tree.child_start(p, n)).len() == 0);
}

} // verus!
