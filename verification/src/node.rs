//! A handle on one node of a tree, and the walks that start from it.

#![allow(unused_imports)]

use crate::tree::{indices, NodeInfo, Point, Tree, TreeModel};
use vstd::prelude::*;
use vstd::slice::slice_subrange;

verus! {

/// One node of a [`Tree`]. The handle borrows the tree and is cheap to copy.
#[derive(Clone, Copy)]
pub struct Node<'a, K> {
    tree: &'a Tree<K>,
    index: usize,
}

/// A node as it is written into a report: its kind, and where it starts and
/// ends, with lines and columns counted from one.
#[derive(Clone, Debug)]
pub struct NodeRecord {
    pub kind: u16,
    pub name: String,
    pub start_line: usize,
    pub start_column: usize,
    pub end_line: usize,
    pub end_column: usize,
}

impl<K: Copy> Tree<K> {
    /// The handle on node `index` of this tree.
    pub closed spec fn handle(&self, index: int) -> Node<'_, K> {
        Node { tree: self, index: index as usize }
    }

    /// The handle on a node of this tree points into this tree.
    pub proof fn lemma_handle(&self, index: int)
        requires
            self@.wf(),
            self@.valid(index),
        ensures
            self.handle(index).tree() == self@,
            self.handle(index).index() == index,
            self.handle(index).wf(),
    {
        self.lemma_len_fits();
    }

    /// The root of the tree.
    pub fn root(&self) -> (node: Node<'_, K>)
        requires
            self@.wf(),
        ensures
            node == self.handle(0),
            node.tree() == self@,
            node.index() == 0,
            node.wf(),
    {
        Node { tree: self, index: 0 }
    }

    /// The node with the given index, if the tree has one.
    pub fn node(&self, index: usize) -> (found: Option<Node<'_, K>>)
        requires
            self@.wf(),
        ensures
            found == (if index < self@.len() {
                Some(self.handle(index as int))
            } else {
                None
            }),
            found matches Some(node) ==> node.tree() == self@ && node.index() == index && node.wf(),
    {
        if index < self.len() {
            Some(Node { tree: self, index })
        } else {
            None
        }
    }
}

impl<'a, K: Copy> Node<'a, K> {
    /// The tree that the node belongs to.
    pub closed spec fn tree(&self) -> TreeModel<K> {
        self.tree@
    }

    /// The index of the node in its tree.
    pub closed spec fn index(&self) -> int {
        self.index as int
    }

    /// The node with index `i` in the tree of this node.
    pub closed spec fn at(&self, i: int) -> Node<'a, K> {
        Node { tree: self.tree, index: i as usize }
    }

    /// The handle points into a well-formed tree.
    pub open spec fn wf(&self) -> bool {
        self.tree().wf() && self.tree().valid(self.index())
    }

    /// What the parser reported of this node.
    pub open spec fn info(&self) -> NodeInfo {
        self.tree().info(self.index())
    }

    /// The walk from this node: the indices of the node and of all that lies
    /// below it, each node before its children and the children from first to
    /// last.
    pub open spec fn walk(&self) -> Seq<int> {
        self.tree().preorder(self.index())
    }

    /// The kind id of the node that the walk from this node visits at step `j`.
    pub open spec fn kind_id_at(&self, j: int) -> u16 {
        self.tree().info(self.walk()[j]).kind_id
    }

    /// The kind that the grammar's numbering gives to this node, if it is one
    /// that the numbering knows.
    pub open spec fn kind_spec(&self) -> Option<K> {
        self.tree().kind(self.index())
    }

    /// The kind of the node above this node, if there is a node above it and
    /// the numbering knows its kind.
    pub open spec fn parent_kind(&self) -> Option<K> {
        match self.tree().parent(self.index()) {
            Some(p) => self.tree().kind(p),
            None => None,
        }
    }

    /// The part of the source text `code` that this node covers.
    pub open spec fn text_spec(&self, code: Seq<u8>) -> Seq<u8> {
        code.subrange(self.info().start_byte as int, self.info().end_byte as int)
    }

    /// The children of this node, by index, in the order of the source.
    pub open spec fn children(&self) -> Seq<int> {
        self.tree().children(self.index())
    }

    /// The kind id of child number `k` of this node.
    pub open spec fn child_kind_id(&self, k: int) -> u16 {
        self.tree().info(self.children()[k]).kind_id
    }

    /// The record that a report holds of this node.
    pub open spec fn reported(&self, record: NodeRecord) -> bool {
        &&& record.kind == self.info().kind_id
        &&& record.name@ == self.info().kind_name@
        &&& record.start_line == self.info().start_position.row + 1
        &&& record.start_column == self.info().start_position.column + 1
        &&& record.end_line == self.info().end_position.row + 1
        &&& record.end_column == self.info().end_position.column + 1
    }

    /// The handles that a node gives out point into the node's own tree, and
    /// the handle on a node's own index is the node.
    pub proof fn lemma_at(&self, i: int)
        requires
            self.wf(),
            self.tree().valid(i),
        ensures
            self.at(i).tree() == self.tree(),
            self.at(i).index() == i,
            self.at(i).wf(),
            self.at(self.index()) == *self,
    {
        self.tree.lemma_len_fits();
    }

    /// Checks if a node represents a syntax error or contains any syntax errors
    /// anywhere within it.
    pub fn has_error(&self) -> (flag: bool)
        requires
            self.wf(),
        ensures
            flag == self.info().has_error,
    {
        self.tree.info_at(self.index).has_error
    }

    /// The index of the node in its tree.
    pub fn id(&self) -> (index: usize)
        ensures
            index == self.index(),
    {
        self.index
    }

    /// The grammar's number for the kind of this node.
    pub fn kind_id(&self) -> (id: u16)
        requires
            self.wf(),
        ensures
            id == self.info().kind_id,
    {
        self.tree.info_at(self.index).kind_id
    }

    /// The grammar's name for the kind of this node.
    pub fn kind_name(&self) -> (name: &'a str)
        requires
            self.wf(),
        ensures
            name@ == self.info().kind_name@,
    {
        self.tree.info_at(self.index).kind_name.as_str()
    }

    /// The kind that the grammar's numbering gives to this node, if it is one
    /// that the numbering knows.
    pub fn kind(&self) -> (kind: Option<K>)
        requires
            self.wf(),
        ensures
            kind == self.kind_spec(),
    {
        self.tree.kind_at(self.index)
    }

    /// Offset of the first byte of the node in the source.
    pub fn start_byte(&self) -> (offset: usize)
        requires
            self.wf(),
        ensures
            offset == self.info().start_byte,
            offset <= self.info().end_byte,
    {
        self.tree.info_at(self.index).start_byte
    }

    /// Offset just past the last byte of the node in the source.
    pub fn end_byte(&self) -> (offset: usize)
        requires
            self.wf(),
        ensures
            offset == self.info().end_byte,
            self.info().start_byte <= offset,
    {
        self.tree.info_at(self.index).end_byte
    }

    /// Where the node starts, rows and columns counted from zero.
    pub fn start_position(&self) -> (point: Point)
        requires
            self.wf(),
        ensures
            point == self.info().start_position,
    {
        self.tree.info_at(self.index).start_position
    }

    /// Where the node ends, rows and columns counted from zero.
    pub fn end_position(&self) -> (point: Point)
        requires
            self.wf(),
        ensures
            point == self.info().end_position,
    {
        self.tree.info_at(self.index).end_position
    }

    /// The node that this node is a child of; the root has none.
    pub fn parent(&self) -> (above: Option<Node<'a, K>>)
        requires
            self.wf(),
        ensures
            match above {
                Some(node) => {
                    &&& self.tree().parent(self.index()) == Some(node.index())
                    &&& node == self.at(node.index())
                    &&& node.tree() == self.tree()
                    &&& node.wf()
                },
                None => self.tree().parent(self.index()) is None,
            },
    {
        match self.tree.parent_at(self.index) {
            Some(p) => {
                assert(self.index != 0);
                Some(Node { tree: self.tree, index: p })
            },
            None => None,
        }
    }

    /// The number of children of this node.
    pub fn child_count(&self) -> (count: usize)
        requires
            self.wf(),
        ensures
            count == self.children().len(),
    {
        self.tree.children_at(self.index).len()
    }

    /// Child number `k` of this node, counted from zero in the order of the
    /// source, if the node has that many children.
    pub fn child(&self, k: usize) -> (below: Option<Node<'a, K>>)
        requires
            self.wf(),
        ensures
            match below {
                Some(node) => {
                    &&& k < self.children().len()
                    &&& node == self.at(self.children()[k as int])
                    &&& node.tree() == self.tree()
                    &&& node.wf()
                },
                None => k >= self.children().len(),
            },
    {
        let children = self.tree.children_at(self.index);
        if k < children.len() {
            let index = children[k];
            proof {
                assert(self.children()[k as int] == index as int);
                assert(self.tree().fits_under(self.index(), self.children()[k as int]));
            }
            Some(Node { tree: self.tree, index })
        } else {
            None
        }
    }

    /// The part of the source text `code` that this node covers.
    pub fn text<'b>(&self, code: &'b [u8]) -> (part: &'b [u8])
        requires
            self.wf(),
            self.info().end_byte <= code@.len(),
        ensures
            part@ == self.text_spec(code@),
    {
        let info = self.tree.info_at(self.index);
        slice_subrange(code, info.start_byte, info.end_byte)
    }

    /// The record that a report holds of this node: its kind by number and by
    /// name, and its start and end with lines and columns counted from one.
    pub fn record(&self) -> (record: NodeRecord)
        requires
            self.wf(),
        ensures
            self.reported(record),
    {
        let info = self.tree.info_at(self.index);
        NodeRecord {
            kind: info.kind_id,
            name: info.kind_name.clone(),
            start_line: info.start_position.row + 1,
            start_column: info.start_position.column + 1,
            end_line: info.end_position.row + 1,
            end_column: info.end_position.column + 1,
        }
    }
}

/// Takes the next node of a walk off the stack.
fn next<K: Copy>(tree: &Tree<K>, stack: &mut Vec<usize>) -> (index: usize)
    requires
        tree@.wf(),
        old(stack)@.len() > 0,
        forall|s: int| 0 <= s < old(stack)@.len() ==> tree@.valid(#[trigger] old(stack)@[s] as int),
    ensures
        tree@.valid(index as int),
        forall|s: int| 0 <= s < final(stack)@.len() ==> tree@.valid(#[trigger] final(stack)@[s] as int),
        old(stack)@ == final(stack)@.push(index),
        tree@.pending(indices(old(stack)@)) == seq![index as int] + tree@.preorder_from(
            index as int,
            0,
        ) + tree@.pending(indices(final(stack)@)),
{
    let ghost before = indices(stack@);
    let index = stack.pop().unwrap();
    proof {
        assert(before.last() == index as int);
        assert(before.drop_last() =~= indices(stack@));
        assert(old(stack)@ =~= stack@.push(index));
    }
    index
}

/// Puts the children of a node that a walk has visited on the stack, the first
/// child last, so that it is the next to be taken.
fn put_children<K: Copy>(tree: &Tree<K>, index: usize, stack: &mut Vec<usize>)
    requires
        tree@.wf(),
        tree@.valid(index as int),
        forall|s: int| 0 <= s < old(stack)@.len() ==> tree@.valid(#[trigger] old(stack)@[s] as int),
    ensures
        forall|s: int| 0 <= s < final(stack)@.len() ==> tree@.valid(#[trigger] final(stack)@[s] as int),
        tree@.pending(indices(final(stack)@)) == tree@.preorder_from(index as int, 0)
            + tree@.pending(indices(old(stack)@)),
{
    let ghost model = tree@;
    let ghost rest = indices(stack@);
    let children = tree.children_at(index);
    let mut k = children.len();
    proof {
        assert(model.pending(rest) =~= model.preorder_from(index as int, k as int) + model.pending(
            rest,
        ));
    }
    while k > 0
        invariant
            model == tree@,
            model.wf(),
            model.valid(index as int),
            0 <= k <= children.len(),
            indices(children@) == model.children(index as int),
            forall|s: int| 0 <= s < stack@.len() ==> model.valid(#[trigger] stack@[s] as int),
            model.pending(indices(stack@)) == model.preorder_from(index as int, k as int)
                + model.pending(rest),
        decreases k,
    {
        k -= 1;
        let child = children[k];
        let ghost below = indices(stack@);
        proof {
            assert(model.children(index as int)[k as int] == child as int);
            assert(model.fits_under(index as int, model.children(index as int)[k as int]));
        }
        stack.push(child);
        proof {
            let above = indices(stack@);
            assert(above.last() == child as int);
            assert(above.drop_last() =~= below);
            assert(model.pending(above) =~= model.preorder_from(index as int, k as int)
                + model.pending(rest));
        }
    }
}

impl<'a, K: Copy> Node<'a, K> {
    /// The nodes that the steps of `order` stand for, as handles.
    pub open spec fn handles(&self, order: Seq<int>) -> Seq<Node<'a, K>> {
        Seq::new(order.len(), |j: int| self.at(order[j]))
    }

    /// Whether `states` are the states that `action` went through while it was
    /// handed the nodes of `order` one after the other: each state but the
    /// first is what `action` made of the state before it and of one node.
    pub open spec fn threads<S, F: Fn(S, &Node<'a, K>) -> S>(
        &self,
        action: F,
        order: Seq<int>,
        states: Seq<S>,
    ) -> bool {
        &&& states.len() == order.len() + 1
        &&& forall|j: int|
            0 <= j < order.len() ==> call_ensures(
                action,
                (#[trigger] states[j], &self.handles(order)[j]),
                states[j + 1],
            )
    }

    /// Searches the node and all that lies below it, in the order of the walk,
    /// for the first node whose kind id satisfies `pred`.
    ///
    /// The search keeps the nodes it has yet to visit on a stack of its own, so
    /// that its depth is bounded by memory and not by the call stack.
    pub fn first_occurence<F: Fn(u16) -> bool>(&self, pred: F) -> (found: Option<Node<'a, K>>)
        requires
            self.wf(),
            forall|j: int| 0 <= j < self.walk().len() ==> call_requires(pred, (self.kind_id_at(j),)),
        ensures
            match found {
                Some(node) => exists|j: int|
                    {
                        &&& 0 <= j < self.walk().len()
                        &&& node == self.at(#[trigger] self.walk()[j])
                        &&& node.wf()
                        &&& call_ensures(pred, (self.kind_id_at(j),), true)
                        &&& forall|i: int|
                            0 <= i < j ==> call_ensures(pred, (#[trigger] self.kind_id_at(i),), false)
                    },
                None => forall|i: int|
                    0 <= i < self.walk().len() ==> call_ensures(
                        pred,
                        (#[trigger] self.kind_id_at(i),),
                        false,
                    ),
            },
    {
        let tree = self.tree;
        let ghost order = self.walk();
        let ghost mut done: int = 0;
        let mut stack: Vec<usize> = Vec::new();
        stack.push(self.index);
        proof {
            lemma_pending_one(tree@, self.index as int);
            assert(indices(stack@) =~= seq![self.index as int]);
            assert(order.skip(0) =~= order);
        }
        while stack.len() > 0
            invariant
                tree == self.tree,
                tree@.wf(),
                order == self.walk(),
                0 <= done <= order.len(),
                forall|s: int| 0 <= s < stack@.len() ==> tree@.valid(#[trigger] stack@[s] as int),
                order.skip(done) == tree@.pending(indices(stack@)),
                forall|j: int|
                    0 <= j < order.len() ==> call_requires(pred, (self.kind_id_at(j),)),
                forall|i: int|
                    0 <= i < done ==> call_ensures(pred, (#[trigger] self.kind_id_at(i),), false),
            decreases order.len() - done,
        {
            let ghost ahead = tree@.pending(indices(stack@));
            let index = next(tree, &mut stack);
            proof {
                assert(ahead[0] == index as int);
                assert(order.skip(done).len() == order.len() - done);
                assert(order.skip(done)[0] == order[done]);
                assert(call_requires(pred, (self.kind_id_at(done),)));
            }
            if pred(tree.info_at(index).kind_id) {
                let node = Node { tree, index };
                assert(node == self.at(self.walk()[done]));
                return Some(node);
            }
            put_children(tree, index, &mut stack);
            proof {
                assert(order.skip(done + 1) =~= order.skip(done).skip(1));
                assert(order.skip(done).skip(1) =~= tree@.pending(indices(stack@)));
                done = done + 1;
            }
        }
        proof {
            assert(indices(stack@) =~= Seq::<int>::empty());
            assert(order.skip(done).len() == 0);
        }
        None
    }

    /// Searches the children of the node, from the first to the last, for the
    /// first whose kind id satisfies `pred`. It does not look below them.
    pub fn first_child<F: Fn(u16) -> bool>(&self, pred: F) -> (found: Option<Node<'a, K>>)
        requires
            self.wf(),
            forall|k: int|
                0 <= k < self.children().len() ==> call_requires(pred, (self.child_kind_id(k),)),
        ensures
            match found {
                Some(node) => exists|k: int|
                    {
                        &&& 0 <= k < self.children().len()
                        &&& node == self.at(#[trigger] self.children()[k])
                        &&& node.wf()
                        &&& call_ensures(pred, (self.child_kind_id(k),), true)
                        &&& forall|i: int|
                            0 <= i < k ==> call_ensures(
                                pred,
                                (#[trigger] self.child_kind_id(i),),
                                false,
                            )
                    },
                None => forall|i: int|
                    0 <= i < self.children().len() ==> call_ensures(
                        pred,
                        (#[trigger] self.child_kind_id(i),),
                        false,
                    ),
            },
    {
        let tree = self.tree;
        let children = tree.children_at(self.index);
        let mut k: usize = 0;
        while k < children.len()
            invariant
                tree == self.tree,
                self.wf(),
                0 <= k <= children.len(),
                indices(children@) == self.children(),
                forall|k: int|
                    0 <= k < self.children().len() ==> call_requires(
                        pred,
                        (self.child_kind_id(k),),
                    ),
                forall|i: int|
                    0 <= i < k ==> call_ensures(pred, (#[trigger] self.child_kind_id(i),), false),
            decreases children.len() - k,
        {
            let index = children[k];
            proof {
                assert(self.children()[k as int] == index as int);
                assert(self.tree().fits_under(self.index(), self.children()[k as int]));
                assert(call_requires(pred, (self.child_kind_id(k as int),)));
            }
            if pred(tree.info_at(index).kind_id) {
                let node = Node { tree, index };
                assert(node == self.at(self.children()[k as int]));
                return Some(node);
            }
            k += 1;
        }
        None
    }

    /// Hands each child of the node to `action`, once, from the first to the
    /// last, together with what `action` made of the children before it. It
    /// does not go below them. Returns what `action` made of the last child.
    pub fn act_on_child<S, F: Fn(S, &Node<'a, K>) -> S>(&self, start: S, action: F) -> (end: S)
        requires
            self.wf(),
            forall|state: S, k: int|
                0 <= k < self.children().len() ==> call_requires(
                    action,
                    (state, &#[trigger] self.handles(self.children())[k]),
                ),
        ensures
            exists|states: Seq<S>|
                {
                    &&& #[trigger] self.threads(action, self.children(), states)
                    &&& states.first() == start
                    &&& states.last() == end
                },
    {
        let tree = self.tree;
        let children = tree.children_at(self.index);
        let ghost order = self.children();
        let ghost mut states: Seq<S> = seq![start];
        let mut state = start;
        let mut k: usize = 0;
        while k < children.len()
            invariant
                tree == self.tree,
                self.wf(),
                0 <= k <= children.len(),
                order == self.children(),
                indices(children@) == order,
                states.len() == k + 1,
                states.first() == start,
                states.last() == state,
                forall|state: S, k: int|
                    0 <= k < order.len() ==> call_requires(
                        action,
                        (state, &#[trigger] self.handles(order)[k]),
                    ),
                forall|j: int|
                    0 <= j < k ==> call_ensures(
                        action,
                        (#[trigger] states[j], &self.handles(order)[j]),
                        states[j + 1],
                    ),
            decreases children.len() - k,
        {
            let node = Node { tree, index: children[k] };
            proof {
                assert(order[k as int] == children[k as int] as int);
                assert(node == self.handles(order)[k as int]);
            }
            state = action(state, &node);
            proof {
                states = states.push(state);
            }
            k += 1;
        }
        proof {
            assert(self.threads(action, self.children(), states));
        }
        state
    }

    /// Walks the node and all that lies below it and hands each node to
    /// `action`, once, together with what `action` made of the nodes before
    /// it. A node is visited before its children, and the children from the
    /// first to the last. Returns what `action` made of the last node.
    ///
    /// The walk keeps the nodes it has yet to visit on a stack of its own, so
    /// that its depth is bounded by memory and not by the call stack.
    pub fn act_on_node<S, F: Fn(S, &Node<'a, K>) -> S>(&self, start: S, action: F) -> (end: S)
        requires
            self.wf(),
            forall|state: S, j: int|
                0 <= j < self.walk().len() ==> call_requires(
                    action,
                    (state, &#[trigger] self.handles(self.walk())[j]),
                ),
        ensures
            exists|states: Seq<S>|
                {
                    &&& #[trigger] self.threads(action, self.walk(), states)
                    &&& states.first() == start
                    &&& states.last() == end
                },
    {
        let tree = self.tree;
        let ghost order = self.walk();
        let ghost mut states: Seq<S> = seq![start];
        let mut state = start;
        let mut stack: Vec<usize> = Vec::new();
        stack.push(self.index);
        proof {
            lemma_pending_one(tree@, self.index as int);
            assert(indices(stack@) =~= seq![self.index as int]);
            assert(order.skip(0) =~= order);
        }
        while stack.len() > 0
            invariant
                tree == self.tree,
                tree@.wf(),
                order == self.walk(),
                1 <= states.len() <= order.len() + 1,
                states.first() == start,
                states.last() == state,
                forall|s: int| 0 <= s < stack@.len() ==> tree@.valid(#[trigger] stack@[s] as int),
                order.skip(states.len() - 1) == tree@.pending(indices(stack@)),
                forall|state: S, j: int|
                    0 <= j < order.len() ==> call_requires(
                        action,
                        (state, &#[trigger] self.handles(order)[j]),
                    ),
                forall|j: int|
                    0 <= j < states.len() - 1 ==> call_ensures(
                        action,
                        (#[trigger] states[j], &self.handles(order)[j]),
                        states[j + 1],
                    ),
            decreases order.len() + 1 - states.len(),
        {
            let ghost done = states.len() - 1;
            let ghost ahead = tree@.pending(indices(stack@));
            let index = next(tree, &mut stack);
            let node = Node { tree, index };
            proof {
                assert(ahead[0] == index as int);
                assert(order.skip(done).len() == order.len() - done);
                assert(order.skip(done)[0] == order[done]);
                assert(node == self.handles(order)[done]);
            }
            state = action(state, &node);
            put_children(tree, index, &mut stack);
            proof {
                assert(order.skip(done + 1) =~= order.skip(done).skip(1));
                assert(order.skip(done).skip(1) =~= tree@.pending(indices(stack@)));
                states = states.push(state);
            }
        }
        proof {
            assert(indices(stack@) =~= Seq::<int>::empty());
            assert(order.skip(states.len() - 1).len() == 0);
            assert(self.threads(action, self.walk(), states));
        }
        state
    }
}

/// A walk that has the root of one subtree put aside has that subtree to visit.
proof fn lemma_pending_one<K>(tree: TreeModel<K>, index: int)
    ensures
        tree.pending(seq![index]) == tree.preorder(index),
{
    assert(seq![index].drop_last() =~= Seq::<int>::empty());
    assert(tree.pending(seq![index]) =~= tree.preorder(index)) by {
        reveal_with_fuel(TreeModel::pending, 2);
    }
}

} // verus!
