//! The syntax tree as the library keeps it: an arena of nodes in which every
//! node but the root is listed, once, among the children of an earlier node.

use vstd::prelude::*;

verus! {

/// A place in the source text. Rows and columns count from zero.
#[derive(Clone, Copy, Debug, PartialEq, Eq, Structural)]
pub struct Point {
    pub row: usize,
    pub column: usize,
}

/// What the parser reports of a single node.
#[derive(Clone, Debug)]
pub struct NodeInfo {
    /// The grammar's number for the kind of this node.
    pub kind_id: u16,
    /// The grammar's name for the kind of this node.
    pub kind_name: String,
    /// Offset of the first byte of the node in the source.
    pub start_byte: usize,
    /// Offset just past the last byte of the node in the source.
    pub end_byte: usize,
    pub start_position: Point,
    pub end_position: Point,
    /// Whether the node, or anything below it, was not cleanly parsed.
    pub has_error: bool,
}

/// Why a node was not taken into a tree.
#[derive(Clone, Copy, Debug, PartialEq, Eq, Structural)]
pub enum TreeError {
    /// The parent index names no node of the tree.
    UnknownParent,
    /// The node ends before it starts.
    InvertedSpan,
    /// A row or column is too large to be counted from one.
    PositionOutOfRange,
    /// The node reaches outside the bytes of its parent.
    OutsideParent,
    /// The node starts before the previous child of its parent ends.
    OverlapsSibling,
    /// The node holds an error that its parent does not report.
    UnreportedError,
}

/// A node of the mathematical model of a tree.
pub struct NodeModel {
    pub info: NodeInfo,
    pub parent: Option<int>,
    pub children: Seq<int>,
}

/// The mathematical model of a tree: its nodes by index, the root first, and
/// the kinds that its grammar's numbering stands for.
pub struct TreeModel<K> {
    pub nodes: Seq<NodeModel>,
    pub kinds: Map<u16, K>,
}

/// Indices as they stand in a vector, read as integers.
pub open spec fn indices(v: Seq<usize>) -> Seq<int> {
    v.map_values(|i: usize| i as int)
}

/// Whether the parser's report of a node is consistent in itself.
pub open spec fn info_ok(info: NodeInfo) -> bool {
    &&& info.start_byte <= info.end_byte
    &&& info.start_position.row < usize::MAX
    &&& info.start_position.column < usize::MAX
    &&& info.end_position.row < usize::MAX
    &&& info.end_position.column < usize::MAX
}

impl<K> TreeModel<K> {
    pub open spec fn len(self) -> int {
        self.nodes.len() as int
    }

    pub open spec fn valid(self, i: int) -> bool {
        0 <= i < self.nodes.len()
    }

    pub open spec fn info(self, i: int) -> NodeInfo {
        self.nodes[i].info
    }

    pub open spec fn parent(self, i: int) -> Option<int> {
        self.nodes[i].parent
    }

    pub open spec fn children(self, i: int) -> Seq<int> {
        self.nodes[i].children
    }

    /// The kind that the grammar gives to node `i`, if the table knows its id.
    pub open spec fn kind(self, i: int) -> Option<K> {
        let id = self.info(i).kind_id;
        if self.kinds.dom().contains(id) {
            Some(self.kinds[id])
        } else {
            None
        }
    }

    /// Node `c`, listed among the children of `p`, fits under `p`.
    pub open spec fn fits_under(self, p: int, c: int) -> bool {
        &&& p < c < self.nodes.len()
        &&& self.parent(c) == Some(p)
        &&& self.info(p).start_byte <= self.info(c).start_byte
        &&& self.info(c).end_byte <= self.info(p).end_byte
        &&& (self.info(c).has_error ==> self.info(p).has_error)
    }

    /// Node `a` stands before node `b`, both children of one node.
    pub open spec fn precedes(self, a: int, b: int) -> bool {
        &&& a < b
        &&& self.info(a).end_byte <= self.info(b).start_byte
    }

    /// The tree's invariant. Node 0 is the root and has no parent. Every other
    /// node has an earlier node as its parent and is listed among that node's
    /// children. Children lie inside the bytes of their parent, in the order
    /// of the source, without overlap, and an error below is reported above.
    pub open spec fn wf(self) -> bool {
        &&& self.nodes.len() > 0
        &&& self.parent(0) is None
        &&& forall|i: int| 0 <= i < self.nodes.len() ==> info_ok(#[trigger] self.info(i))
        &&& forall|i: int|
            0 < i < self.nodes.len() ==> (#[trigger] self.parent(i) matches Some(p) && 0 <= p < i
                && self.children(p).contains(i))
        &&& forall|p: int, k: int|
            0 <= p < self.nodes.len() && 0 <= k < self.children(p).len() ==> self.fits_under(
                p,
                #[trigger] self.children(p)[k],
            )
        &&& forall|p: int, j: int, k: int|
            0 <= p < self.nodes.len() && 0 <= j < k < self.children(p).len() ==> self.precedes(
                #[trigger] self.children(p)[j],
                #[trigger] self.children(p)[k],
            )
    }

    /// The tree of a single node.
    pub open spec fn single(kinds: Map<u16, K>, info: NodeInfo) -> TreeModel<K> {
        TreeModel { nodes: seq![NodeModel { info, parent: None, children: Seq::empty() }], kinds }
    }

    /// The tree with one more node, the new last child of `parent`.
    pub open spec fn with_child(self, parent: int, info: NodeInfo) -> TreeModel<K> {
        let above = self.nodes[parent];
        let grown = NodeModel { children: above.children.push(self.len()), ..above };
        let leaf = NodeModel { info, parent: Some(parent), children: Seq::empty() };
        TreeModel { nodes: self.nodes.update(parent, grown).push(leaf), kinds: self.kinds }
    }

    /// Why `info` cannot become the next child of `parent`, if it cannot.
    pub open spec fn refusal(self, parent: int, info: NodeInfo) -> Option<TreeError> {
        if !self.valid(parent) {
            Some(TreeError::UnknownParent)
        } else if info.start_byte > info.end_byte {
            Some(TreeError::InvertedSpan)
        } else if !info_ok(info) {
            Some(TreeError::PositionOutOfRange)
        } else if info.start_byte < self.info(parent).start_byte || info.end_byte > self.info(
            parent,
        ).end_byte {
            Some(TreeError::OutsideParent)
        } else if self.children(parent).len() > 0 && info.start_byte < self.info(
            self.children(parent).last(),
        ).end_byte {
            Some(TreeError::OverlapsSibling)
        } else if info.has_error && !self.info(parent).has_error {
            Some(TreeError::UnreportedError)
        } else {
            None
        }
    }
}

/// A grammar's numbering of the kinds that a checker knows: for a kind id, the
/// kind it stands for.
pub struct KindTable<K> {
    slots: Vec<Option<K>>,
}

impl<K: Copy> View for KindTable<K> {
    type V = Map<u16, K>;

    closed spec fn view(&self) -> Map<u16, K> {
        Map::new(
            |id: u16| (id as int) < self.slots@.len() && self.slots@[id as int] is Some,
            |id: u16| self.slots@[id as int]->0,
        )
    }
}

impl<K: Copy> KindTable<K> {
    /// The table that knows no kind id.
    pub fn new() -> (table: Self)
        ensures
            table@ == Map::<u16, K>::empty(),
    {
        let table = KindTable { slots: Vec::new() };
        assert(table@ =~= Map::<u16, K>::empty());
        table
    }

    /// Lets `kind_id` stand for `kind`, whatever it stood for before.
    pub fn set(&mut self, kind_id: u16, kind: K)
        ensures
            final(self)@ == old(self)@.insert(kind_id, kind),
    {
        let at = kind_id as usize;
        while self.slots.len() <= at
            invariant
                at == kind_id as usize,
                self@ == old(self)@,
            decreases at + 1 - self.slots.len(),
        {
            let ghost before = self@;
            self.slots.push(None);
            assert(self@ =~= before);
        }
        let ghost before = self@;
        self.slots[at] = Some(kind);
        assert(self@ =~= before.insert(kind_id, kind));
    }

    /// The kind that `kind_id` stands for.
    pub fn get(&self, kind_id: u16) -> (kind: Option<K>)
        ensures
            kind == (if self@.dom().contains(kind_id) {
                Some(self@[kind_id])
            } else {
                None
            }),
    {
        let at = kind_id as usize;
        if at < self.slots.len() {
            self.slots[at]
        } else {
            None
        }
    }
}

/// A node as the tree keeps it: what the parser reported of it, the index of
/// its parent, and the indices of its children in the order of the source.
struct Entry {
    info: NodeInfo,
    parent: Option<usize>,
    children: Vec<usize>,
}

impl Entry {
    /// The node with its indices read as integers.
    spec fn model(self) -> NodeModel {
        NodeModel {
            info: self.info,
            parent: match self.parent {
                Some(p) => Some(p as int),
                None => None,
            },
            children: indices(self.children@),
        }
    }
}

/// A syntax tree: the nodes that a parser produced for one source text, and
/// the numbering of the grammar that produced them.
///
/// The tree is built from the root down: [`Tree::new`] takes the root, and
/// [`Tree::add_child`] hangs a node below one that the tree already holds.
pub struct Tree<K> {
    entries: Vec<Entry>,
    kinds: KindTable<K>,
}

impl<K: Copy> View for Tree<K> {
    type V = TreeModel<K>;

    closed spec fn view(&self) -> TreeModel<K> {
        TreeModel { nodes: self.entries@.map_values(|e: Entry| e.model()), kinds: self.kinds@ }
    }
}

impl<K: Copy> Tree<K> {
    /// The tree that holds `root` alone, read with the numbering `kinds`.
    pub fn new(kinds: KindTable<K>, root: NodeInfo) -> (made: Result<Self, TreeError>)
        ensures
            match made {
                Ok(tree) => info_ok(root) && tree@ == TreeModel::single(kinds@, root)
                    && tree@.wf(),
                Err(e) => !info_ok(root) && e == (if root.start_byte > root.end_byte {
                    TreeError::InvertedSpan
                } else {
                    TreeError::PositionOutOfRange
                }),
            },
    {
        if root.start_byte > root.end_byte {
            return Err(TreeError::InvertedSpan);
        }
        if root.start_position.row == usize::MAX || root.start_position.column == usize::MAX
            || root.end_position.row == usize::MAX || root.end_position.column == usize::MAX {
            return Err(TreeError::PositionOutOfRange);
        }
        let mut entries: Vec<Entry> = Vec::new();
        entries.push(Entry { info: root, parent: None, children: Vec::new() });
        let tree = Tree { entries, kinds };
        proof {
            assert(tree@.nodes[0].children =~= Seq::<int>::empty());
            assert(tree@.nodes =~= TreeModel::single(kinds@, root).nodes);
        }
        Ok(tree)
    }

    /// A tree has no more nodes than a machine can count.
    pub proof fn lemma_len_fits(&self)
        ensures
            self@.len() <= usize::MAX,
    {
        assert(self.entries.len() == self.entries@.len());
    }

    /// The number of nodes in the tree.
    pub fn len(&self) -> (n: usize)
        ensures
            n == self@.len(),
    {
        self.entries.len()
    }

    /// The numbering with which the tree is read.
    pub fn kinds(&self) -> (table: &KindTable<K>)
        ensures
            table@ == self@.kinds,
    {
        &self.kinds
    }

    /// What the parser reported of node `index`.
    pub(crate) fn info_at(&self, index: usize) -> (info: &NodeInfo)
        requires
            index < self@.len(),
        ensures
            *info == self@.info(index as int),
    {
        &self.entries[index].info
    }

    /// The parent of node `index`.
    pub(crate) fn parent_at(&self, index: usize) -> (parent: Option<usize>)
        requires
            index < self@.len(),
        ensures
            match parent {
                Some(p) => self@.parent(index as int) == Some(p as int),
                None => self@.parent(index as int) is None,
            },
    {
        self.entries[index].parent
    }

    /// The children of node `index`, in the order of the source.
    pub(crate) fn children_at(&self, index: usize) -> (children: &Vec<usize>)
        requires
            index < self@.len(),
        ensures
            indices(children@) == self@.children(index as int),
    {
        &self.entries[index].children
    }

    /// The kind that the grammar gives to node `index`.
    pub(crate) fn kind_at(&self, index: usize) -> (kind: Option<K>)
        requires
            index < self@.len(),
        ensures
            kind == self@.kind(index as int),
    {
        self.kinds.get(self.entries[index].info.kind_id)
    }

    /// Hangs a node below `parent`, after the children that `parent` already
    /// has, and returns its index. A node that would break the tree's invariant
    /// is refused, and the tree stays as it was.
    pub fn add_child(&mut self, parent: usize, info: NodeInfo) -> (added: Result<usize, TreeError>)
        requires
            old(self)@.wf(),
        ensures
            final(self)@.wf(),
            match added {
                Ok(index) => {
                    &&& old(self)@.refusal(parent as int, info) is None
                    &&& index == old(self)@.len()
                    &&& final(self)@ == old(self)@.with_child(parent as int, info)
                },
                Err(e) => {
                    &&& old(self)@.refusal(parent as int, info) == Some(e)
                    &&& final(self)@ == old(self)@
                },
            },
    {
        if parent >= self.entries.len() {
            return Err(TreeError::UnknownParent);
        }
        if info.start_byte > info.end_byte {
            return Err(TreeError::InvertedSpan);
        }
        if info.start_position.row == usize::MAX || info.start_position.column == usize::MAX
            || info.end_position.row == usize::MAX || info.end_position.column == usize::MAX {
            return Err(TreeError::PositionOutOfRange);
        }
        let above = &self.entries[parent];
        if info.start_byte < above.info.start_byte || info.end_byte > above.info.end_byte {
            return Err(TreeError::OutsideParent);
        }
        let siblings = above.children.len();
        assert(self@.children(parent as int).len() == siblings);
        if siblings > 0 {
            let last = above.children[siblings - 1];
            assert(self@.children(parent as int).last() == last as int);
            assert(self@.fits_under(parent as int, self@.children(parent as int)[siblings - 1]));
            if info.start_byte < self.entries[last].info.end_byte {
                return Err(TreeError::OverlapsSibling);
            }
        }
        if info.has_error && !above.info.has_error {
            return Err(TreeError::UnreportedError);
        }
        let ghost before = self@;
        let index = self.entries.len();
        self.entries[parent].children.push(index);
        self.entries.push(Entry { info, parent: Some(parent), children: Vec::new() });
        proof {
            let after = self@;
            let want = before.with_child(parent as int, info);
            assert(after.nodes.len() == want.nodes.len());
            assert forall|i: int| 0 <= i < after.nodes.len() implies after.nodes[i]
                == want.nodes[i] by {
                if i == parent as int {
                    assert(after.nodes[i].children =~= want.nodes[i].children);
                } else if i == index as int {
                    assert(after.nodes[i].children =~= want.nodes[i].children);
                }
            }
            assert(after.nodes =~= want.nodes);
            assert(after == want);
            lemma_with_child_wf(before, parent as int, info);
        }
        Ok(index)
    }
}

/// Hanging an acceptable node below a node of a well-formed tree leaves the
/// tree well-formed.
pub proof fn lemma_with_child_wf<K>(tree: TreeModel<K>, parent: int, info: NodeInfo)
    requires
        tree.wf(),
        tree.refusal(parent, info) is None,
    ensures
        tree.with_child(parent, info).wf(),
{
    let grown = tree.with_child(parent, info);
    let n = tree.len();
    assert(grown.nodes.len() == n + 1);
    assert forall|i: int| 0 <= i < grown.nodes.len() implies info_ok(
        #[trigger] grown.info(i),
    ) by {
        if i < n {
            assert(grown.info(i) == tree.info(i));
        }
    }
    assert forall|i: int| 0 < i < grown.nodes.len() implies (#[trigger] grown.parent(i) matches Some(
        p,
    ) && 0 <= p < i && grown.children(p).contains(i)) by {
        if i < n {
            assert(grown.parent(i) == tree.parent(i));
            let p = tree.parent(i)->0;
            let k = choose|k: int| 0 <= k < tree.children(p).len() && tree.children(p)[k] == i;
            if p == parent {
                assert(grown.children(p)[k] == i);
            } else {
                assert(grown.children(p)[k] == i);
            }
        } else {
            assert(grown.children(parent)[tree.children(parent).len() as int] == i);
        }
    }
    assert forall|p: int, k: int|
        0 <= p < grown.nodes.len() && 0 <= k < grown.children(p).len() implies grown.fits_under(
        p,
        #[trigger] grown.children(p)[k],
    ) by {
        if p == parent && k == tree.children(parent).len() {
        } else {
            assert(grown.children(p)[k] == tree.children(p)[k]);
            assert(tree.fits_under(p, tree.children(p)[k]));
        }
    }
    assert forall|p: int, j: int, k: int|
        0 <= p < grown.nodes.len() && 0 <= j < k < grown.children(p).len() implies grown.precedes(
        #[trigger] grown.children(p)[j],
        #[trigger] grown.children(p)[k],
    ) by {
        if p == parent && k == tree.children(parent).len() {
            let last = tree.children(parent).last();
            assert(tree.fits_under(parent, tree.children(parent)[j]));
            assert(tree.fits_under(parent, last));
            if j < k - 1 {
                assert(tree.precedes(tree.children(parent)[j], tree.children(parent)[k - 1]));
            }
        } else {
            assert(grown.children(p)[j] == tree.children(p)[j]);
            assert(grown.children(p)[k] == tree.children(p)[k]);
            assert(tree.precedes(tree.children(p)[j], tree.children(p)[k]));
            assert(tree.fits_under(p, tree.children(p)[j]));
            assert(tree.fits_under(p, tree.children(p)[k]));
        }
    }
}

} // verus!
