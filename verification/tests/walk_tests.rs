use rust_code_analysis::{KindTable, Node, NodeInfo, Point, Rust, Tree};

fn info(kind_id: u16, start: usize, end: usize) -> NodeInfo {
    NodeInfo {
        kind_id,
        kind_name: format!("kind_{}", kind_id),
        start_byte: start,
        end_byte: end,
        start_position: Point { row: 0, column: start },
        end_position: Point { row: 0, column: end },
        has_error: false,
    }
}

/// The tree
///
/// ```text
///            0
///      1     2     3
///    4   5       6
///    7           8 9
/// ```
///
/// with the kind id of a node ten times its index, filled level by level.
fn sample() -> Tree<Rust> {
    let mut tree = Tree::new(KindTable::new(), info(0, 0, 100)).unwrap();
    assert_eq!(tree.add_child(0, info(10, 0, 30)), Ok(1));
    assert_eq!(tree.add_child(0, info(20, 30, 40)), Ok(2));
    assert_eq!(tree.add_child(0, info(30, 50, 90)), Ok(3));
    assert_eq!(tree.add_child(1, info(40, 0, 10)), Ok(4));
    assert_eq!(tree.add_child(1, info(50, 10, 30)), Ok(5));
    assert_eq!(tree.add_child(3, info(60, 50, 80)), Ok(6));
    assert_eq!(tree.add_child(4, info(70, 2, 8)), Ok(7));
    assert_eq!(tree.add_child(6, info(80, 50, 60)), Ok(8));
    assert_eq!(tree.add_child(6, info(90, 60, 80)), Ok(9));
    tree
}

fn note(seen: Vec<usize>, node: &Node<Rust>) -> Vec<usize> {
    let mut seen = seen;
    seen.push(node.id());
    seen
}

#[test]
fn walk_visits_parent_before_children_and_children_in_turn() {
    let tree = sample();
    let order = tree.root().act_on_node(Vec::new(), note);
    assert_eq!(order, vec![0, 1, 4, 7, 5, 2, 3, 6, 8, 9]);
}

#[test]
fn walk_visits_every_node_once() {
    let tree = sample();
    let mut order = tree.root().act_on_node(Vec::new(), note);
    assert_eq!(order.len(), tree.len());
    order.sort();
    assert_eq!(order, vec![0, 1, 2, 3, 4, 5, 6, 7, 8, 9]);
}

#[test]
fn walk_from_a_node_stays_below_it() {
    let tree = sample();
    assert_eq!(tree.node(1).unwrap().act_on_node(Vec::new(), note), vec![1, 4, 7, 5]);
    assert_eq!(tree.node(3).unwrap().act_on_node(Vec::new(), note), vec![3, 6, 8, 9]);
    assert_eq!(tree.node(2).unwrap().act_on_node(Vec::new(), note), vec![2]);
    assert_eq!(tree.node(9).unwrap().act_on_node(Vec::new(), note), vec![9]);
}

#[test]
fn walk_hands_each_state_to_the_next_step() {
    let tree = sample();
    let sum = tree.root().act_on_node(0u32, |sum, node| sum * 2 + node.kind_id() as u32);
    // The kind ids in the order of the walk are 0, 10, 40, 70, 50, 20, 30, 60, 80, 90.
    assert_eq!(sum, 14810);
}

#[test]
fn walk_is_the_same_every_time() {
    let tree = sample();
    let first = tree.root().act_on_node(Vec::new(), note);
    let second = tree.root().act_on_node(Vec::new(), note);
    assert_eq!(first, second);
}

#[test]
fn first_occurence_is_the_first_match_of_the_walk() {
    let tree = sample();
    let root = tree.root();
    let order = root.act_on_node(Vec::new(), note);
    for wanted in [0u16, 10, 20, 30, 40, 50, 60, 70, 80, 90] {
        let found = root.first_occurence(|id| id >= wanted).unwrap();
        let first = order
            .iter()
            .copied()
            .find(|index| tree.node(*index).unwrap().kind_id() >= wanted)
            .unwrap();
        assert_eq!(found.id(), first);
    }
}

#[test]
fn first_occurence_prefers_the_outer_and_the_left() {
    let tree = sample();
    let root = tree.root();
    assert_eq!(root.first_occurence(|_| true).unwrap().id(), 0);
    assert_eq!(root.first_occurence(|id| id == 50 || id == 20).unwrap().id(), 5);
    assert_eq!(root.first_occurence(|id| id == 70 || id == 40).unwrap().id(), 4);
    assert_eq!(root.first_occurence(|id| id > 50).unwrap().id(), 7);
    assert_eq!(root.first_occurence(|id| id == 90 || id == 80 || id == 30).unwrap().id(), 3);
}

#[test]
fn first_occurence_finds_nothing_where_nothing_matches() {
    let tree = sample();
    assert!(tree.root().first_occurence(|id| id == 5).is_none());
    assert!(tree.root().first_occurence(|_| false).is_none());
}

#[test]
fn first_occurence_looks_at_the_node_itself_and_below_only() {
    let tree = sample();
    let node = tree.node(1).unwrap();
    assert_eq!(node.first_occurence(|id| id == 10).unwrap().id(), 1);
    assert_eq!(node.first_occurence(|id| id == 70).unwrap().id(), 7);
    assert!(node.first_occurence(|id| id == 0).is_none());
    assert!(node.first_occurence(|id| id == 20).is_none());
    assert!(node.first_occurence(|id| id == 60).is_none());
}

#[test]
fn first_occurence_can_ask_the_numbering_for_the_kind() {
    let mut kinds = KindTable::new();
    kinds.set(50, Rust::FunctionItem);
    kinds.set(80, Rust::FunctionItem);
    kinds.set(90, Rust::ClosureExpression);
    let mut tree = Tree::new(kinds, info(0, 0, 100)).unwrap();
    for (parent, kind_id, start, end) in
        [(0, 10, 0, 30), (0, 20, 30, 40), (0, 30, 50, 90), (1, 40, 0, 10), (1, 50, 10, 30), (3, 80, 50, 60), (3, 90, 60, 80)]
    {
        assert!(tree.add_child(parent, info(kind_id, start, end)).is_ok());
    }
    let kinds = tree.kinds();
    let function = tree.root().first_occurence(|id| kinds.get(id) == Some(Rust::FunctionItem));
    assert_eq!(function.unwrap().kind_id(), 50);
    let closure = tree.root().first_occurence(|id| kinds.get(id) == Some(Rust::ClosureExpression));
    assert_eq!(closure.unwrap().kind_id(), 90);
    let in_third = tree.node(3).unwrap().first_occurence(|id| kinds.get(id) == Some(Rust::FunctionItem));
    assert_eq!(in_third.unwrap().kind_id(), 80);
    assert!(tree.root().first_occurence(|id| kinds.get(id) == Some(Rust::TraitItem)).is_none());
}

#[test]
fn first_child_looks_at_the_children_only() {
    let tree = sample();
    let root = tree.root();
    assert_eq!(root.first_child(|id| id >= 20).unwrap().id(), 2);
    assert_eq!(root.first_child(|id| id == 30).unwrap().id(), 3);
    assert_eq!(root.first_child(|_| true).unwrap().id(), 1);
    assert!(root.first_child(|id| id == 0).is_none());
    assert!(root.first_child(|id| id == 40).is_none());
    assert!(tree.node(2).unwrap().first_child(|_| true).is_none());
}

#[test]
fn act_on_child_visits_the_children_from_first_to_last() {
    let tree = sample();
    assert_eq!(tree.root().act_on_child(Vec::new(), note), vec![1, 2, 3]);
    assert_eq!(tree.node(6).unwrap().act_on_child(Vec::new(), note), vec![8, 9]);
    assert_eq!(tree.node(9).unwrap().act_on_child(vec![42], note), vec![42]);
}

#[test]
fn walk_of_a_single_node() {
    let tree: Tree<Rust> = Tree::new(KindTable::new(), info(1, 0, 0)).unwrap();
    assert_eq!(tree.root().act_on_node(Vec::new(), note), vec![0]);
    assert_eq!(tree.root().act_on_node(7, |state, _| state + 1), 8);
}

#[test]
fn deep_nesting_is_walked_without_recursion() {
    let depth = 100_000;
    let mut tree: Tree<Rust> = Tree::new(KindTable::new(), info(1, 0, depth)).unwrap();
    for level in 1..=depth {
        assert_eq!(tree.add_child(level - 1, info(2, 0, depth - level)), Ok(level));
    }
    assert_eq!(tree.len(), depth + 1);
    let count = tree.root().act_on_node(0usize, |count, _| count + 1);
    assert_eq!(count, depth + 1);
    let last = tree.root().act_on_node(0usize, |_, node| node.id());
    assert_eq!(last, depth);
    let deepest = tree.root().first_occurence(|_| false);
    assert!(deepest.is_none());
    let leaf = tree.node(depth).unwrap();
    assert_eq!(leaf.end_byte(), 0);
    let found = tree.root().first_occurence(|id| id == 2).unwrap();
    assert_eq!(found.id(), 1);
}

#[test]
fn wide_tree_is_walked_in_the_order_of_the_source() {
    let width = 50_000;
    let mut tree: Tree<Rust> = Tree::new(KindTable::new(), info(1, 0, width)).unwrap();
    for child in 0..width {
        assert_eq!(tree.add_child(0, info(2, child, child + 1)), Ok(child + 1));
    }
    let order = tree.root().act_on_node(Vec::new(), note);
    assert_eq!(order.len(), width + 1);
    assert!(order.iter().copied().eq(0..=width));
}
