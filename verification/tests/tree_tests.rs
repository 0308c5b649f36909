use rust_code_analysis::{KindTable, NodeInfo, Point, Rust, Tree, TreeError};

fn info(kind_id: u16, name: &str, start: usize, end: usize) -> NodeInfo {
    NodeInfo {
        kind_id,
        kind_name: name.to_string(),
        start_byte: start,
        end_byte: end,
        start_position: Point { row: 0, column: start },
        end_position: Point { row: 0, column: end },
        has_error: false,
    }
}

fn small_tree() -> Tree<Rust> {
    let mut kinds = KindTable::new();
    kinds.set(5, Rust::SourceFile);
    kinds.set(9, Rust::FunctionItem);
    let mut tree = Tree::new(kinds, info(5, "source_file", 0, 40)).unwrap();
    assert_eq!(tree.add_child(0, info(9, "function_item", 0, 10)), Ok(1));
    assert_eq!(tree.add_child(0, info(9, "function_item", 12, 30)), Ok(2));
    tree
}

#[test]
fn kind_table_knows_what_was_set() {
    let mut kinds: KindTable<Rust> = KindTable::new();
    assert_eq!(kinds.get(0), None);
    assert_eq!(kinds.get(300), None);
    kinds.set(300, Rust::TokenTree);
    kinds.set(2, Rust::LineComment);
    assert_eq!(kinds.get(300), Some(Rust::TokenTree));
    assert_eq!(kinds.get(2), Some(Rust::LineComment));
    assert_eq!(kinds.get(3), None);
    assert_eq!(kinds.get(301), None);
    assert_eq!(kinds.get(u16::MAX), None);
}

#[test]
fn kind_table_set_replaces() {
    let mut kinds: KindTable<Rust> = KindTable::new();
    kinds.set(7, Rust::LineComment);
    kinds.set(7, Rust::BlockComment);
    assert_eq!(kinds.get(7), Some(Rust::BlockComment));
    kinds.set(u16::MAX, Rust::Where);
    assert_eq!(kinds.get(u16::MAX), Some(Rust::Where));
    assert_eq!(kinds.get(7), Some(Rust::BlockComment));
}

#[test]
fn new_tree_holds_the_root_alone() {
    let tree: Tree<Rust> = Tree::new(KindTable::new(), info(1, "source_file", 3, 10)).unwrap();
    assert_eq!(tree.len(), 1);
    let root = tree.root();
    assert_eq!(root.id(), 0);
    assert_eq!(root.kind_id(), 1);
    assert_eq!(root.kind_name(), "source_file");
    assert_eq!(root.start_byte(), 3);
    assert_eq!(root.end_byte(), 10);
    assert_eq!(root.child_count(), 0);
    assert!(root.parent().is_none());
    assert!(root.child(0).is_none());
    assert_eq!(root.kind(), None);
}

#[test]
fn new_tree_refuses_an_inverted_root() {
    let made: Result<Tree<Rust>, TreeError> = Tree::new(KindTable::new(), info(1, "x", 5, 4));
    assert_eq!(made.err(), Some(TreeError::InvertedSpan));
}

#[test]
fn new_tree_refuses_a_position_out_of_range() {
    let mut root = info(1, "x", 0, 4);
    root.end_position.row = usize::MAX;
    let made: Result<Tree<Rust>, TreeError> = Tree::new(KindTable::new(), root);
    assert_eq!(made.err(), Some(TreeError::PositionOutOfRange));
}

#[test]
fn new_tree_names_the_inverted_span_first() {
    let mut root = info(1, "x", 5, 4);
    root.start_position.column = usize::MAX;
    let made: Result<Tree<Rust>, TreeError> = Tree::new(KindTable::new(), root);
    assert_eq!(made.err(), Some(TreeError::InvertedSpan));
}

#[test]
fn add_child_returns_the_next_index() {
    let mut tree = small_tree();
    assert_eq!(tree.len(), 3);
    assert_eq!(tree.add_child(2, info(3, "block", 14, 30)), Ok(3));
    assert_eq!(tree.add_child(1, info(3, "block", 2, 10)), Ok(4));
    assert_eq!(tree.len(), 5);
    let first = tree.node(1).unwrap();
    assert_eq!(first.child_count(), 1);
    assert_eq!(first.child(0).unwrap().id(), 4);
    assert_eq!(tree.node(4).unwrap().parent().unwrap().id(), 1);
    assert_eq!(tree.node(3).unwrap().parent().unwrap().id(), 2);
}

#[test]
fn children_keep_the_order_in_which_they_came() {
    let tree = small_tree();
    let root = tree.root();
    assert_eq!(root.child_count(), 2);
    assert_eq!(root.child(0).unwrap().id(), 1);
    assert_eq!(root.child(1).unwrap().id(), 2);
    assert!(root.child(2).is_none());
    assert_eq!(root.child(1).unwrap().start_byte(), 12);
}

#[test]
fn add_child_refuses_an_unknown_parent() {
    let mut tree = small_tree();
    assert_eq!(tree.add_child(3, info(3, "block", 0, 1)), Err(TreeError::UnknownParent));
    assert_eq!(tree.add_child(usize::MAX, info(3, "block", 0, 1)), Err(TreeError::UnknownParent));
    assert_eq!(tree.len(), 3);
}

#[test]
fn add_child_refuses_an_inverted_span() {
    let mut tree = small_tree();
    assert_eq!(tree.add_child(2, info(3, "block", 20, 19)), Err(TreeError::InvertedSpan));
    assert_eq!(tree.len(), 3);
    assert_eq!(tree.node(2).unwrap().child_count(), 0);
}

#[test]
fn add_child_refuses_a_position_out_of_range() {
    let mut tree = small_tree();
    let mut child = info(3, "block", 14, 20);
    child.start_position.column = usize::MAX;
    assert_eq!(tree.add_child(2, child), Err(TreeError::PositionOutOfRange));
    let mut child = info(3, "block", 14, 20);
    child.start_position.row = usize::MAX;
    assert_eq!(tree.add_child(2, child), Err(TreeError::PositionOutOfRange));
    let mut child = info(3, "block", 14, 20);
    child.end_position.column = usize::MAX;
    assert_eq!(tree.add_child(2, child), Err(TreeError::PositionOutOfRange));
    let mut child = info(3, "block", 14, 20);
    child.end_position.row = usize::MAX - 1;
    assert_eq!(tree.add_child(2, child), Ok(3));
}

#[test]
fn add_child_refuses_a_node_outside_its_parent() {
    let mut tree = small_tree();
    assert_eq!(tree.add_child(2, info(3, "block", 11, 20)), Err(TreeError::OutsideParent));
    assert_eq!(tree.add_child(2, info(3, "block", 20, 31)), Err(TreeError::OutsideParent));
    assert_eq!(tree.add_child(2, info(3, "block", 12, 30)), Ok(3));
}

#[test]
fn add_child_refuses_a_node_that_overlaps_its_sibling() {
    let mut tree = small_tree();
    assert_eq!(tree.add_child(0, info(3, "block", 29, 35)), Err(TreeError::OverlapsSibling));
    assert_eq!(tree.add_child(0, info(3, "block", 5, 6)), Err(TreeError::OverlapsSibling));
    assert_eq!(tree.len(), 3);
    assert_eq!(tree.root().child_count(), 2);
    assert_eq!(tree.add_child(0, info(3, "block", 30, 30)), Ok(3));
    assert_eq!(tree.add_child(0, info(3, "block", 30, 40)), Ok(4));
}

#[test]
fn add_child_refuses_an_error_that_the_parent_does_not_report() {
    let mut tree = small_tree();
    let mut child = info(0, "ERROR", 14, 20);
    child.has_error = true;
    assert_eq!(tree.add_child(2, child), Err(TreeError::UnreportedError));
    assert_eq!(tree.len(), 3);
}

#[test]
fn errors_are_reported_from_the_root_down() {
    let mut root = info(5, "source_file", 0, 40);
    root.has_error = true;
    let mut tree: Tree<Rust> = Tree::new(KindTable::new(), root).unwrap();
    let mut broken = info(9, "function_item", 0, 10);
    broken.has_error = true;
    assert_eq!(tree.add_child(0, broken), Ok(1));
    assert_eq!(tree.add_child(0, info(9, "function_item", 12, 30)), Ok(2));
    assert!(tree.root().has_error());
    assert!(tree.node(1).unwrap().has_error());
    assert!(!tree.node(2).unwrap().has_error());
}

#[test]
fn node_finds_only_what_the_tree_holds() {
    let tree = small_tree();
    assert!(tree.node(0).is_some());
    assert_eq!(tree.node(2).unwrap().id(), 2);
    assert!(tree.node(3).is_none());
    assert!(tree.node(usize::MAX).is_none());
}

#[test]
fn kind_is_read_from_the_numbering() {
    let mut tree = small_tree();
    assert_eq!(tree.add_child(1, info(77, "identifier", 3, 7)), Ok(3));
    assert_eq!(tree.root().kind(), Some(Rust::SourceFile));
    assert_eq!(tree.node(1).unwrap().kind(), Some(Rust::FunctionItem));
    assert_eq!(tree.node(3).unwrap().kind(), None);
    assert_eq!(tree.node(3).unwrap().kind_id(), 77);
}

#[test]
fn record_counts_lines_and_columns_from_one() {
    let mut kinds = KindTable::new();
    kinds.set(5, Rust::SourceFile);
    let root = NodeInfo {
        kind_id: 5,
        kind_name: "source_file".to_string(),
        start_byte: 0,
        end_byte: 25,
        start_position: Point { row: 0, column: 0 },
        end_position: Point { row: 3, column: 7 },
        has_error: false,
    };
    let tree = Tree::new(kinds, root).unwrap();
    let record = tree.root().record();
    assert_eq!(record.kind, 5);
    assert_eq!(record.name, "source_file");
    assert_eq!(record.start_line, 1);
    assert_eq!(record.start_column, 1);
    assert_eq!(record.end_line, 4);
    assert_eq!(record.end_column, 8);
}

#[test]
fn record_reaches_the_largest_position() {
    let mut root = info(5, "source_file", 0, 25);
    root.end_position = Point { row: usize::MAX - 1, column: usize::MAX - 1 };
    let tree: Tree<Rust> = Tree::new(KindTable::new(), root).unwrap();
    let record = tree.root().record();
    assert_eq!(record.end_line, usize::MAX);
    assert_eq!(record.end_column, usize::MAX);
}

#[test]
fn positions_are_handed_out_as_they_came() {
    let mut root = info(5, "source_file", 0, 25);
    root.start_position = Point { row: 2, column: 4 };
    root.end_position = Point { row: 6, column: 1 };
    let tree: Tree<Rust> = Tree::new(KindTable::new(), root).unwrap();
    assert_eq!(tree.root().start_position(), Point { row: 2, column: 4 });
    assert_eq!(tree.root().end_position(), Point { row: 6, column: 1 });
}

#[test]
fn text_is_the_part_that_the_node_covers() {
    let tree = small_tree();
    let code = b"fn a() {} \n fn b() { let x = 1; }      !";
    assert_eq!(code.len(), 40);
    assert_eq!(tree.node(1).unwrap().text(code), &b"fn a() {} "[..]);
    assert_eq!(tree.node(2).unwrap().text(code), &b"fn b() { let x = 1"[..]);
    assert_eq!(tree.root().text(code), &code[..]);
}
