//! Language-agnostic classification and traversal of syntax trees.
//!
//! A parser hands over a tree of nodes, each with a kind id drawn from its
//! grammar's numbering. [`Tree`] keeps such a tree, [`Node`] is a cheap handle
//! on one of its nodes, and a [`Checker`] tells, for one grammar, which nodes
//! are comments, strings, calls, functions and so on.

pub mod checker;
pub mod formats;
pub mod langs;
pub mod node;
pub mod order;
pub mod text;
pub mod tree;

pub use checker::Checker;
pub use formats::{Dump, DumpError, Encoding, Format};
pub use langs::{
    Ccomment, CcommentCode, Cpp, CppCode, Java, JavaCode, Javascript, JavascriptCode, Mozjs,
    MozjsCode, Preproc, PreprocCode, Python, PythonCode, Rust, RustCode, Tsx, TsxCode, Typescript,
    TypescriptCode,
};
pub use node::{Node, NodeRecord};
pub use tree::{KindTable, NodeInfo, NodeModel, Point, Tree, TreeError, TreeModel};
