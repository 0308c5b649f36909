//! What a node is, in the terms that all languages share.
//!
//! Each language variant answers the same questions of a node: is it a
//! comment, a string, a call, a function? The answers rest on the kind that
//! the grammar gives to the node, and for a few questions on the node above
//! it or on the text that it covers.

#![allow(unused_imports)]

use crate::langs::{
    Ccomment, CcommentCode, Cpp, CppCode, Java, JavaCode, Javascript, JavascriptCode, Mozjs,
    MozjsCode, Preproc, PreprocCode, Python, PythonCode, Rust, RustCode, Tsx, TsxCode, Typescript,
    TypescriptCode,
};
use crate::node::Node;
use crate::text::{contains, occurs_in, regex_search, search, starts_with};
use vstd::prelude::*;
use vstd::string::StringSliceAdditionalSpecFns;

verus! {

/// The mark that a comment carries for the generator of bindings from C and
/// C++ headers.
pub const BINDGEN_MARK: &'static str = "<div rustbindgen";

/// The beginning of a comment that carries a directive for the generator of
/// C bindings.
pub const CBINDGEN_PREFIX: &'static str = "/// cbindgen:";

/// The regular expression for a comment that declares the encoding of a Python
/// source.
pub const CODING_PATTERN: &'static str = r"^[ \t\f]*#.*?coding[:=][ \t]*([-_.a-zA-Z0-9]+)";

/// Whether a comment declares the encoding of its source: it starts on the
/// first or the second line, and the search for the declaration in its text
/// has found one.
pub open spec fn encoding_declared(row: usize, found: Option<bool>) -> bool {
    row <= 1 && found == Some(true)
}

/// Whether a comment that starts in row `row`, counted from zero, declares the
/// encoding of its source, given what the search for the declaration in its
/// text has found.
pub fn declares_encoding(row: usize, found: Option<bool>) -> (yes: bool)
    ensures
        yes == encoding_declared(row, found),
{
    row <= 1 && matches!(found, Some(true))
}

/// The questions that a language variant answers of the nodes of its trees.
///
/// The spec functions say which kinds, in the variant's grammar, play a part;
/// the executable functions answer for a node by its kind.
pub trait Checker {
    /// The kinds of the variant's grammar.
    type BaseLang: Copy;

    /// The kinds that are comments.
    spec fn comment(kind: Self::BaseLang) -> bool;

    /// The kinds that are string literals.
    spec fn string(kind: Self::BaseLang) -> bool;

    /// The kinds that are calls.
    spec fn call(kind: Self::BaseLang) -> bool;

    /// The kinds that are functions.
    spec fn func(kind: Self::BaseLang) -> bool;

    /// The kinds that open a scope for which metrics are gathered.
    spec fn func_space(kind: Self::BaseLang) -> bool;

    /// The kinds that stand between the arguments of a call and are none
    /// themselves.
    spec fn non_arg(kind: Self::BaseLang) -> bool;

    /// The kinds that the variant counts as a sign of its own complexity.
    spec fn feature(kind: Self::BaseLang) -> bool;

    /// Whether the node is the `if` of an `else if`.
    spec fn else_if(node: Node<Self::BaseLang>) -> bool;

    /// Whether it takes the text that the node covers to tell if the node is a
    /// useful comment.
    spec fn reads_text(node: Node<Self::BaseLang>) -> bool;

    /// Whether the node is a comment that carries more than words for the
    /// reader, in the source text `code`.
    spec fn useful_comment(node: Node<Self::BaseLang>, code: Seq<u8>) -> bool;

    /// Whether the node is a comment.
    fn is_comment(node: &Node<Self::BaseLang>) -> (yes: bool)
        requires
            node.wf(),
        ensures
            yes == (node.kind_spec() matches Some(kind) && Self::comment(kind)),
    ;

    /// Whether the node is a comment that a count of comments must keep: one
    /// that carries a directive or a declaration. Of the source text `code`
    /// only the part that the node covers is looked at, and where the answer
    /// rests on it, `code` must reach as far as the node does.
    fn is_useful_comment(node: &Node<Self::BaseLang>, code: &[u8]) -> (yes: bool)
        requires
            node.wf(),
            Self::reads_text(*node) ==> node.info().end_byte <= code@.len(),
        ensures
            yes == Self::useful_comment(*node, code@),
    ;

    /// Whether the node is the `if` of an `else if`, which continues the
    /// conditional above it and opens no level of nesting of its own.
    fn is_else_if(node: &Node<Self::BaseLang>) -> (yes: bool)
        requires
            node.wf(),
        ensures
            yes == Self::else_if(*node),
    ;

    /// Whether the node is a string literal.
    fn is_string(node: &Node<Self::BaseLang>) -> (yes: bool)
        requires
            node.wf(),
        ensures
            yes == (node.kind_spec() matches Some(kind) && Self::string(kind)),
    ;

    /// Whether the node is a call.
    fn is_call(node: &Node<Self::BaseLang>) -> (yes: bool)
        requires
            node.wf(),
        ensures
            yes == (node.kind_spec() matches Some(kind) && Self::call(kind)),
    ;

    /// Whether the node is a function.
    fn is_func(node: &Node<Self::BaseLang>) -> (yes: bool)
        requires
            node.wf(),
        ensures
            yes == (node.kind_spec() matches Some(kind) && Self::func(kind)),
    ;

    /// Whether the node opens a scope for which metrics are gathered.
    fn is_func_space(node: &Node<Self::BaseLang>) -> (yes: bool)
        requires
            node.wf(),
        ensures
            yes == (node.kind_spec() matches Some(kind) && Self::func_space(kind)),
    ;

    /// Whether the node stands between the arguments of a call and is none
    /// itself.
    fn is_non_arg(node: &Node<Self::BaseLang>) -> (yes: bool)
        requires
            node.wf(),
        ensures
            yes == (node.kind_spec() matches Some(kind) && Self::non_arg(kind)),
    ;

    /// Whether the node, or anything below it, was not cleanly parsed.
    fn is_error(node: &Node<Self::BaseLang>) -> (yes: bool)
        requires
            node.wf(),
        ensures
            yes == node.info().has_error,
    {
        node.has_error()
    }

    /// Whether the node is counted as a sign of the variant's own complexity.
    fn is_feature(node: &Node<Self::BaseLang>) -> (yes: bool)
        requires
            node.wf(),
        ensures
            yes == (node.kind_spec() matches Some(kind) && Self::feature(kind)),
    ;
}


#[allow(unused_variables)]
impl Checker for PreprocCode {
    type BaseLang = Preproc;

    open spec fn comment(kind: Preproc) -> bool {
        matches!(kind, Preproc::Comment)
    }

    open spec fn string(kind: Preproc) -> bool {
        matches!(kind, Preproc::StringLiteral | Preproc::RawStringLiteral)
    }

    open spec fn call(kind: Preproc) -> bool {
        false
    }

    open spec fn func(kind: Preproc) -> bool {
        false
    }

    open spec fn func_space(kind: Preproc) -> bool {
        false
    }

    open spec fn non_arg(kind: Preproc) -> bool {
        false
    }

    open spec fn feature(kind: Preproc) -> bool {
        false
    }

    /// No node of this variant is taken for the `if` of an `else if`.
    open spec fn else_if(node: Node<Preproc>) -> bool {
        false
    }

    open spec fn reads_text(node: Node<Preproc>) -> bool {
        false
    }

    /// No comment of this variant is useful.
    open spec fn useful_comment(node: Node<Preproc>, code: Seq<u8>) -> bool {
        false
    }

    fn is_comment(node: &Node<Preproc>) -> (yes: bool) {
        matches!(node.kind(), Some(Preproc::Comment))
    }

    fn is_useful_comment(node: &Node<Preproc>, code: &[u8]) -> (yes: bool) {
        false
    }

    fn is_else_if(node: &Node<Preproc>) -> (yes: bool) {
        false
    }

    fn is_string(node: &Node<Preproc>) -> (yes: bool) {
        matches!(node.kind(), Some(Preproc::StringLiteral | Preproc::RawStringLiteral))
    }

    fn is_call(node: &Node<Preproc>) -> (yes: bool) {
        false
    }

    fn is_func(node: &Node<Preproc>) -> (yes: bool) {
        false
    }

    fn is_func_space(node: &Node<Preproc>) -> (yes: bool) {
        false
    }

    fn is_non_arg(node: &Node<Preproc>) -> (yes: bool) {
        false
    }

    fn is_feature(node: &Node<Preproc>) -> (yes: bool) {
        false
    }
}

#[allow(unused_variables)]
impl Checker for CcommentCode {
    type BaseLang = Ccomment;

    open spec fn comment(kind: Ccomment) -> bool {
        matches!(kind, Ccomment::Comment)
    }

    open spec fn string(kind: Ccomment) -> bool {
        matches!(kind, Ccomment::StringLiteral | Ccomment::RawStringLiteral)
    }

    open spec fn call(kind: Ccomment) -> bool {
        false
    }

    open spec fn func(kind: Ccomment) -> bool {
        false
    }

    open spec fn func_space(kind: Ccomment) -> bool {
        false
    }

    open spec fn non_arg(kind: Ccomment) -> bool {
        false
    }

    open spec fn feature(kind: Ccomment) -> bool {
        false
    }

    /// No node of this variant is taken for the `if` of an `else if`.
    open spec fn else_if(node: Node<Ccomment>) -> bool {
        false
    }

    open spec fn reads_text(node: Node<Ccomment>) -> bool {
        true
    }

    /// A comment is useful where its text holds the mark for the generator of
    /// bindings.
    open spec fn useful_comment(node: Node<Ccomment>, code: Seq<u8>) -> bool {
        occurs_in(BINDGEN_MARK.spec_bytes(), node.text_spec(code))
    }

    fn is_comment(node: &Node<Ccomment>) -> (yes: bool) {
        matches!(node.kind(), Some(Ccomment::Comment))
    }

    fn is_useful_comment(node: &Node<Ccomment>, code: &[u8]) -> (yes: bool) {
        contains(node.text(code), BINDGEN_MARK.as_bytes())
    }

    fn is_else_if(node: &Node<Ccomment>) -> (yes: bool) {
        false
    }

    fn is_string(node: &Node<Ccomment>) -> (yes: bool) {
        matches!(node.kind(), Some(Ccomment::StringLiteral | Ccomment::RawStringLiteral))
    }

    fn is_call(node: &Node<Ccomment>) -> (yes: bool) {
        false
    }

    fn is_func(node: &Node<Ccomment>) -> (yes: bool) {
        false
    }

    fn is_func_space(node: &Node<Ccomment>) -> (yes: bool) {
        false
    }

    fn is_non_arg(node: &Node<Ccomment>) -> (yes: bool) {
        false
    }

    fn is_feature(node: &Node<Ccomment>) -> (yes: bool) {
        false
    }
}

#[allow(unused_variables)]
impl Checker for CppCode {
    type BaseLang = Cpp;

    open spec fn comment(kind: Cpp) -> bool {
        matches!(kind, Cpp::Comment)
    }

    open spec fn string(kind: Cpp) -> bool {
        matches!(kind, Cpp::StringLiteral | Cpp::ConcatenatedString | Cpp::RawStringLiteral)
    }

    open spec fn call(kind: Cpp) -> bool {
        matches!(kind, Cpp::CallExpression)
    }

    open spec fn func(kind: Cpp) -> bool {
        matches!(kind, Cpp::FunctionDefinition | Cpp::FunctionDefinition2 | Cpp::FunctionDefinition3)
    }

    open spec fn func_space(kind: Cpp) -> bool {
        matches!(
            kind,
            Cpp::TranslationUnit | Cpp::FunctionDefinition | Cpp::FunctionDefinition2
                | Cpp::FunctionDefinition3 | Cpp::StructSpecifier | Cpp::ClassSpecifier
                | Cpp::NamespaceDefinition,
        )
    }

    open spec fn non_arg(kind: Cpp) -> bool {
        matches!(
            kind,
            Cpp::LPAREN | Cpp::LPAREN2 | Cpp::COMMA | Cpp::RPAREN,
        )
    }

    open spec fn feature(kind: Cpp) -> bool {
        false
    }

    /// In this grammar what follows `else` hangs directly below the `if` that it
    /// belongs to: the `if` of an `else if` is an `if` below an `if`.
    open spec fn else_if(node: Node<Cpp>) -> bool {
        node.kind_spec() == Some(Cpp::IfStatement) && node.parent_kind() == Some(Cpp::IfStatement)
    }

    open spec fn reads_text(node: Node<Cpp>) -> bool {
        true
    }

    /// A comment is useful where its text holds the mark for the generator of
    /// bindings.
    open spec fn useful_comment(node: Node<Cpp>, code: Seq<u8>) -> bool {
        occurs_in(BINDGEN_MARK.spec_bytes(), node.text_spec(code))
    }

    fn is_comment(node: &Node<Cpp>) -> (yes: bool) {
        matches!(node.kind(), Some(Cpp::Comment))
    }

    fn is_useful_comment(node: &Node<Cpp>, code: &[u8]) -> (yes: bool) {
        contains(node.text(code), BINDGEN_MARK.as_bytes())
    }

    fn is_else_if(node: &Node<Cpp>) -> (yes: bool) {
        if !matches!(node.kind(), Some(Cpp::IfStatement)) {
            return false;
        }
        if let Some(parent) = node.parent() {
            return matches!(parent.kind(), Some(Cpp::IfStatement));
        }
        false
    }

    fn is_string(node: &Node<Cpp>) -> (yes: bool) {
        matches!(node.kind(), Some(Cpp::StringLiteral | Cpp::ConcatenatedString | Cpp::RawStringLiteral))
    }

    fn is_call(node: &Node<Cpp>) -> (yes: bool) {
        matches!(node.kind(), Some(Cpp::CallExpression))
    }

    fn is_func(node: &Node<Cpp>) -> (yes: bool) {
        matches!(node.kind(), Some(Cpp::FunctionDefinition | Cpp::FunctionDefinition2 | Cpp::FunctionDefinition3))
    }

    fn is_func_space(node: &Node<Cpp>) -> (yes: bool) {
        matches!(
            node.kind(),
            Some(
                Cpp::TranslationUnit | Cpp::FunctionDefinition | Cpp::FunctionDefinition2
                    | Cpp::FunctionDefinition3 | Cpp::StructSpecifier | Cpp::ClassSpecifier
                    | Cpp::NamespaceDefinition,
            )
        )
    }

    fn is_non_arg(node: &Node<Cpp>) -> (yes: bool) {
        matches!(
            node.kind(),
            Some(
                Cpp::LPAREN | Cpp::LPAREN2 | Cpp::COMMA | Cpp::RPAREN,
            )
        )
    }

    fn is_feature(node: &Node<Cpp>) -> (yes: bool) {
        false
    }
}

#[allow(unused_variables)]
impl Checker for PythonCode {
    type BaseLang = Python;

    open spec fn comment(kind: Python) -> bool {
        matches!(kind, Python::Comment)
    }

    open spec fn string(kind: Python) -> bool {
        matches!(kind, Python::String | Python::ConcatenatedString)
    }

    open spec fn call(kind: Python) -> bool {
        matches!(kind, Python::Call)
    }

    open spec fn func(kind: Python) -> bool {
        matches!(kind, Python::FunctionDefinition)
    }

    open spec fn func_space(kind: Python) -> bool {
        matches!(kind, Python::Module | Python::FunctionDefinition | Python::ClassDefinition)
    }

    open spec fn non_arg(kind: Python) -> bool {
        matches!(kind, Python::LPAREN | Python::COMMA | Python::RPAREN)
    }

    open spec fn feature(kind: Python) -> bool {
        false
    }

    /// No node of this variant is taken for the `if` of an `else if`.
    open spec fn else_if(node: Node<Python>) -> bool {
        false
    }

    open spec fn reads_text(node: Node<Python>) -> bool {
        node.info().start_position.row <= 1
    }

    /// A comment is useful where it starts on the first or the second line and
    /// its text declares the encoding of the source.
    open spec fn useful_comment(node: Node<Python>, code: Seq<u8>) -> bool {
        encoding_declared(
            node.info().start_position.row,
            regex_search(CODING_PATTERN@, node.text_spec(code)),
        )
    }

    fn is_comment(node: &Node<Python>) -> (yes: bool) {
        matches!(node.kind(), Some(Python::Comment))
    }

    fn is_useful_comment(node: &Node<Python>, code: &[u8]) -> (yes: bool) {
        let row = node.start_position().row;
        if row > 1 {
            return false;
        }
        declares_encoding(row, search(CODING_PATTERN, node.text(code)))
    }

    fn is_else_if(node: &Node<Python>) -> (yes: bool) {
        false
    }

    fn is_string(node: &Node<Python>) -> (yes: bool) {
        matches!(node.kind(), Some(Python::String | Python::ConcatenatedString))
    }

    fn is_call(node: &Node<Python>) -> (yes: bool) {
        matches!(node.kind(), Some(Python::Call))
    }

    fn is_func(node: &Node<Python>) -> (yes: bool) {
        matches!(node.kind(), Some(Python::FunctionDefinition))
    }

    fn is_func_space(node: &Node<Python>) -> (yes: bool) {
        matches!(node.kind(), Some(Python::Module | Python::FunctionDefinition | Python::ClassDefinition))
    }

    fn is_non_arg(node: &Node<Python>) -> (yes: bool) {
        matches!(node.kind(), Some(Python::LPAREN | Python::COMMA | Python::RPAREN))
    }

    fn is_feature(node: &Node<Python>) -> (yes: bool) {
        false
    }
}

#[allow(unused_variables)]
impl Checker for JavaCode {
    type BaseLang = Java;

    open spec fn comment(kind: Java) -> bool {
        matches!(kind, Java::Comment)
    }

    open spec fn string(kind: Java) -> bool {
        matches!(kind, Java::StringLiteral)
    }

    open spec fn call(kind: Java) -> bool {
        matches!(kind, Java::MethodInvocation)
    }

    open spec fn func(kind: Java) -> bool {
        matches!(kind, Java::MethodDeclaration)
    }

    open spec fn func_space(kind: Java) -> bool {
        matches!(kind, Java::Program | Java::ClassDeclaration)
    }

    open spec fn non_arg(kind: Java) -> bool {
        false
    }

    open spec fn feature(kind: Java) -> bool {
        false
    }

    /// No node of this variant is taken for the `if` of an `else if`.
    open spec fn else_if(node: Node<Java>) -> bool {
        false
    }

    open spec fn reads_text(node: Node<Java>) -> bool {
        false
    }

    /// No comment of this variant is useful.
    open spec fn useful_comment(node: Node<Java>, code: Seq<u8>) -> bool {
        false
    }

    fn is_comment(node: &Node<Java>) -> (yes: bool) {
        matches!(node.kind(), Some(Java::Comment))
    }

    fn is_useful_comment(node: &Node<Java>, code: &[u8]) -> (yes: bool) {
        false
    }

    fn is_else_if(node: &Node<Java>) -> (yes: bool) {
        false
    }

    fn is_string(node: &Node<Java>) -> (yes: bool) {
        matches!(node.kind(), Some(Java::StringLiteral))
    }

    fn is_call(node: &Node<Java>) -> (yes: bool) {
        matches!(node.kind(), Some(Java::MethodInvocation))
    }

    fn is_func(node: &Node<Java>) -> (yes: bool) {
        matches!(node.kind(), Some(Java::MethodDeclaration))
    }

    fn is_func_space(node: &Node<Java>) -> (yes: bool) {
        matches!(node.kind(), Some(Java::Program | Java::ClassDeclaration))
    }

    fn is_non_arg(node: &Node<Java>) -> (yes: bool) {
        false
    }

    fn is_feature(node: &Node<Java>) -> (yes: bool) {
        false
    }
}

#[allow(unused_variables)]
impl Checker for MozjsCode {
    type BaseLang = Mozjs;

    open spec fn comment(kind: Mozjs) -> bool {
        matches!(kind, Mozjs::Comment)
    }

    open spec fn string(kind: Mozjs) -> bool {
        matches!(kind, Mozjs::String | Mozjs::TemplateString)
    }

    open spec fn call(kind: Mozjs) -> bool {
        matches!(kind, Mozjs::CallExpression)
    }

    open spec fn func(kind: Mozjs) -> bool {
        matches!(
            kind,
            Mozjs::Function | Mozjs::GeneratorFunction | Mozjs::FunctionDeclaration
                | Mozjs::GeneratorFunctionDeclaration | Mozjs::MethodDefinition
                | Mozjs::ArrowFunction,
        )
    }

    open spec fn func_space(kind: Mozjs) -> bool {
        matches!(
            kind,
            Mozjs::Program | Mozjs::Function | Mozjs::Class | Mozjs::GeneratorFunction
                | Mozjs::FunctionDeclaration | Mozjs::MethodDefinition
                | Mozjs::GeneratorFunctionDeclaration | Mozjs::ClassDeclaration
                | Mozjs::ArrowFunction,
        )
    }

    open spec fn non_arg(kind: Mozjs) -> bool {
        matches!(kind, Mozjs::LPAREN | Mozjs::COMMA | Mozjs::RPAREN)
    }

    open spec fn feature(kind: Mozjs) -> bool {
        false
    }

    /// In this grammar what follows `else` is wrapped in a clause of its own: the
    /// `if` of an `else if` is an `if` below such a clause.
    open spec fn else_if(node: Node<Mozjs>) -> bool {
        node.kind_spec() == Some(Mozjs::IfStatement) && node.parent_kind() == Some(Mozjs::ElseClause)
    }

    open spec fn reads_text(node: Node<Mozjs>) -> bool {
        false
    }

    /// No comment of this variant is useful.
    open spec fn useful_comment(node: Node<Mozjs>, code: Seq<u8>) -> bool {
        false
    }

    fn is_comment(node: &Node<Mozjs>) -> (yes: bool) {
        matches!(node.kind(), Some(Mozjs::Comment))
    }

    fn is_useful_comment(node: &Node<Mozjs>, code: &[u8]) -> (yes: bool) {
        false
    }

    fn is_else_if(node: &Node<Mozjs>) -> (yes: bool) {
        if !matches!(node.kind(), Some(Mozjs::IfStatement)) {
            return false;
        }
        if let Some(parent) = node.parent() {
            return matches!(parent.kind(), Some(Mozjs::ElseClause));
        }
        false
    }

    fn is_string(node: &Node<Mozjs>) -> (yes: bool) {
        matches!(node.kind(), Some(Mozjs::String | Mozjs::TemplateString))
    }

    fn is_call(node: &Node<Mozjs>) -> (yes: bool) {
        matches!(node.kind(), Some(Mozjs::CallExpression))
    }

    fn is_func(node: &Node<Mozjs>) -> (yes: bool) {
        matches!(
            node.kind(),
            Some(
                Mozjs::Function | Mozjs::GeneratorFunction | Mozjs::FunctionDeclaration
                    | Mozjs::GeneratorFunctionDeclaration | Mozjs::MethodDefinition
                    | Mozjs::ArrowFunction,
            )
        )
    }

    fn is_func_space(node: &Node<Mozjs>) -> (yes: bool) {
        matches!(
            node.kind(),
            Some(
                Mozjs::Program | Mozjs::Function | Mozjs::Class | Mozjs::GeneratorFunction
                    | Mozjs::FunctionDeclaration | Mozjs::MethodDefinition
                    | Mozjs::GeneratorFunctionDeclaration | Mozjs::ClassDeclaration
                    | Mozjs::ArrowFunction,
            )
        )
    }

    fn is_non_arg(node: &Node<Mozjs>) -> (yes: bool) {
        matches!(node.kind(), Some(Mozjs::LPAREN | Mozjs::COMMA | Mozjs::RPAREN))
    }

    fn is_feature(node: &Node<Mozjs>) -> (yes: bool) {
        false
    }
}

#[allow(unused_variables)]
impl Checker for JavascriptCode {
    type BaseLang = Javascript;

    open spec fn comment(kind: Javascript) -> bool {
        matches!(kind, Javascript::Comment)
    }

    open spec fn string(kind: Javascript) -> bool {
        matches!(kind, Javascript::String | Javascript::TemplateString)
    }

    open spec fn call(kind: Javascript) -> bool {
        matches!(kind, Javascript::CallExpression)
    }

    open spec fn func(kind: Javascript) -> bool {
        matches!(
            kind,
            Javascript::Function | Javascript::GeneratorFunction
                | Javascript::FunctionDeclaration | Javascript::GeneratorFunctionDeclaration
                | Javascript::MethodDefinition | Javascript::ArrowFunction,
        )
    }

    open spec fn func_space(kind: Javascript) -> bool {
        matches!(
            kind,
            Javascript::Program | Javascript::Function | Javascript::GeneratorFunction
                | Javascript::Class | Javascript::FunctionDeclaration
                | Javascript::MethodDefinition | Javascript::GeneratorFunctionDeclaration
                | Javascript::ClassDeclaration | Javascript::ArrowFunction,
        )
    }

    open spec fn non_arg(kind: Javascript) -> bool {
        matches!(kind, Javascript::LPAREN | Javascript::COMMA | Javascript::RPAREN)
    }

    open spec fn feature(kind: Javascript) -> bool {
        false
    }

    /// In this grammar what follows `else` hangs directly below the `if` that it
    /// belongs to: the `if` of an `else if` is an `if` below an `if`.
    open spec fn else_if(node: Node<Javascript>) -> bool {
        node.kind_spec() == Some(Javascript::IfStatement) && node.parent_kind() == Some(Javascript::IfStatement)
    }

    open spec fn reads_text(node: Node<Javascript>) -> bool {
        false
    }

    /// No comment of this variant is useful.
    open spec fn useful_comment(node: Node<Javascript>, code: Seq<u8>) -> bool {
        false
    }

    fn is_comment(node: &Node<Javascript>) -> (yes: bool) {
        matches!(node.kind(), Some(Javascript::Comment))
    }

    fn is_useful_comment(node: &Node<Javascript>, code: &[u8]) -> (yes: bool) {
        false
    }

    fn is_else_if(node: &Node<Javascript>) -> (yes: bool) {
        if !matches!(node.kind(), Some(Javascript::IfStatement)) {
            return false;
        }
        if let Some(parent) = node.parent() {
            return matches!(parent.kind(), Some(Javascript::IfStatement));
        }
        false
    }

    fn is_string(node: &Node<Javascript>) -> (yes: bool) {
        matches!(node.kind(), Some(Javascript::String | Javascript::TemplateString))
    }

    fn is_call(node: &Node<Javascript>) -> (yes: bool) {
        matches!(node.kind(), Some(Javascript::CallExpression))
    }

    fn is_func(node: &Node<Javascript>) -> (yes: bool) {
        matches!(
            node.kind(),
            Some(
                Javascript::Function | Javascript::GeneratorFunction
                    | Javascript::FunctionDeclaration | Javascript::GeneratorFunctionDeclaration
                    | Javascript::MethodDefinition | Javascript::ArrowFunction,
            )
        )
    }

    fn is_func_space(node: &Node<Javascript>) -> (yes: bool) {
        matches!(
            node.kind(),
            Some(
                Javascript::Program | Javascript::Function | Javascript::GeneratorFunction
                    | Javascript::Class | Javascript::FunctionDeclaration
                    | Javascript::MethodDefinition | Javascript::GeneratorFunctionDeclaration
                    | Javascript::ClassDeclaration | Javascript::ArrowFunction,
            )
        )
    }

    fn is_non_arg(node: &Node<Javascript>) -> (yes: bool) {
        matches!(node.kind(), Some(Javascript::LPAREN | Javascript::COMMA | Javascript::RPAREN))
    }

    fn is_feature(node: &Node<Javascript>) -> (yes: bool) {
        false
    }
}

#[allow(unused_variables)]
impl Checker for TypescriptCode {
    type BaseLang = Typescript;

    open spec fn comment(kind: Typescript) -> bool {
        matches!(kind, Typescript::Comment)
    }

    open spec fn string(kind: Typescript) -> bool {
        matches!(kind, Typescript::String | Typescript::TemplateString)
    }

    open spec fn call(kind: Typescript) -> bool {
        matches!(kind, Typescript::CallExpression)
    }

    open spec fn func(kind: Typescript) -> bool {
        matches!(
            kind,
            Typescript::Function | Typescript::GeneratorFunction
                | Typescript::FunctionDeclaration | Typescript::GeneratorFunctionDeclaration
                | Typescript::MethodDefinition | Typescript::ArrowFunction,
        )
    }

    open spec fn func_space(kind: Typescript) -> bool {
        matches!(
            kind,
            Typescript::Program | Typescript::Function | Typescript::Class
                | Typescript::GeneratorFunction | Typescript::FunctionDeclaration
                | Typescript::MethodDefinition | Typescript::GeneratorFunctionDeclaration
                | Typescript::ClassDeclaration | Typescript::ArrowFunction,
        )
    }

    open spec fn non_arg(kind: Typescript) -> bool {
        matches!(kind, Typescript::LPAREN | Typescript::COMMA | Typescript::RPAREN)
    }

    open spec fn feature(kind: Typescript) -> bool {
        false
    }

    /// In this grammar what follows `else` is wrapped in a clause of its own: the
    /// `if` of an `else if` is an `if` below such a clause.
    open spec fn else_if(node: Node<Typescript>) -> bool {
        node.kind_spec() == Some(Typescript::IfStatement) && node.parent_kind() == Some(Typescript::ElseClause)
    }

    open spec fn reads_text(node: Node<Typescript>) -> bool {
        false
    }

    /// No comment of this variant is useful.
    open spec fn useful_comment(node: Node<Typescript>, code: Seq<u8>) -> bool {
        false
    }

    fn is_comment(node: &Node<Typescript>) -> (yes: bool) {
        matches!(node.kind(), Some(Typescript::Comment))
    }

    fn is_useful_comment(node: &Node<Typescript>, code: &[u8]) -> (yes: bool) {
        false
    }

    fn is_else_if(node: &Node<Typescript>) -> (yes: bool) {
        if !matches!(node.kind(), Some(Typescript::IfStatement)) {
            return false;
        }
        if let Some(parent) = node.parent() {
            return matches!(parent.kind(), Some(Typescript::ElseClause));
        }
        false
    }

    fn is_string(node: &Node<Typescript>) -> (yes: bool) {
        matches!(node.kind(), Some(Typescript::String | Typescript::TemplateString))
    }

    fn is_call(node: &Node<Typescript>) -> (yes: bool) {
        matches!(node.kind(), Some(Typescript::CallExpression))
    }

    fn is_func(node: &Node<Typescript>) -> (yes: bool) {
        matches!(
            node.kind(),
            Some(
                Typescript::Function | Typescript::GeneratorFunction
                    | Typescript::FunctionDeclaration | Typescript::GeneratorFunctionDeclaration
                    | Typescript::MethodDefinition | Typescript::ArrowFunction,
            )
        )
    }

    fn is_func_space(node: &Node<Typescript>) -> (yes: bool) {
        matches!(
            node.kind(),
            Some(
                Typescript::Program | Typescript::Function | Typescript::Class
                    | Typescript::GeneratorFunction | Typescript::FunctionDeclaration
                    | Typescript::MethodDefinition | Typescript::GeneratorFunctionDeclaration
                    | Typescript::ClassDeclaration | Typescript::ArrowFunction,
            )
        )
    }

    fn is_non_arg(node: &Node<Typescript>) -> (yes: bool) {
        matches!(node.kind(), Some(Typescript::LPAREN | Typescript::COMMA | Typescript::RPAREN))
    }

    fn is_feature(node: &Node<Typescript>) -> (yes: bool) {
        false
    }
}

#[allow(unused_variables)]
impl Checker for TsxCode {
    type BaseLang = Tsx;

    open spec fn comment(kind: Tsx) -> bool {
        matches!(kind, Tsx::Comment)
    }

    open spec fn string(kind: Tsx) -> bool {
        matches!(kind, Tsx::String | Tsx::TemplateString)
    }

    open spec fn call(kind: Tsx) -> bool {
        matches!(kind, Tsx::CallExpression)
    }

    open spec fn func(kind: Tsx) -> bool {
        matches!(
            kind,
            Tsx::Function | Tsx::GeneratorFunction | Tsx::FunctionDeclaration
                | Tsx::GeneratorFunctionDeclaration | Tsx::MethodDefinition | Tsx::ArrowFunction,
        )
    }

    open spec fn func_space(kind: Tsx) -> bool {
        matches!(
            kind,
            Tsx::Program | Tsx::Function | Tsx::GeneratorFunction | Tsx::Class
                | Tsx::FunctionDeclaration | Tsx::MethodDefinition
                | Tsx::GeneratorFunctionDeclaration | Tsx::ClassDeclaration | Tsx::ArrowFunction,
        )
    }

    open spec fn non_arg(kind: Tsx) -> bool {
        matches!(kind, Tsx::LPAREN | Tsx::COMMA | Tsx::RPAREN)
    }

    open spec fn feature(kind: Tsx) -> bool {
        false
    }

    /// In this grammar what follows `else` hangs directly below the `if` that it
    /// belongs to: the `if` of an `else if` is an `if` below an `if`.
    open spec fn else_if(node: Node<Tsx>) -> bool {
        node.kind_spec() == Some(Tsx::IfStatement) && node.parent_kind() == Some(Tsx::IfStatement)
    }

    open spec fn reads_text(node: Node<Tsx>) -> bool {
        false
    }

    /// No comment of this variant is useful.
    open spec fn useful_comment(node: Node<Tsx>, code: Seq<u8>) -> bool {
        false
    }

    fn is_comment(node: &Node<Tsx>) -> (yes: bool) {
        matches!(node.kind(), Some(Tsx::Comment))
    }

    fn is_useful_comment(node: &Node<Tsx>, code: &[u8]) -> (yes: bool) {
        false
    }

    fn is_else_if(node: &Node<Tsx>) -> (yes: bool) {
        if !matches!(node.kind(), Some(Tsx::IfStatement)) {
            return false;
        }
        if let Some(parent) = node.parent() {
            return matches!(parent.kind(), Some(Tsx::IfStatement));
        }
        false
    }

    fn is_string(node: &Node<Tsx>) -> (yes: bool) {
        matches!(node.kind(), Some(Tsx::String | Tsx::TemplateString))
    }

    fn is_call(node: &Node<Tsx>) -> (yes: bool) {
        matches!(node.kind(), Some(Tsx::CallExpression))
    }

    fn is_func(node: &Node<Tsx>) -> (yes: bool) {
        matches!(
            node.kind(),
            Some(
                Tsx::Function | Tsx::GeneratorFunction | Tsx::FunctionDeclaration
                    | Tsx::GeneratorFunctionDeclaration | Tsx::MethodDefinition | Tsx::ArrowFunction,
            )
        )
    }

    fn is_func_space(node: &Node<Tsx>) -> (yes: bool) {
        matches!(
            node.kind(),
            Some(
                Tsx::Program | Tsx::Function | Tsx::GeneratorFunction | Tsx::Class
                    | Tsx::FunctionDeclaration | Tsx::MethodDefinition
                    | Tsx::GeneratorFunctionDeclaration | Tsx::ClassDeclaration | Tsx::ArrowFunction,
            )
        )
    }

    fn is_non_arg(node: &Node<Tsx>) -> (yes: bool) {
        matches!(node.kind(), Some(Tsx::LPAREN | Tsx::COMMA | Tsx::RPAREN))
    }

    fn is_feature(node: &Node<Tsx>) -> (yes: bool) {
        false
    }
}

#[allow(unused_variables)]
impl Checker for RustCode {
    type BaseLang = Rust;

    open spec fn comment(kind: Rust) -> bool {
        matches!(kind, Rust::LineComment | Rust::BlockComment)
    }

    open spec fn string(kind: Rust) -> bool {
        matches!(kind, Rust::StringLiteral | Rust::RawStringLiteral)
    }

    open spec fn call(kind: Rust) -> bool {
        matches!(kind, Rust::CallExpression)
    }

    open spec fn func(kind: Rust) -> bool {
        matches!(kind, Rust::FunctionItem | Rust::ClosureExpression)
    }

    open spec fn func_space(kind: Rust) -> bool {
        matches!(
            kind,
            Rust::SourceFile | Rust::FunctionItem | Rust::ImplItem | Rust::TraitItem
                | Rust::ClosureExpression,
        )
    }

    open spec fn non_arg(kind: Rust) -> bool {
        matches!(
            kind,
            Rust::LPAREN | Rust::COMMA | Rust::RPAREN | Rust::AttributeItem,
        )
    }

    open spec fn feature(kind: Rust) -> bool {
        matches!(
            kind,
            Rust::Lifetime | Rust::Lifetime2 | Rust::ForLifetimes
                | Rust::ForLifetimesRepeat1 | Rust::MacroDefinition | Rust::MacroRule
                | Rust::MacroRulesBANG | Rust::MacroDefinitionRepeat1 | Rust::MacroInvocation
                | Rust::TraitBounds | Rust::TraitBoundsRepeat1 | Rust::HigherRankedTraitBound
                | Rust::RemovedTraitBound | Rust::Where | Rust::WhereClause
                | Rust::WhereClauseRepeat1 | Rust::WherePredicate | Rust::Async
                | Rust::AsyncBlock | Rust::Await | Rust::AwaitExpression | Rust::Unsafe
                | Rust::UnsafeBlock | Rust::Trait | Rust::TraitItem | Rust::ClosureExpression
                | Rust::ClosureParameters | Rust::ClosureParametersRepeat1,
        )
    }

    /// In this grammar what follows `else` is wrapped in a clause of its own: the
    /// `if` of an `else if` is an `if` below such a clause.
    open spec fn else_if(node: Node<Rust>) -> bool {
        node.kind_spec() == Some(Rust::IfExpression) && node.parent_kind() == Some(Rust::ElseClause)
    }

    open spec fn reads_text(node: Node<Rust>) -> bool {
        node.parent_kind() != Some(Rust::TokenTree)
    }

    /// A comment is useful where it stands among the tokens of a macro, which
    /// must be kept as they are, or where its text begins with a directive for
    /// the generator of C bindings.
    open spec fn useful_comment(node: Node<Rust>, code: Seq<u8>) -> bool {
        node.parent_kind() == Some(Rust::TokenTree) || CBINDGEN_PREFIX.spec_bytes().is_prefix_of(
            node.text_spec(code),
        )
    }

    fn is_comment(node: &Node<Rust>) -> (yes: bool) {
        matches!(node.kind(), Some(Rust::LineComment | Rust::BlockComment))
    }

    fn is_useful_comment(node: &Node<Rust>, code: &[u8]) -> (yes: bool) {
        if let Some(parent) = node.parent() {
            if matches!(parent.kind(), Some(Rust::TokenTree)) {
                return true;
            }
        }
        starts_with(node.text(code), CBINDGEN_PREFIX.as_bytes())
    }

    fn is_else_if(node: &Node<Rust>) -> (yes: bool) {
        if !matches!(node.kind(), Some(Rust::IfExpression)) {
            return false;
        }
        if let Some(parent) = node.parent() {
            return matches!(parent.kind(), Some(Rust::ElseClause));
        }
        false
    }

    fn is_string(node: &Node<Rust>) -> (yes: bool) {
        matches!(node.kind(), Some(Rust::StringLiteral | Rust::RawStringLiteral))
    }

    fn is_call(node: &Node<Rust>) -> (yes: bool) {
        matches!(node.kind(), Some(Rust::CallExpression))
    }

    fn is_func(node: &Node<Rust>) -> (yes: bool) {
        matches!(node.kind(), Some(Rust::FunctionItem | Rust::ClosureExpression))
    }

    fn is_func_space(node: &Node<Rust>) -> (yes: bool) {
        matches!(
            node.kind(),
            Some(
                Rust::SourceFile | Rust::FunctionItem | Rust::ImplItem | Rust::TraitItem
                    | Rust::ClosureExpression,
            )
        )
    }

    fn is_non_arg(node: &Node<Rust>) -> (yes: bool) {
        matches!(
            node.kind(),
            Some(
                Rust::LPAREN | Rust::COMMA | Rust::RPAREN | Rust::AttributeItem,
            )
        )
    }

    fn is_feature(node: &Node<Rust>) -> (yes: bool) {
        matches!(
            node.kind(),
            Some(
                Rust::Lifetime | Rust::Lifetime2 | Rust::ForLifetimes
                    | Rust::ForLifetimesRepeat1 | Rust::MacroDefinition | Rust::MacroRule
                    | Rust::MacroRulesBANG | Rust::MacroDefinitionRepeat1 | Rust::MacroInvocation
                    | Rust::TraitBounds | Rust::TraitBoundsRepeat1 | Rust::HigherRankedTraitBound
                    | Rust::RemovedTraitBound | Rust::Where | Rust::WhereClause
                    | Rust::WhereClauseRepeat1 | Rust::WherePredicate | Rust::Async
                    | Rust::AsyncBlock | Rust::Await | Rust::AwaitExpression | Rust::Unsafe
                    | Rust::UnsafeBlock | Rust::Trait | Rust::TraitItem | Rust::ClosureExpression
                    | Rust::ClosureParameters | Rust::ClosureParametersRepeat1,
            )
        )
    }
}

/// Asking a checker of a node is asking a function: whatever answers it may
/// give to one question of one node, and of one source text where the
/// question looks at the text, are one and the same answer.
pub proof fn lemma_answers_agree<C: Checker>(node: &Node<C::BaseLang>, code: &[u8])
    ensures
        forall|a: bool, b: bool|
            call_ensures(C::is_comment, (node,), a) && call_ensures(C::is_comment, (node,), b)
                ==> a == b,
        forall|a: bool, b: bool|
            call_ensures(C::is_useful_comment, (node, code), a) && call_ensures(
                C::is_useful_comment,
                (node, code),
                b,
            ) ==> a == b,
        forall|a: bool, b: bool|
            call_ensures(C::is_else_if, (node,), a) && call_ensures(C::is_else_if, (node,), b)
                ==> a == b,
        forall|a: bool, b: bool|
            call_ensures(C::is_string, (node,), a) && call_ensures(C::is_string, (node,), b)
                ==> a == b,
        forall|a: bool, b: bool|
            call_ensures(C::is_call, (node,), a) && call_ensures(C::is_call, (node,), b) ==> a
                == b,
        forall|a: bool, b: bool|
            call_ensures(C::is_func, (node,), a) && call_ensures(C::is_func, (node,), b) ==> a
                == b,
        forall|a: bool, b: bool|
            call_ensures(C::is_func_space, (node,), a) && call_ensures(
                C::is_func_space,
                (node,),
                b,
            ) ==> a == b,
        forall|a: bool, b: bool|
            call_ensures(C::is_non_arg, (node,), a) && call_ensures(C::is_non_arg, (node,), b)
                ==> a == b,
        forall|a: bool, b: bool|
            call_ensures(C::is_error, (node,), a) && call_ensures(C::is_error, (node,), b) ==> a
                == b,
        forall|a: bool, b: bool|
            call_ensures(C::is_feature, (node,), a) && call_ensures(C::is_feature, (node,), b)
                ==> a == b,
{
}

} // verus!
