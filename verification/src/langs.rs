//! The languages that the library tells apart, and, for each, the kinds of
//! nodes that its checker asks about. A kind is named as the grammar names it;
//! where a grammar has several numbers for one name, the later ones carry a
//! count.

use vstd::prelude::*;

verus! {

/// The kinds of nodes that matter in the preprocessor view of C and C++ sources.
#[allow(non_camel_case_types)]
#[derive(Clone, Copy, Debug, PartialEq, Eq, Structural)]
pub enum Preproc {
    Comment,
    StringLiteral,
    RawStringLiteral,
}

/// The kinds of nodes that matter in the comment view of C and C++ sources.
#[allow(non_camel_case_types)]
#[derive(Clone, Copy, Debug, PartialEq, Eq, Structural)]
pub enum Ccomment {
    Comment,
    StringLiteral,
    RawStringLiteral,
}

/// The kinds of nodes that matter in C and C++.
#[allow(non_camel_case_types)]
#[derive(Clone, Copy, Debug, PartialEq, Eq, Structural)]
pub enum Cpp {
    Comment,
    StringLiteral,
    ConcatenatedString,
    RawStringLiteral,
    CallExpression,
    FunctionDefinition,
    FunctionDefinition2,
    FunctionDefinition3,
    TranslationUnit,
    StructSpecifier,
    ClassSpecifier,
    NamespaceDefinition,
    LPAREN,
    LPAREN2,
    COMMA,
    RPAREN,
    IfStatement,
}

/// The kinds of nodes that matter in Python.
#[allow(non_camel_case_types)]
#[derive(Clone, Copy, Debug, PartialEq, Eq, Structural)]
pub enum Python {
    Comment,
    String,
    ConcatenatedString,
    Call,
    FunctionDefinition,
    Module,
    ClassDefinition,
    LPAREN,
    COMMA,
    RPAREN,
}

/// The kinds of nodes that matter in Java.
#[allow(non_camel_case_types)]
#[derive(Clone, Copy, Debug, PartialEq, Eq, Structural)]
pub enum Java {
    Comment,
    StringLiteral,
    MethodInvocation,
    MethodDeclaration,
    Program,
    ClassDeclaration,
}

/// The kinds of nodes that matter in JavaScript as Mozilla's sources write it.
#[allow(non_camel_case_types)]
#[derive(Clone, Copy, Debug, PartialEq, Eq, Structural)]
pub enum Mozjs {
    Comment,
    String,
    TemplateString,
    CallExpression,
    Function,
    GeneratorFunction,
    FunctionDeclaration,
    GeneratorFunctionDeclaration,
    MethodDefinition,
    ArrowFunction,
    Program,
    Class,
    ClassDeclaration,
    LPAREN,
    COMMA,
    RPAREN,
    IfStatement,
    ElseClause,
}

/// The kinds of nodes that matter in JavaScript.
#[allow(non_camel_case_types)]
#[derive(Clone, Copy, Debug, PartialEq, Eq, Structural)]
pub enum Javascript {
    Comment,
    String,
    TemplateString,
    CallExpression,
    Function,
    GeneratorFunction,
    FunctionDeclaration,
    GeneratorFunctionDeclaration,
    MethodDefinition,
    ArrowFunction,
    Program,
    Class,
    ClassDeclaration,
    LPAREN,
    COMMA,
    RPAREN,
    IfStatement,
}

/// The kinds of nodes that matter in TypeScript.
#[allow(non_camel_case_types)]
#[derive(Clone, Copy, Debug, PartialEq, Eq, Structural)]
pub enum Typescript {
    Comment,
    String,
    TemplateString,
    CallExpression,
    Function,
    GeneratorFunction,
    FunctionDeclaration,
    GeneratorFunctionDeclaration,
    MethodDefinition,
    ArrowFunction,
    Program,
    Class,
    ClassDeclaration,
    LPAREN,
    COMMA,
    RPAREN,
    IfStatement,
    ElseClause,
}

/// The kinds of nodes that matter in TypeScript with embedded markup.
#[allow(non_camel_case_types)]
#[derive(Clone, Copy, Debug, PartialEq, Eq, Structural)]
pub enum Tsx {
    Comment,
    String,
    TemplateString,
    CallExpression,
    Function,
    GeneratorFunction,
    FunctionDeclaration,
    GeneratorFunctionDeclaration,
    MethodDefinition,
    ArrowFunction,
    Program,
    Class,
    ClassDeclaration,
    LPAREN,
    COMMA,
    RPAREN,
    IfStatement,
}

/// The kinds of nodes that matter in Rust.
#[allow(non_camel_case_types)]
#[derive(Clone, Copy, Debug, PartialEq, Eq, Structural)]
pub enum Rust {
    LineComment,
    BlockComment,
    StringLiteral,
    RawStringLiteral,
    CallExpression,
    FunctionItem,
    ClosureExpression,
    SourceFile,
    ImplItem,
    TraitItem,
    LPAREN,
    COMMA,
    RPAREN,
    AttributeItem,
    Lifetime,
    Lifetime2,
    ForLifetimes,
    ForLifetimesRepeat1,
    MacroDefinition,
    MacroRule,
    MacroRulesBANG,
    MacroDefinitionRepeat1,
    MacroInvocation,
    TraitBounds,
    TraitBoundsRepeat1,
    HigherRankedTraitBound,
    RemovedTraitBound,
    Where,
    WhereClause,
    WhereClauseRepeat1,
    WherePredicate,
    Async,
    AsyncBlock,
    Await,
    AwaitExpression,
    Unsafe,
    UnsafeBlock,
    Trait,
    ClosureParameters,
    ClosureParametersRepeat1,
    IfExpression,
    ElseClause,
    TokenTree,
}

/// The language variant for the preprocessor view of C and C++ sources.
#[derive(Clone, Copy, Debug)]
pub struct PreprocCode;

/// The language variant for the comment view of C and C++ sources.
#[derive(Clone, Copy, Debug)]
pub struct CcommentCode;

/// The language variant for C and C++.
#[derive(Clone, Copy, Debug)]
pub struct CppCode;

/// The language variant for Python.
#[derive(Clone, Copy, Debug)]
pub struct PythonCode;

/// The language variant for Java.
#[derive(Clone, Copy, Debug)]
pub struct JavaCode;

/// The language variant for JavaScript as Mozilla's sources write it.
#[derive(Clone, Copy, Debug)]
pub struct MozjsCode;

/// The language variant for JavaScript.
#[derive(Clone, Copy, Debug)]
pub struct JavascriptCode;

/// The language variant for TypeScript.
#[derive(Clone, Copy, Debug)]
pub struct TypescriptCode;

/// The language variant for TypeScript with embedded markup.
#[derive(Clone, Copy, Debug)]
pub struct TsxCode;

/// The language variant for Rust.
#[derive(Clone, Copy, Debug)]
pub struct RustCode;

} // verus!
