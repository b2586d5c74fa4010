//! The syntax-tree model that the extractor walks.
//!
//! The tree holds, as plain values, exactly what the extraction logic reads:
//! import declarations, variable declarators, call expressions, string and
//! template literals, and object literals.  Every other node kind appears as
//! an opaque node carrying only its children, in document order, so that the
//! walk can recurse through it unchanged.
//!
//! An identifier carries its binding identity: a number that names one
//! declaration-site occurrence within its lexical scope.  Two identifiers
//! with the same spelling in unrelated scopes have different identities, and
//! all tracking is keyed by identity, never by spelling.

use vstd::prelude::*;

verus! {

/// An identifier occurrence: its spelling and its resolved binding identity.
pub struct Ident {
    /// The surface spelling of the identifier.
    pub sym: String,
    /// The binding identity: unique per declaration site, shared by every
    /// occurrence that resolves to that declaration.
    pub id: u64,
}

/// The name under which a named import was exported by the source module,
/// when it differs from the local name (`import { a as b }`).
pub enum ImportedName {
    /// An ordinary identifier export name.
    Ident(String),
    /// A string-literal export name (`import { "a" as b }`).
    Str(String),
}

/// One specifier of an import declaration.
pub enum ImportSpecifier {
    /// A named import (`import { a }` or `import { a as b }`).
    Named {
        /// The local binding introduced by the import.
        local: Ident,
        /// The exported name, when spelled differently from the local one.
        imported: Option<ImportedName>,
    },
    /// A default or namespace specifier; these carry no named-import
    /// identity and the extractor ignores them.
    Other,
}

/// A module-level import declaration.
pub struct ImportDecl {
    /// The module specifier text (`import ... from "here"`).
    pub src: String,
    /// The specifiers of the declaration.
    pub specifiers: Vec<ImportSpecifier>,
}

/// A single variable declarator (`name = init`).
pub struct VarDeclarator {
    /// The declared name, when it is a simple identifier; `None` stands for
    /// a destructuring pattern, which the extractor skips.
    pub name: Option<Ident>,
    /// The initializer expression, if any.
    pub init: Option<Expr>,
}

/// The callee position of a call expression.
pub enum Callee {
    /// An ordinary expression callee.
    Expr(Box<Expr>),
    /// `super` or `import` in callee position.
    Other,
}

/// A call expression.
pub struct CallExpr {
    /// The callee.
    pub callee: Callee,
    /// The arguments, in order.
    pub args: Vec<Expr>,
}

/// The property key of a key-value property in an object literal.
pub enum PropName {
    /// A plain identifier key.
    Ident(String),
    /// A string-literal key.
    Str(String),
    /// A numeric or computed key.
    Other,
}

/// One entry of an object literal.
pub enum PropEntry {
    /// A key-value property.
    KeyValue {
        /// The property key.
        key: PropName,
        /// The property value.
        value: Box<Expr>,
    },
    /// A spread, shorthand, getter, setter or method entry, carrying the
    /// expressions nested in it.
    Other(Vec<Expr>),
}

/// An expression.
pub enum Expr {
    /// A string literal, with its escape-resolved value.
    Str(String),
    /// A template literal: the cooked text of each literal chunk (absent
    /// where the chunk has no cooked form) and the interpolated expressions.
    Tpl {
        /// The literal chunks' cooked text.
        quasis: Vec<Option<String>>,
        /// The interpolated expressions.
        exprs: Vec<Expr>,
    },
    /// An identifier reference.
    Ident(Ident),
    /// A call expression.
    Call(CallExpr),
    /// An `await` of an expression.
    Await(Box<Expr>),
    /// An object literal.
    Object(Vec<PropEntry>),
    /// Any other expression kind, carrying the expressions and statements
    /// nested in it (a function body, operands, JSX children), in document
    /// order.
    Other(Vec<Node>),
}

/// A statement or declaration below the module level.
pub enum Node {
    /// A variable declaration, with its declarators in order.
    VarDecl(Vec<VarDeclarator>),
    /// An expression in statement or nested position.
    Expr(Expr),
    /// Any other statement or declaration kind, carrying its children in
    /// document order.
    Other(Vec<Node>),
}

/// A top-level item of a module.
pub enum ModuleItem {
    /// An import declaration.
    Import(ImportDecl),
    /// Any other module item, carrying its children in document order.
    Other(Vec<Node>),
}

/// A whole module: the unit over which one extraction runs.
pub struct Module {
    /// The module items, in document order.
    pub body: Vec<ModuleItem>,
}

} // verus!
