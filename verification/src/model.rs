//! The mathematical model of one extraction run.
//!
//! Extraction is specified as a fold over the tree: a ghost state of three
//! tables is threaded through the module in document order, depth first.
//! The import phase fills the factory table from the module's import
//! declarations; the walk then updates the namespace table at each variable
//! declarator and appends one record at each call of a tracked translator
//! whose key argument has a static value.

use vstd::prelude::*;
use crate::ast::{
    CallExpr, Callee, Expr, Ident, ImportSpecifier, ImportedName, Module, ModuleItem, Node,
    PropEntry, PropName, VarDeclarator,
};

verus! {

/// One extracted record: the fully-qualified key and, when a static one was
/// supplied, its human-authored description.
pub ghost struct KeyRecord {
    /// The namespace-qualified key text.
    pub key: Seq<char>,
    /// The description text, when present and static.
    pub description: Option<Seq<char>>,
}

/// The state threaded through one extraction run.
pub ghost struct ExtState {
    /// For each binding identity of an imported factory name, the position
    /// of the namespace argument in its calls.
    pub factories: Map<u64, usize>,
    /// For each binding identity of a translator variable, the namespace it
    /// was bound with; `None` where the factory call gave no static one.
    pub namespaces: Map<u64, Option<Seq<char>>>,
    /// The records extracted so far, in encounter order.
    pub keys: Seq<KeyRecord>,
}

/// The state a fresh extraction starts from: all three tables empty.
pub open spec fn init_state() -> ExtState {
    ExtState { factories: Map::empty(), namespaces: Map::empty(), keys: Seq::empty() }
}

/// The view of an optional string.
pub open spec fn opt_str_view(o: Option<String>) -> Option<Seq<char>> {
    match o {
        Some(s) => Some(s@),
        None => None,
    }
}

/// The static value of an expression: the text of a plain string literal, or
/// of a template literal with exactly one chunk and no interpolation; every
/// other shape has none.
pub open spec fn eval_static(e: Expr) -> Option<Seq<char>> {
    match e {
        Expr::Str(s) => Some(s@),
        Expr::Tpl { quasis, exprs } => if quasis@.len() == 1 && exprs@.len() == 0 {
            match quasis@[0] {
                Some(c) => Some(c@),
                None => None,
            }
        } else {
            None
        },
        _ => None,
    }
}

/// The namespace-argument position of a recognized factory name, and `None`
/// for every other name.
pub open spec fn factory_arg_index(name: Seq<char>) -> Option<usize> {
    if name == "useTranslations"@ || name == "getTranslations"@ {
        Some(0usize)
    } else if name == "createTranslator"@ {
        Some(1usize)
    } else {
        None
    }
}

/// The name under which a named import is matched against the recognized
/// factory names: the imported identifier when one is spelled, else the
/// local spelling (a string-literal export name also falls back to it).
pub open spec fn specifier_effective_name(local: Ident, imported: Option<ImportedName>) -> Seq<
    char,
> {
    match imported {
        Some(ImportedName::Ident(s)) => s@,
        Some(ImportedName::Str(_)) => local.sym@,
        None => local.sym@,
    }
}

/// The factory table after one import specifier of a recognized import.
pub open spec fn table_after_specifier(t: Map<u64, usize>, s: ImportSpecifier) -> Map<u64, usize> {
    match s {
        ImportSpecifier::Named { local, imported } => match factory_arg_index(
            specifier_effective_name(local, imported),
        ) {
            Some(i) => t.insert(local.id, i),
            None => t,
        },
        ImportSpecifier::Other => t,
    }
}

/// The factory table after a sequence of import specifiers, left to right.
pub open spec fn table_after_specifiers(t: Map<u64, usize>, ss: Seq<ImportSpecifier>) -> Map<
    u64,
    usize,
>
    decreases ss.len(),
{
    if ss.len() == 0 {
        t
    } else {
        table_after_specifiers(table_after_specifier(t, ss[0]), ss.drop_first())
    }
}

/// The factory table after one module item: only an import declaration whose
/// specifier is exactly `next-globe-gen` contributes.
pub open spec fn table_after_item(t: Map<u64, usize>, item: ModuleItem) -> Map<u64, usize> {
    match item {
        ModuleItem::Import(d) => if d.src@ == "next-globe-gen"@ {
            table_after_specifiers(t, d.specifiers@)
        } else {
            t
        },
        ModuleItem::Other(_) => t,
    }
}

/// The factory table after a sequence of module items, left to right.
pub open spec fn table_after_items(t: Map<u64, usize>, items: Seq<ModuleItem>) -> Map<u64, usize>
    decreases items.len(),
{
    if items.len() == 0 {
        t
    } else {
        table_after_items(table_after_item(t, items[0]), items.drop_first())
    }
}

/// The factory table of a module, built from the empty table.
pub open spec fn import_table(m: Module) -> Map<u64, usize> {
    table_after_items(Map::empty(), m.body@)
}

/// The call expression of a declarator initializer: a direct call, or a call
/// under one `await`.
pub open spec fn init_call(e: Expr) -> Option<CallExpr> {
    match e {
        Expr::Call(c) => Some(c),
        Expr::Await(b) => match *b {
            Expr::Call(c) => Some(c),
            _ => None,
        },
        _ => None,
    }
}

/// The identifier in callee position of a call, when it is a plain one.
pub open spec fn callee_ident(c: CallExpr) -> Option<Ident> {
    match c.callee {
        Callee::Expr(b) => match *b {
            Expr::Ident(i) => Some(i),
            _ => None,
        },
        Callee::Other => None,
    }
}

/// The namespace binder's action at one variable declarator: when a simple
/// identifier is initialized by a (possibly awaited) call to a tracked
/// factory binding, record the static value of the namespace argument under
/// the declared identifier's binding identity; otherwise leave the state
/// unchanged.
pub open spec fn declarator_step(st: ExtState, d: VarDeclarator) -> ExtState {
    match (d.name, d.init) {
        (Some(name), Some(init)) => match init_call(init) {
            Some(c) => match callee_ident(c) {
                Some(callee) => if st.factories.contains_key(callee.id) {
                    let idx = st.factories[callee.id];
                    let ns = if idx < c.args@.len() {
                        eval_static(c.args@[idx as int])
                    } else {
                        None
                    };
                    ExtState { namespaces: st.namespaces.insert(name.id, ns), ..st }
                } else {
                    st
                },
                None => st,
            },
            None => st,
        },
        _ => st,
    }
}

/// The qualified key: `namespace.suffix` when a non-empty namespace is
/// present, else the suffix alone.
pub open spec fn join_key(ns: Option<Seq<char>>, suffix: Seq<char>) -> Seq<char> {
    match ns {
        Some(n) => if n.len() > 0 {
            n + seq!['.'] + suffix
        } else {
            suffix
        },
        None => suffix,
    }
}

/// Whether a property key spells the description sentinel, as an identifier
/// or as a string literal.
pub open spec fn prop_name_is_description(k: PropName) -> bool {
    match k {
        PropName::Ident(s) => s@ == "_description"@,
        PropName::Str(s) => s@ == "_description"@,
        PropName::Other => false,
    }
}

/// The description carried by an object literal's entries: the static value
/// of the first property whose key spells the sentinel; `None` when that
/// property is absent or its value is not static.
pub open spec fn find_description(props: Seq<PropEntry>) -> Option<Seq<char>>
    decreases props.len(),
{
    if props.len() == 0 {
        None
    } else {
        match props[0] {
            PropEntry::KeyValue { key, value } => if prop_name_is_description(key) {
                eval_static(*value)
            } else {
                find_description(props.drop_first())
            },
            PropEntry::Other(_) => find_description(props.drop_first()),
        }
    }
}

/// The description of a call's argument list: read from a second argument
/// that is an object literal, else absent.
pub open spec fn description_of(args: Seq<Expr>) -> Option<Seq<char>> {
    if args.len() >= 2 {
        match args[1] {
            Expr::Object(props) => find_description(props@),
            _ => None,
        }
    } else {
        None
    }
}

/// The key collector's action at one call expression: when the callee is an
/// identifier tracked as a translator and the first argument has a static
/// value, append one record; otherwise leave the state unchanged.
pub open spec fn call_step(st: ExtState, c: CallExpr) -> ExtState {
    match callee_ident(c) {
        Some(i) => if st.namespaces.contains_key(i.id) && c.args@.len() > 0 {
            match eval_static(c.args@[0]) {
                Some(suffix) => ExtState {
                    keys: st.keys.push(
                        KeyRecord {
                            key: join_key(st.namespaces[i.id], suffix),
                            description: description_of(c.args@),
                        },
                    ),
                    ..st
                },
                None => st,
            }
        } else {
            st
        },
        None => st,
    }
}

/// The walk over a statement-level node.
pub open spec fn walk_node(st: ExtState, n: Node) -> ExtState
    decreases n,
{
    match n {
        Node::VarDecl(ds) => walk_declarators(st, ds@),
        Node::Expr(e) => walk_expr(st, e),
        Node::Other(children) => walk_nodes(st, children@),
    }
}

/// The walk over a sequence of statement-level nodes, left to right.
pub open spec fn walk_nodes(st: ExtState, s: Seq<Node>) -> ExtState
    decreases s,
{
    if s.len() == 0 {
        st
    } else {
        walk_nodes(walk_node(st, s[0]), s.drop_first())
    }
}

/// The walk over one declarator: the binder's action, then its initializer.
pub open spec fn walk_declarator(st: ExtState, d: VarDeclarator) -> ExtState
    decreases d,
{
    let st1 = declarator_step(st, d);
    match d.init {
        Some(e) => walk_expr(st1, e),
        None => st1,
    }
}

/// The walk over a sequence of declarators, left to right.
pub open spec fn walk_declarators(st: ExtState, ds: Seq<VarDeclarator>) -> ExtState
    decreases ds,
{
    if ds.len() == 0 {
        st
    } else {
        walk_declarators(walk_declarator(st, ds[0]), ds.drop_first())
    }
}

/// The walk over one expression: the collector acts at each call, and the
/// walk recurses into every child in document order.
pub open spec fn walk_expr(st: ExtState, e: Expr) -> ExtState
    decreases e,
{
    match e {
        Expr::Str(_) => st,
        Expr::Ident(_) => st,
        Expr::Tpl { quasis: _, exprs } => walk_exprs(st, exprs@),
        Expr::Call(c) => walk_call(st, c),
        Expr::Await(b) => walk_expr(st, *b),
        Expr::Object(props) => walk_props(st, props@),
        Expr::Other(children) => walk_nodes(st, children@),
    }
}

/// The walk over a sequence of expressions, left to right.
pub open spec fn walk_exprs(st: ExtState, s: Seq<Expr>) -> ExtState
    decreases s,
{
    if s.len() == 0 {
        st
    } else {
        walk_exprs(walk_expr(st, s[0]), s.drop_first())
    }
}

/// The walk over one call: the collector's action, then the callee, then the
/// arguments.
pub open spec fn walk_call(st: ExtState, c: CallExpr) -> ExtState
    decreases c,
{
    let st1 = call_step(st, c);
    let st2 = match c.callee {
        Callee::Expr(b) => walk_expr(st1, *b),
        Callee::Other => st1,
    };
    walk_exprs(st2, c.args@)
}

/// The walk over one object-literal entry.
pub open spec fn walk_prop(st: ExtState, p: PropEntry) -> ExtState
    decreases p,
{
    match p {
        PropEntry::KeyValue { key: _, value } => walk_expr(st, *value),
        PropEntry::Other(es) => walk_exprs(st, es@),
    }
}

/// The walk over a sequence of object-literal entries, left to right.
pub open spec fn walk_props(st: ExtState, ps: Seq<PropEntry>) -> ExtState
    decreases ps,
{
    if ps.len() == 0 {
        st
    } else {
        walk_props(walk_prop(st, ps[0]), ps.drop_first())
    }
}

/// The walk over one module item; import declarations hold no declarators
/// or calls, so the walk passes them by.
pub open spec fn walk_item(st: ExtState, item: ModuleItem) -> ExtState
    decreases item,
{
    match item {
        ModuleItem::Import(_) => st,
        ModuleItem::Other(children) => walk_nodes(st, children@),
    }
}

/// The walk over a sequence of module items, left to right.
pub open spec fn walk_items(st: ExtState, items: Seq<ModuleItem>) -> ExtState
    decreases items,
{
    if items.len() == 0 {
        st
    } else {
        walk_items(walk_item(st, items[0]), items.drop_first())
    }
}

/// The import phase: the factory table extended by every recognized import
/// of the module, the other tables untouched.
pub open spec fn import_phase(st: ExtState, m: Module) -> ExtState {
    ExtState { factories: table_after_items(st.factories, m.body@), ..st }
}

/// Visiting a whole module: the import phase, then the walk over the body.
pub open spec fn module_walk(st: ExtState, m: Module) -> ExtState {
    walk_items(import_phase(st, m), m.body@)
}

/// The extraction of a module from a fresh state: the records it yields, in
/// encounter order.
pub open spec fn extract_spec(m: Module) -> Seq<KeyRecord> {
    module_walk(init_state(), m).keys
}

} // verus!
