//! General laws of the extraction, proved against the model.
//!
//! Each public proof function states one property that holds of every
//! module, state or call, over the same spec functions that the executable
//! functions' contracts use.

use vstd::prelude::*;
use crate::ast::{CallExpr, Expr, Ident, ImportSpecifier, ImportedName, Module, ModuleItem, Node,
    PropEntry, VarDeclarator};
use crate::model::{
    call_step, callee_ident, declarator_step, description_of, eval_static, extract_spec,
    import_phase, init_call, init_state, join_key, module_walk, table_after_items,
    table_after_specifier, walk_call, walk_declarator, walk_declarators, walk_expr, walk_exprs,
    walk_items, walk_node, walk_nodes, walk_prop, walk_props, ExtState, KeyRecord,
};

verus! {

/// Whether a module item is an import declaration from the recognized
/// module specifier.
pub open spec fn is_recognized_import(item: ModuleItem) -> bool {
    match item {
        ModuleItem::Import(d) => d.src@ == "next-globe-gen"@,
        ModuleItem::Other(_) => false,
    }
}

/// A state in which nothing is tracked: no factory binding and no
/// translator binding.
pub open spec fn inert_state(st: ExtState) -> bool {
    &&& st.factories == Map::<u64, usize>::empty()
    &&& st.namespaces == Map::<u64, Option<Seq<char>>>::empty()
}

proof fn lemma_table_unrecognized_items(t: Map<u64, usize>, items: Seq<ModuleItem>)
    requires
        forall|i: int| 0 <= i < items.len() ==> !(#[trigger] is_recognized_import(items[i])),
    ensures
        table_after_items(t, items) == t,
    decreases items.len(),
{
    if items.len() > 0 {
        assert(!is_recognized_import(items[0]));
        assert forall|i: int| 0 <= i < items.drop_first().len() implies !(
        #[trigger] is_recognized_import(items.drop_first()[i])) by {
            assert(items.drop_first()[i] == items[i + 1]);
        }
        lemma_table_unrecognized_items(t, items.drop_first());
    }
}

proof fn lemma_inert_node(st: ExtState, n: Node)
    requires
        inert_state(st),
    ensures
        walk_node(st, n) == st,
    decreases n,
{
    match n {
        Node::VarDecl(ds) => lemma_inert_declarators(st, ds@),
        Node::Expr(e) => lemma_inert_expr(st, e),
        Node::Other(children) => lemma_inert_nodes(st, children@),
    }
}

proof fn lemma_inert_nodes(st: ExtState, s: Seq<Node>)
    requires
        inert_state(st),
    ensures
        walk_nodes(st, s) == st,
    decreases s,
{
    if s.len() > 0 {
        lemma_inert_node(st, s[0]);
        lemma_inert_nodes(st, s.drop_first());
    }
}

proof fn lemma_inert_declarator(st: ExtState, d: VarDeclarator)
    requires
        inert_state(st),
    ensures
        walk_declarator(st, d) == st,
    decreases d,
{
    assert(declarator_step(st, d) == st);
    match d.init {
        Some(e) => lemma_inert_expr(st, e),
        None => {},
    }
}

proof fn lemma_inert_declarators(st: ExtState, ds: Seq<VarDeclarator>)
    requires
        inert_state(st),
    ensures
        walk_declarators(st, ds) == st,
    decreases ds,
{
    if ds.len() > 0 {
        lemma_inert_declarator(st, ds[0]);
        lemma_inert_declarators(st, ds.drop_first());
    }
}

proof fn lemma_inert_expr(st: ExtState, e: Expr)
    requires
        inert_state(st),
    ensures
        walk_expr(st, e) == st,
    decreases e,
{
    match e {
        Expr::Str(_) => {},
        Expr::Ident(_) => {},
        Expr::Tpl { quasis: _, exprs } => lemma_inert_exprs(st, exprs@),
        Expr::Call(c) => lemma_inert_call(st, c),
        Expr::Await(b) => lemma_inert_expr(st, *b),
        Expr::Object(props) => lemma_inert_props(st, props@),
        Expr::Other(children) => lemma_inert_nodes(st, children@),
    }
}

proof fn lemma_inert_exprs(st: ExtState, s: Seq<Expr>)
    requires
        inert_state(st),
    ensures
        walk_exprs(st, s) == st,
    decreases s,
{
    if s.len() > 0 {
        lemma_inert_expr(st, s[0]);
        lemma_inert_exprs(st, s.drop_first());
    }
}

proof fn lemma_inert_call(st: ExtState, c: CallExpr)
    requires
        inert_state(st),
    ensures
        walk_call(st, c) == st,
    decreases c,
{
    assert(call_step(st, c) == st);
    match c.callee {
        crate::ast::Callee::Expr(b) => lemma_inert_expr(st, *b),
        crate::ast::Callee::Other => {},
    }
    lemma_inert_exprs(st, c.args@);
}

proof fn lemma_inert_props(st: ExtState, ps: Seq<PropEntry>)
    requires
        inert_state(st),
    ensures
        walk_props(st, ps) == st,
    decreases ps,
{
    if ps.len() > 0 {
        match ps[0] {
            PropEntry::KeyValue { key: _, value } => {
                lemma_inert_expr(st, *value);
                assert(walk_prop(st, ps[0]) == walk_expr(st, *value));
            },
            PropEntry::Other(es) => {
                lemma_inert_exprs(st, es@);
                assert(walk_prop(st, ps[0]) == walk_exprs(st, es@));
            },
        }
        lemma_inert_props(st, ps.drop_first());
    }
}

proof fn lemma_inert_items(st: ExtState, items: Seq<ModuleItem>)
    requires
        inert_state(st),
    ensures
        walk_items(st, items) == st,
    decreases items,
{
    if items.len() > 0 {
        match items[0] {
            ModuleItem::Import(_) => {},
            ModuleItem::Other(children) => lemma_inert_nodes(st, children@),
        }
        lemma_inert_items(st, items.drop_first());
    }
}

/// A module with no import from the recognized specifier yields an empty
/// output sequence: nothing is ever tracked, so nothing is ever extracted.
pub proof fn lemma_no_recognized_import_no_keys(m: Module)
    requires
        forall|i: int| 0 <= i < m.body@.len() ==> !(#[trigger] is_recognized_import(m.body@[i])),
    ensures
        (extract_spec(m) == Seq::<KeyRecord>::empty()),
{
    lemma_table_unrecognized_items(Map::empty(), m.body@);
    lemma_inert_items(import_phase(init_state(), m), m.body@);
}

/// Aliasing an imported factory name (`import { useTranslations as useT }`)
/// changes nothing: the factory table entry depends only on the imported
/// name and the local binding identity, never on the local spelling.
pub proof fn lemma_alias_spelling_irrelevant(
    t: Map<u64, usize>,
    s1: ImportSpecifier,
    s2: ImportSpecifier,
)
    requires
        ({
            &&& s1 matches ImportSpecifier::Named { local: l1, imported: i1 }
            &&& s2 matches ImportSpecifier::Named { local: l2, imported: i2 }
            &&& l1.id == l2.id
            &&& i1 == i2
            &&& i1 matches Some(ImportedName::Ident(_))
        }),
    ensures
        table_after_specifier(t, s1) == table_after_specifier(t, s2),
{
}

/// The namespace binder resolves a declarator through binding identities
/// alone: two declarators that agree on the declared identity, the callee
/// identity and the arguments act identically, whatever the spellings.
pub proof fn lemma_binder_resolves_by_identity(
    st: ExtState,
    d1: VarDeclarator,
    d2: VarDeclarator,
)
    requires
        ({
            &&& d1.name matches Some(n1)
            &&& d2.name matches Some(n2)
            &&& n1.id == n2.id
            &&& d1.init matches Some(e1)
            &&& d2.init matches Some(e2)
            &&& init_call(e1) matches Some(c1)
            &&& init_call(e2) matches Some(c2)
            &&& callee_ident(c1) matches Some(i1)
            &&& callee_ident(c2) matches Some(i2)
            &&& i1.id == i2.id
            &&& c1.args == c2.args
        }),
    ensures
        declarator_step(st, d1) == declarator_step(st, d2),
{
}

/// The key collector resolves a call through the callee's binding identity
/// alone: two calls that agree on that identity and on the arguments act
/// identically, whatever the callee's spelling.
pub proof fn lemma_collector_resolves_by_identity(st: ExtState, c1: CallExpr, c2: CallExpr)
    requires
        ({
            &&& callee_ident(c1) matches Some(i1)
            &&& callee_ident(c2) matches Some(i2)
            &&& i1.id == i2.id
            &&& c1.args == c2.args
        }),
    ensures
        call_step(st, c1) == call_step(st, c2),
{
}

/// A call whose first argument has no static value is skipped entirely:
/// the collector appends no record and changes no table.
pub proof fn lemma_dynamic_key_skipped(st: ExtState, c: CallExpr)
    requires
        c.args@.len() == 0 || eval_static(c.args@[0]) is None,
    ensures
        call_step(st, c) == st,
{
}

/// A call keyed by a template literal with interpolation is skipped: such
/// a template has no static value.
pub proof fn lemma_interpolated_template_skipped(st: ExtState, c: CallExpr)
    requires
        c.args@.len() > 0,
        ({
            &&& c.args@[0] matches Expr::Tpl { quasis: _, exprs }
            &&& exprs@.len() > 0
        }),
    ensures
        call_step(st, c) == st,
{
}

/// A template literal with one chunk and no interpolation has exactly the
/// static value of the equivalent string literal.
pub proof fn lemma_plain_template_like_string(tpl: Expr, lit: Expr)
    requires
        ({
            &&& tpl matches Expr::Tpl { quasis, exprs }
            &&& exprs@.len() == 0
            &&& quasis@.len() == 1
            &&& lit matches Expr::Str(s)
            &&& quasis@[0] matches Some(c)
            &&& c@ == s@
        }),
    ensures
        eval_static(tpl) == eval_static(lit),
{
}

/// A call keyed by a one-chunk, non-interpolated template acts exactly as
/// the call keyed by the equivalent string literal.
pub proof fn lemma_template_key_like_string_key(st: ExtState, c1: CallExpr, c2: CallExpr)
    requires
        c1.callee == c2.callee,
        c1.args@.len() == c2.args@.len(),
        c1.args@.len() >= 1,
        c1.args@.drop_first() == c2.args@.drop_first(),
        ({
            &&& c1.args@[0] matches Expr::Tpl { quasis, exprs }
            &&& exprs@.len() == 0
            &&& quasis@.len() == 1
            &&& c2.args@[0] matches Expr::Str(s)
            &&& quasis@[0] matches Some(c)
            &&& c@ == s@
        }),
    ensures
        call_step(st, c1) == call_step(st, c2),
{
    lemma_plain_template_like_string(c1.args@[0], c2.args@[0]);
    if c1.args@.len() >= 2 {
        assert(c1.args@[1] == c1.args@.drop_first()[0]);
        assert(c2.args@[1] == c2.args@.drop_first()[0]);
        assert(description_of(c1.args@) == description_of(c2.args@));
    }
}

/// The collector's exact action at a tracked, statically-keyed call: one
/// record is appended, whose namespace is the one bound to the callee's own
/// binding identity, and the tables are untouched.
pub proof fn lemma_tracked_call_appends_one_record(
    st: ExtState,
    c: CallExpr,
    i: Ident,
    suffix: Seq<char>,
)
    requires
        callee_ident(c) == Some(i),
        st.namespaces.contains_key(i.id),
        c.args@.len() > 0,
        (eval_static(c.args@[0]) == Some(suffix)),
    ensures
        (call_step(st, c).keys == st.keys.push(
            KeyRecord {
                key: join_key(st.namespaces[i.id], suffix),
                description: description_of(c.args@),
            },
        )),
        call_step(st, c).namespaces == st.namespaces,
        call_step(st, c).factories == st.factories,
{
}

/// A call whose callee identity is not tracked as a translator leaves the
/// state unchanged: no record is attributed to another binding.
pub proof fn lemma_untracked_call_skipped(st: ExtState, c: CallExpr, i: Ident)
    requires
        callee_ident(c) == Some(i),
        !st.namespaces.contains_key(i.id),
    ensures
        call_step(st, c) == st,
{
}

/// Extraction is a function of the tree alone: two runs over the same
/// module from fresh states yield the same output, record for record.
pub proof fn lemma_extraction_deterministic(m: Module, r1: Seq<KeyRecord>, r2: Seq<KeyRecord>)
    requires
        (r1 == module_walk(init_state(), m).keys),
        (r2 == module_walk(init_state(), m).keys),
    ensures
        r1 == r2,
{
}

} // verus!
