//! Spelling-independence of the extraction.
//!
//! Two trees are *similar* when they agree on everything the extractor can
//! read except the spelling of identifiers: binding identities, literal
//! texts and imported names are equal, while each identifier's surface text
//! may differ freely — with the one exception of a named import that spells
//! no imported name (or spells it as a string literal), whose local
//! spelling doubles as the imported name and must therefore agree.
//!
//! The main theorem: similar modules extract identical record sequences.
//! Aliasing an imported factory name, together with every use of the alias,
//! produces a similar module, so aliasing changes no extracted key text.

use vstd::prelude::*;
use crate::ast::{
    CallExpr, Callee, Expr, ImportDecl, ImportSpecifier, ImportedName, Module, ModuleItem, Node,
    PropEntry, PropName, VarDeclarator,
};
use crate::model::{
    call_step, callee_ident, declarator_step, description_of, eval_static, extract_spec,
    find_description, import_phase, init_call, init_state, opt_str_view,
    prop_name_is_description, specifier_effective_name, table_after_item, table_after_items,
    table_after_specifier, table_after_specifiers, walk_call, walk_declarator, walk_declarators,
    walk_expr, walk_exprs, walk_item, walk_items, walk_node, walk_nodes, walk_prop, walk_props,
    ExtState,
};

verus! {

/// Similar imported-name positions: equal texts, variant for variant.
pub open spec fn sim_imported(a: Option<ImportedName>, b: Option<ImportedName>) -> bool {
    match (a, b) {
        (Some(ImportedName::Ident(s1)), Some(ImportedName::Ident(s2))) => s1@ == s2@,
        (Some(ImportedName::Str(s1)), Some(ImportedName::Str(s2))) => s1@ == s2@,
        (None, None) => true,
        _ => false,
    }
}

/// Similar import specifiers: equal binding identities and imported names;
/// the local spelling may differ only where an imported identifier is
/// spelled, since otherwise the local spelling is the imported name.
pub open spec fn sim_specifier(a: ImportSpecifier, b: ImportSpecifier) -> bool {
    match (a, b) {
        (
            ImportSpecifier::Named { local: l1, imported: i1 },
            ImportSpecifier::Named { local: l2, imported: i2 },
        ) => {
            &&& l1.id == l2.id
            &&& sim_imported(i1, i2)
            &&& match i1 {
                Some(ImportedName::Ident(_)) => true,
                _ => l1.sym@ == l2.sym@,
            }
        },
        (ImportSpecifier::Other, ImportSpecifier::Other) => true,
        _ => false,
    }
}

/// Similar import declarations: equal sources, similar specifiers.
pub open spec fn sim_import(a: ImportDecl, b: ImportDecl) -> bool {
    &&& a.src@ == b.src@
    &&& a.specifiers@.len() == b.specifiers@.len()
    &&& forall|i: int|
        0 <= i < a.specifiers@.len() ==> sim_specifier(
            #[trigger] a.specifiers@[i],
            b.specifiers@[i],
        )
}

/// Similar property names: equal texts, variant for variant.
pub open spec fn sim_prop_name(a: PropName, b: PropName) -> bool {
    match (a, b) {
        (PropName::Ident(s1), PropName::Ident(s2)) => s1@ == s2@,
        (PropName::Str(s1), PropName::Str(s2)) => s1@ == s2@,
        (PropName::Other, PropName::Other) => true,
        _ => false,
    }
}

/// Similar expressions: equal in every part the extractor reads, while
/// identifier spellings may differ.
pub open spec fn sim_expr(a: Expr, b: Expr) -> bool
    decreases a,
{
    match (a, b) {
        (Expr::Str(s1), Expr::Str(s2)) => s1@ == s2@,
        (Expr::Tpl { quasis: q1, exprs: e1 }, Expr::Tpl { quasis: q2, exprs: e2 }) => {
            &&& q1@.len() == q2@.len()
            &&& forall|i: int|
                0 <= i < q1@.len() ==> opt_str_view(#[trigger] q1@[i]) == opt_str_view(q2@[i])
            &&& sim_exprs(e1@, e2@)
        },
        (Expr::Ident(i1), Expr::Ident(i2)) => i1.id == i2.id,
        (Expr::Call(c1), Expr::Call(c2)) => sim_call(c1, c2),
        (Expr::Await(b1), Expr::Await(b2)) => sim_expr(*b1, *b2),
        (Expr::Object(p1), Expr::Object(p2)) => sim_props(p1@, p2@),
        (Expr::Other(n1), Expr::Other(n2)) => sim_nodes(n1@, n2@),
        _ => false,
    }
}

/// Similar expression sequences, element for element.
pub open spec fn sim_exprs(a: Seq<Expr>, b: Seq<Expr>) -> bool
    decreases a,
{
    &&& a.len() == b.len()
    &&& (a.len() > 0 ==> sim_expr(a[0], b[0]) && sim_exprs(a.drop_first(), b.drop_first()))
}

/// Similar calls: similar callees and arguments.
pub open spec fn sim_call(a: CallExpr, b: CallExpr) -> bool
    decreases a,
{
    &&& match (a.callee, b.callee) {
        (Callee::Expr(c1), Callee::Expr(c2)) => sim_expr(*c1, *c2),
        (Callee::Other, Callee::Other) => true,
        _ => false,
    }
    &&& sim_exprs(a.args@, b.args@)
}

/// Similar object-literal entries.
pub open spec fn sim_prop(a: PropEntry, b: PropEntry) -> bool
    decreases a,
{
    match (a, b) {
        (
            PropEntry::KeyValue { key: k1, value: v1 },
            PropEntry::KeyValue { key: k2, value: v2 },
        ) => sim_prop_name(k1, k2) && sim_expr(*v1, *v2),
        (PropEntry::Other(e1), PropEntry::Other(e2)) => sim_exprs(e1@, e2@),
        _ => false,
    }
}

/// Similar entry sequences, element for element.
pub open spec fn sim_props(a: Seq<PropEntry>, b: Seq<PropEntry>) -> bool
    decreases a,
{
    &&& a.len() == b.len()
    &&& (a.len() > 0 ==> sim_prop(a[0], b[0]) && sim_props(a.drop_first(), b.drop_first()))
}

/// Similar declarators: equal declared identities, similar initializers.
pub open spec fn sim_declarator(a: VarDeclarator, b: VarDeclarator) -> bool
    decreases a,
{
    &&& match (a.name, b.name) {
        (Some(n1), Some(n2)) => n1.id == n2.id,
        (None, None) => true,
        _ => false,
    }
    &&& match (a.init, b.init) {
        (Some(e1), Some(e2)) => sim_expr(e1, e2),
        (None, None) => true,
        _ => false,
    }
}

/// Similar declarator sequences, element for element.
pub open spec fn sim_declarators(a: Seq<VarDeclarator>, b: Seq<VarDeclarator>) -> bool
    decreases a,
{
    &&& a.len() == b.len()
    &&& (a.len() > 0 ==> sim_declarator(a[0], b[0]) && sim_declarators(
        a.drop_first(),
        b.drop_first(),
    ))
}

/// Similar statement-level nodes.
pub open spec fn sim_node(a: Node, b: Node) -> bool
    decreases a,
{
    match (a, b) {
        (Node::VarDecl(d1), Node::VarDecl(d2)) => sim_declarators(d1@, d2@),
        (Node::Expr(e1), Node::Expr(e2)) => sim_expr(e1, e2),
        (Node::Other(n1), Node::Other(n2)) => sim_nodes(n1@, n2@),
        _ => false,
    }
}

/// Similar node sequences, element for element.
pub open spec fn sim_nodes(a: Seq<Node>, b: Seq<Node>) -> bool
    decreases a,
{
    &&& a.len() == b.len()
    &&& (a.len() > 0 ==> sim_node(a[0], b[0]) && sim_nodes(a.drop_first(), b.drop_first()))
}

/// Similar module items.
pub open spec fn sim_item(a: ModuleItem, b: ModuleItem) -> bool
    decreases a,
{
    match (a, b) {
        (ModuleItem::Import(d1), ModuleItem::Import(d2)) => sim_import(d1, d2),
        (ModuleItem::Other(n1), ModuleItem::Other(n2)) => sim_nodes(n1@, n2@),
        _ => false,
    }
}

/// Similar item sequences, element for element.
pub open spec fn sim_items(a: Seq<ModuleItem>, b: Seq<ModuleItem>) -> bool
    decreases a,
{
    &&& a.len() == b.len()
    &&& (a.len() > 0 ==> sim_item(a[0], b[0]) && sim_items(a.drop_first(), b.drop_first()))
}

/// Similar modules: similar bodies.
pub open spec fn sim_module(a: Module, b: Module) -> bool {
    sim_items(a.body@, b.body@)
}

proof fn lemma_sim_exprs_index(a: Seq<Expr>, b: Seq<Expr>, i: int)
    requires
        sim_exprs(a, b),
        0 <= i < a.len(),
    ensures
        sim_expr(a[i], b[i]),
    decreases i,
{
    if i > 0 {
        assert(a.drop_first()[i - 1] == a[i]);
        assert(b.drop_first()[i - 1] == b[i]);
        lemma_sim_exprs_index(a.drop_first(), b.drop_first(), i - 1);
    }
}

proof fn lemma_sim_eval(a: Expr, b: Expr)
    requires
        sim_expr(a, b),
    ensures
        eval_static(a) == eval_static(b),
{
    match (a, b) {
        (Expr::Tpl { quasis: q1, exprs: e1 }, Expr::Tpl { quasis: q2, exprs: e2 }) => {
            assert(sim_exprs(e1@, e2@));
            assert(e1@.len() == e2@.len());
            if q1@.len() == 1 && e1@.len() == 0 {
                assert(opt_str_view(q1@[0]) == opt_str_view(q2@[0]));
            }
        },
        _ => {},
    }
}

proof fn lemma_sim_find_description(a: Seq<PropEntry>, b: Seq<PropEntry>)
    requires
        sim_props(a, b),
    ensures
        find_description(a) == find_description(b),
    decreases a,
{
    if a.len() > 0 {
        assert(sim_prop(a[0], b[0]));
        match (a[0], b[0]) {
            (
                PropEntry::KeyValue { key: k1, value: v1 },
                PropEntry::KeyValue { key: k2, value: v2 },
            ) => {
                assert(sim_prop_name(k1, k2) && sim_expr(*v1, *v2));
                assert(prop_name_is_description(k1) == prop_name_is_description(k2));
                if prop_name_is_description(k1) {
                    lemma_sim_eval(*v1, *v2);
                } else {
                    lemma_sim_find_description(a.drop_first(), b.drop_first());
                }
            },
            _ => {
                lemma_sim_find_description(a.drop_first(), b.drop_first());
            },
        }
    }
}

proof fn lemma_sim_description_of(a: Seq<Expr>, b: Seq<Expr>)
    requires
        sim_exprs(a, b),
    ensures
        description_of(a) == description_of(b),
{
    if a.len() >= 2 {
        lemma_sim_exprs_index(a, b, 1);
        match (a[1], b[1]) {
            (Expr::Object(p1), Expr::Object(p2)) => {
                lemma_sim_find_description(p1@, p2@);
            },
            _ => {},
        }
    }
}

proof fn lemma_sim_callee_ident(a: CallExpr, b: CallExpr)
    requires
        sim_call(a, b),
    ensures
        match (callee_ident(a), callee_ident(b)) {
            (Some(i1), Some(i2)) => i1.id == i2.id,
            (None, None) => true,
            _ => false,
        },
{
}

proof fn lemma_sim_call_step(st: ExtState, a: CallExpr, b: CallExpr)
    requires
        sim_call(a, b),
    ensures
        call_step(st, a) == call_step(st, b),
{
    lemma_sim_callee_ident(a, b);
    match (callee_ident(a), callee_ident(b)) {
        (Some(i1), Some(i2)) => {
            if st.namespaces.contains_key(i1.id) && a.args@.len() > 0 {
                lemma_sim_exprs_index(a.args@, b.args@, 0);
                lemma_sim_eval(a.args@[0], b.args@[0]);
                lemma_sim_description_of(a.args@, b.args@);
            }
        },
        _ => {},
    }
}

proof fn lemma_sim_declarator_step(st: ExtState, a: VarDeclarator, b: VarDeclarator)
    requires
        sim_declarator(a, b),
    ensures
        declarator_step(st, a) == declarator_step(st, b),
{
    match (a.init, b.init) {
        (Some(e1), Some(e2)) => {
            match (init_call(e1), init_call(e2)) {
                (Some(c1), Some(c2)) => {
                    assert(sim_call(c1, c2));
                    lemma_sim_callee_ident(c1, c2);
                    match (callee_ident(c1), callee_ident(c2)) {
                        (Some(i1), Some(i2)) => {
                            if st.factories.contains_key(i1.id) {
                                let idx = st.factories[i1.id];
                                if idx < c1.args@.len() {
                                    lemma_sim_exprs_index(c1.args@, c2.args@, idx as int);
                                    lemma_sim_eval(c1.args@[idx as int], c2.args@[idx as int]);
                                }
                            }
                        },
                        _ => {},
                    }
                },
                _ => {},
            }
        },
        _ => {},
    }
}

proof fn lemma_sim_specifier_table(t: Map<u64, usize>, a: ImportSpecifier, b: ImportSpecifier)
    requires
        sim_specifier(a, b),
    ensures
        table_after_specifier(t, a) == table_after_specifier(t, b),
{
    match (a, b) {
        (
            ImportSpecifier::Named { local: l1, imported: i1 },
            ImportSpecifier::Named { local: l2, imported: i2 },
        ) => {
            assert(specifier_effective_name(l1, i1) == specifier_effective_name(l2, i2));
        },
        _ => {},
    }
}

proof fn lemma_sim_specifiers_table(
    t: Map<u64, usize>,
    a: Seq<ImportSpecifier>,
    b: Seq<ImportSpecifier>,
)
    requires
        a.len() == b.len(),
        forall|i: int| 0 <= i < a.len() ==> sim_specifier(#[trigger] a[i], b[i]),
    ensures
        table_after_specifiers(t, a) == table_after_specifiers(t, b),
    decreases a.len(),
{
    if a.len() > 0 {
        lemma_sim_specifier_table(t, a[0], b[0]);
        assert forall|i: int| 0 <= i < a.drop_first().len() implies sim_specifier(
            #[trigger] a.drop_first()[i],
            b.drop_first()[i],
        ) by {
            assert(a.drop_first()[i] == a[i + 1]);
            assert(b.drop_first()[i] == b[i + 1]);
        }
        lemma_sim_specifiers_table(table_after_specifier(t, a[0]), a.drop_first(), b.drop_first());
    }
}

proof fn lemma_sim_items_table(t: Map<u64, usize>, a: Seq<ModuleItem>, b: Seq<ModuleItem>)
    requires
        sim_items(a, b),
    ensures
        table_after_items(t, a) == table_after_items(t, b),
    decreases a,
{
    if a.len() > 0 {
        match (a[0], b[0]) {
            (ModuleItem::Import(d1), ModuleItem::Import(d2)) => {
                lemma_sim_specifiers_table(t, d1.specifiers@, d2.specifiers@);
            },
            _ => {},
        }
        lemma_sim_items_table(table_after_item(t, a[0]), a.drop_first(), b.drop_first());
    }
}

proof fn lemma_sim_walk_node(st: ExtState, a: Node, b: Node)
    requires
        sim_node(a, b),
    ensures
        walk_node(st, a) == walk_node(st, b),
    decreases a,
{
    match (a, b) {
        (Node::VarDecl(d1), Node::VarDecl(d2)) => lemma_sim_walk_declarators(st, d1@, d2@),
        (Node::Expr(e1), Node::Expr(e2)) => lemma_sim_walk_expr(st, e1, e2),
        (Node::Other(n1), Node::Other(n2)) => lemma_sim_walk_nodes(st, n1@, n2@),
        _ => {},
    }
}

proof fn lemma_sim_walk_nodes(st: ExtState, a: Seq<Node>, b: Seq<Node>)
    requires
        sim_nodes(a, b),
    ensures
        walk_nodes(st, a) == walk_nodes(st, b),
    decreases a,
{
    if a.len() > 0 {
        lemma_sim_walk_node(st, a[0], b[0]);
        lemma_sim_walk_nodes(walk_node(st, a[0]), a.drop_first(), b.drop_first());
    }
}

proof fn lemma_sim_walk_declarator(st: ExtState, a: VarDeclarator, b: VarDeclarator)
    requires
        sim_declarator(a, b),
    ensures
        walk_declarator(st, a) == walk_declarator(st, b),
    decreases a,
{
    lemma_sim_declarator_step(st, a, b);
    match (a.init, b.init) {
        (Some(e1), Some(e2)) => lemma_sim_walk_expr(declarator_step(st, a), e1, e2),
        _ => {},
    }
}

proof fn lemma_sim_walk_declarators(st: ExtState, a: Seq<VarDeclarator>, b: Seq<VarDeclarator>)
    requires
        sim_declarators(a, b),
    ensures
        walk_declarators(st, a) == walk_declarators(st, b),
    decreases a,
{
    if a.len() > 0 {
        lemma_sim_walk_declarator(st, a[0], b[0]);
        lemma_sim_walk_declarators(walk_declarator(st, a[0]), a.drop_first(), b.drop_first());
    }
}

proof fn lemma_sim_walk_expr(st: ExtState, a: Expr, b: Expr)
    requires
        sim_expr(a, b),
    ensures
        walk_expr(st, a) == walk_expr(st, b),
    decreases a,
{
    match (a, b) {
        (Expr::Tpl { quasis: _, exprs: e1 }, Expr::Tpl { quasis: _, exprs: e2 }) => {
            lemma_sim_walk_exprs(st, e1@, e2@);
        },
        (Expr::Call(c1), Expr::Call(c2)) => lemma_sim_walk_call(st, c1, c2),
        (Expr::Await(b1), Expr::Await(b2)) => lemma_sim_walk_expr(st, *b1, *b2),
        (Expr::Object(p1), Expr::Object(p2)) => lemma_sim_walk_props(st, p1@, p2@),
        (Expr::Other(n1), Expr::Other(n2)) => lemma_sim_walk_nodes(st, n1@, n2@),
        _ => {},
    }
}

proof fn lemma_sim_walk_exprs(st: ExtState, a: Seq<Expr>, b: Seq<Expr>)
    requires
        sim_exprs(a, b),
    ensures
        walk_exprs(st, a) == walk_exprs(st, b),
    decreases a,
{
    if a.len() > 0 {
        lemma_sim_walk_expr(st, a[0], b[0]);
        lemma_sim_walk_exprs(walk_expr(st, a[0]), a.drop_first(), b.drop_first());
    }
}

proof fn lemma_sim_walk_call(st: ExtState, a: CallExpr, b: CallExpr)
    requires
        sim_call(a, b),
    ensures
        walk_call(st, a) == walk_call(st, b),
    decreases a,
{
    lemma_sim_call_step(st, a, b);
    let st1 = call_step(st, a);
    match (a.callee, b.callee) {
        (Callee::Expr(c1), Callee::Expr(c2)) => {
            lemma_sim_walk_expr(st1, *c1, *c2);
            lemma_sim_walk_exprs(walk_expr(st1, *c1), a.args@, b.args@);
        },
        _ => {
            lemma_sim_walk_exprs(st1, a.args@, b.args@);
        },
    }
}

proof fn lemma_sim_walk_props(st: ExtState, a: Seq<PropEntry>, b: Seq<PropEntry>)
    requires
        sim_props(a, b),
    ensures
        walk_props(st, a) == walk_props(st, b),
    decreases a,
{
    if a.len() > 0 {
        assert(sim_prop(a[0], b[0]));
        match (a[0], b[0]) {
            (
                PropEntry::KeyValue { key: _, value: v1 },
                PropEntry::KeyValue { key: _, value: v2 },
            ) => {
                assert(sim_expr(*v1, *v2));
                lemma_sim_walk_expr(st, *v1, *v2);
                assert(walk_prop(st, a[0]) == walk_expr(st, *v1));
                assert(walk_prop(st, b[0]) == walk_expr(st, *v2));
            },
            (PropEntry::Other(e1), PropEntry::Other(e2)) => {
                assert(sim_exprs(e1@, e2@));
                lemma_sim_walk_exprs(st, e1@, e2@);
                assert(walk_prop(st, a[0]) == walk_exprs(st, e1@));
                assert(walk_prop(st, b[0]) == walk_exprs(st, e2@));
            },
            _ => {},
        }
        lemma_sim_walk_props(walk_prop(st, a[0]), a.drop_first(), b.drop_first());
    }
}

proof fn lemma_sim_walk_items(st: ExtState, a: Seq<ModuleItem>, b: Seq<ModuleItem>)
    requires
        sim_items(a, b),
    ensures
        walk_items(st, a) == walk_items(st, b),
    decreases a,
{
    if a.len() > 0 {
        match (a[0], b[0]) {
            (ModuleItem::Other(n1), ModuleItem::Other(n2)) => {
                lemma_sim_walk_nodes(st, n1@, n2@);
            },
            _ => {},
        }
        lemma_sim_walk_items(walk_item(st, a[0]), a.drop_first(), b.drop_first());
    }
}

/// Extraction never reads an identifier's spelling, only its binding
/// identity and the imported names: similar modules yield identical
/// record sequences.  In particular, aliasing an imported factory name
/// (`import { useTranslations as useT }`, with every use of the alias)
/// changes no extracted key text.
pub proof fn lemma_extraction_ignores_spelling(m1: Module, m2: Module)
    requires
        sim_module(m1, m2),
    ensures
        extract_spec(m1) == extract_spec(m2),
{
    lemma_sim_items_table(Map::empty(), m1.body@, m2.body@);
    assert(import_phase(init_state(), m1) == import_phase(init_state(), m2));
    lemma_sim_walk_items(import_phase(init_state(), m1), m1.body@, m2.body@);
}

} // verus!
