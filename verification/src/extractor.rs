//! The extraction visitor: executable code proved against the model.
//!
//! `KeyExtractorVisitor` carries the three tables of one extraction run.
//! Visiting a module first records every recognized factory import, then
//! walks the body depth first, binding translator variables to their
//! namespaces and appending one record per statically-keyed translator
//! call.  Its whole effect equals the model's fold, state for state.

use vstd::prelude::*;
use std::collections::HashMap;
use rustc_hash::FxBuildHasher;
use crate::ast::{
    CallExpr, Callee, Expr, ImportDecl, ImportSpecifier, ImportedName, Module, ModuleItem, Node,
    PropEntry, PropName, VarDeclarator,
};
use crate::model::{
    call_step, callee_ident, declarator_step, eval_static, extract_spec, find_description,
    import_phase, init_call, init_state, module_walk, opt_str_view, specifier_effective_name,
    table_after_item, table_after_items, table_after_specifier, table_after_specifiers, walk_call,
    walk_declarator, walk_declarators, walk_expr, walk_exprs, walk_item, walk_items, walk_node,
    walk_nodes, walk_prop, walk_props, ExtState, KeyRecord,
};
use crate::maps::{fx_map_get, fx_map_insert, fx_map_new};
use vstd::string::StringExecFns;

verus! {

/// One extracted record: the namespace-qualified key and, when a static one
/// was supplied, its description.
pub struct ExtractedKey {
    /// The fully-qualified key text.
    pub key: String,
    /// The description text, when present and static.
    pub description: Option<String>,
}

impl View for ExtractedKey {
    type V = KeyRecord;

    open spec fn view(&self) -> KeyRecord {
        KeyRecord { key: self.key@, description: opt_str_view(self.description) }
    }
}

/// The view of a namespace table: each entry's optional string, viewed.
pub open spec fn ns_map_view(m: Map<u64, Option<String>>) -> Map<u64, Option<Seq<char>>> {
    m.map_values(|v: Option<String>| opt_str_view(v))
}

/// The view of an output sequence: each record, viewed.
pub open spec fn keys_view(s: Seq<ExtractedKey>) -> Seq<KeyRecord> {
    s.map_values(|k: ExtractedKey| k@)
}

proof fn lemma_ns_map_view_insert(m: Map<u64, Option<String>>, k: u64, v: Option<String>)
    ensures
        ns_map_view(m.insert(k, v)) == ns_map_view(m).insert(k, opt_str_view(v)),
{
    assert(ns_map_view(m.insert(k, v)) =~= ns_map_view(m).insert(k, opt_str_view(v)));
}

proof fn lemma_ns_map_view_empty()
    ensures
        ns_map_view(Map::<u64, Option<String>>::empty()) == Map::<u64, Option<Seq<char>>>::empty(),
{
    assert(ns_map_view(Map::<u64, Option<String>>::empty()) =~= Map::<
        u64,
        Option<Seq<char>>,
    >::empty());
}

proof fn lemma_keys_view_push(s: Seq<ExtractedKey>, k: ExtractedKey)
    ensures
        keys_view(s.push(k)) == keys_view(s).push(k@),
{
    assert(keys_view(s.push(k)) =~= keys_view(s).push(k@));
}

/// The extraction visitor: one instance per module, one traversal, one
/// output sequence.
pub struct KeyExtractorVisitor {
    /// Binding identity of an imported factory name, to the position of the
    /// namespace argument in its calls.
    translator_functions: HashMap<u64, usize, FxBuildHasher>,
    /// Binding identity of a translator variable, to its namespace.
    translator_function_namespaces: HashMap<u64, Option<String>, FxBuildHasher>,
    /// The extracted records, in encounter order.
    pub extracted_keys: Vec<ExtractedKey>,
}

impl View for KeyExtractorVisitor {
    type V = ExtState;

    closed spec fn view(&self) -> ExtState {
        ExtState {
            factories: self.translator_functions@,
            namespaces: ns_map_view(self.translator_function_namespaces@),
            keys: keys_view(self.extracted_keys@),
        }
    }
}

impl Default for KeyExtractorVisitor {
    fn default() -> (v: Self)
        ensures
            v@ == init_state(),
    {
        Self::new()
    }
}

impl KeyExtractorVisitor {
    /// A fresh visitor: all three tables empty.
    pub fn new() -> (v: Self)
        ensures
            v@ == init_state(),
    {
        let v = KeyExtractorVisitor {
            translator_functions: fx_map_new(),
            translator_function_namespaces: fx_map_new(),
            extracted_keys: Vec::new(),
        };
        proof {
            lemma_ns_map_view_empty();
            assert(keys_view(v.extracted_keys@) =~= Seq::<KeyRecord>::empty());
        }
        v
    }

    /// The static value of an expression, as the model's evaluator gives it.
    fn extract_static_string(expr: &Expr) -> (r: Option<String>)
        ensures
            opt_str_view(r) == eval_static(*expr),
    {
        match expr {
            Expr::Str(s) => Some(s.clone()),
            Expr::Tpl { quasis, exprs } => {
                if quasis.len() == 1 && exprs.len() == 0 {
                    match &quasis[0] {
                        Some(c) => Some(c.clone()),
                        None => None,
                    }
                } else {
                    None
                }
            },
            _ => None,
        }
    }

    /// The description held by a second argument that is an object literal:
    /// the static value of its first property keyed by the sentinel name.
    #[verifier::loop_isolation(false)]
    fn extract_static_description(expr: &Expr) -> (r: Option<String>)
        ensures
            opt_str_view(r) == match *expr {
                Expr::Object(props) => find_description(props@),
                _ => None,
            },
    {
        let props = match expr {
            Expr::Object(props) => props,
            _ => { return None; },
        };
        let sentinel = "_description".to_owned();
        let mut i: usize = 0;
        proof {
            assert(props@.skip(0int) =~= props@);
        }
        while i < props.len()
            invariant
                i <= props@.len(),
                sentinel@ == "_description"@,
                find_description(props@) == find_description(props@.skip(i as int)),
            decreases props@.len() - i,
        {
            match &props[i] {
                PropEntry::KeyValue { key, value } => {
                    let is_desc = match key {
                        PropName::Ident(s) => *s == sentinel,
                        PropName::Str(s) => *s == sentinel,
                        PropName::Other => false,
                    };
                    if is_desc {
                        proof {
                            assert(props@.skip(i as int)[0] == props@[i as int]);
                            assert(find_description(props@.skip(i as int)) == eval_static(
                                **value,
                            ));
                        }
                        return Self::extract_static_string(&**value);
                    }
                },
                PropEntry::Other(_) => {},
            }
            proof {
                assert(props@.skip(i as int)[0] == props@[i as int]);
                assert(props@.skip(i as int).drop_first() =~= props@.skip(i as int + 1));
            }
            i = i + 1;
        }
        None
    }

    /// The import resolver's action at one specifier: a named import of a
    /// recognized factory name enters the factory table under its local
    /// binding identity.
    fn process_import_specifier(&mut self, node: &ImportSpecifier)
        ensures
            final(self)@ == (ExtState {
                factories: table_after_specifier(old(self)@.factories, *node),
                ..old(self)@
            }),
    {
        let (local, imported) = match node {
            ImportSpecifier::Named { local, imported } => (local, imported),
            ImportSpecifier::Other => { return; },
        };
        let function_name = match imported {
            Some(ImportedName::Ident(s)) => s,
            Some(ImportedName::Str(_)) => &local.sym,
            None => &local.sym,
        };
        proof {
            assert(function_name@ == specifier_effective_name(*local, *imported));
        }
        let namespace_arg_index: usize;
        if *function_name == "useTranslations".to_owned() || *function_name
            == "getTranslations".to_owned() {
            namespace_arg_index = 0;
        } else if *function_name == "createTranslator".to_owned() {
            namespace_arg_index = 1;
        } else {
            return;
        }
        fx_map_insert(&mut self.translator_functions, local.id, namespace_arg_index);
    }

    /// The import resolver's action at one import declaration: only one
    /// whose source specifier is exactly the recognized module contributes.
    fn process_import_decl(&mut self, node: &ImportDecl)
        ensures
            final(self)@ == (ExtState {
                factories: if node.src@ == "next-globe-gen"@ {
                    table_after_specifiers(old(self)@.factories, node.specifiers@)
                } else {
                    old(self)@.factories
                },
                ..old(self)@
            }),
    {
        if !(node.src == "next-globe-gen".to_owned()) {
            return;
        }
        let mut i: usize = 0;
        proof {
            assert(node.specifiers@.skip(0int) =~= node.specifiers@);
        }
        while i < node.specifiers.len()
            invariant
                i <= node.specifiers@.len(),
                self@.namespaces == old(self)@.namespaces,
                self@.keys == old(self)@.keys,
                table_after_specifiers(self@.factories, node.specifiers@.skip(i as int))
                    == table_after_specifiers(old(self)@.factories, node.specifiers@),
            decreases node.specifiers@.len() - i,
        {
            proof {
                assert(node.specifiers@.skip(i as int)[0] == node.specifiers@[i as int]);
                assert(node.specifiers@.skip(i as int).drop_first() =~= node.specifiers@.skip(
                    i as int + 1,
                ));
            }
            self.process_import_specifier(&node.specifiers[i]);
            i = i + 1;
        }
        proof {
            assert(node.specifiers@.skip(node.specifiers@.len() as int)
                =~= Seq::<ImportSpecifier>::empty());
        }
    }

    /// The import resolver's action at one module item.
    fn process_module_item(&mut self, item: &ModuleItem)
        ensures
            final(self)@ == (ExtState {
                factories: table_after_item(old(self)@.factories, *item),
                ..old(self)@
            }),
    {
        match item {
            ModuleItem::Import(import) => self.process_import_decl(import),
            ModuleItem::Other(_) => {},
        }
    }

    /// The import phase: every item's imports, in order.
    fn process_module(&mut self, module: &Module)
        ensures
            final(self)@ == import_phase(old(self)@, *module),
    {
        let mut i: usize = 0;
        proof {
            assert(module.body@.skip(0int) =~= module.body@);
        }
        while i < module.body.len()
            invariant
                i <= module.body@.len(),
                self@.namespaces == old(self)@.namespaces,
                self@.keys == old(self)@.keys,
                table_after_items(self@.factories, module.body@.skip(i as int))
                    == table_after_items(old(self)@.factories, module.body@),
            decreases module.body@.len() - i,
        {
            proof {
                assert(module.body@.skip(i as int)[0] == module.body@[i as int]);
                assert(module.body@.skip(i as int).drop_first() =~= module.body@.skip(i as int + 1));
            }
            self.process_module_item(&module.body[i]);
            i = i + 1;
        }
        proof {
            assert(module.body@.skip(module.body@.len() as int) =~= Seq::<ModuleItem>::empty());
        }
    }

    /// The namespace binder's action at one variable declarator: record the
    /// statically-evaluated namespace argument of a tracked factory call
    /// under the declared identifier's binding identity.
    pub fn process_var_declarator(&mut self, node: &VarDeclarator)
        ensures
            final(self)@ == declarator_step(old(self)@, *node),
    {
        let name = match &node.name {
            Some(name) => name,
            None => { return; },
        };
        let init = match &node.init {
            Some(init) => init,
            None => { return; },
        };
        let call = match init {
            Expr::Call(call) => call,
            Expr::Await(arg) => match &**arg {
                Expr::Call(call) => call,
                _ => { return; },
            },
            _ => { return; },
        };
        proof {
            assert(init_call(*init) == Some(*call));
        }
        let callee = match &call.callee {
            Callee::Expr(callee) => match &**callee {
                Expr::Ident(ident) => ident,
                _ => { return; },
            },
            Callee::Other => { return; },
        };
        proof {
            assert(callee_ident(*call) == Some(*callee));
        }
        let namespace_arg_index: usize = match fx_map_get(&self.translator_functions, callee.id) {
            Some(idx) => *idx,
            None => { return; },
        };
        let namespace: Option<String> = if namespace_arg_index < call.args.len() {
            Self::extract_static_string(&call.args[namespace_arg_index])
        } else {
            None
        };
        proof {
            lemma_ns_map_view_insert(
                self.translator_function_namespaces@,
                name.id,
                namespace,
            );
        }
        fx_map_insert(&mut self.translator_function_namespaces, name.id, namespace);
    }

    /// The key collector's action at one call expression: when the callee
    /// identifier is tracked as a translator and the first argument has a
    /// static value, append one record to the output.
    pub fn process_call_expr(&mut self, call: &CallExpr)
        ensures
            final(self)@ == call_step(old(self)@, *call),
    {
        let ident = match &call.callee {
            Callee::Expr(callee) => match &**callee {
                Expr::Ident(ident) => ident,
                _ => { return; },
            },
            Callee::Other => { return; },
        };
        proof {
            assert(callee_ident(*call) == Some(*ident));
        }
        let namespace = match fx_map_get(&self.translator_function_namespaces, ident.id) {
            Some(ns) => ns,
            None => { return; },
        };
        if call.args.len() == 0 {
            return;
        }
        let ns_key = match Self::extract_static_string(&call.args[0]) {
            Some(k) => k,
            None => { return; },
        };
        let key: String = match namespace {
            Some(ns) => {
                if !ns.as_str().is_empty() {
                    proof {
                        reveal_strlit(".");
                        assert("."@ =~= seq!['.']);
                    }
                    ns.clone().concat(".").concat(ns_key.as_str())
                } else {
                    ns_key
                }
            },
            None => ns_key,
        };
        let description: Option<String> = if call.args.len() >= 2 {
            Self::extract_static_description(&call.args[1])
        } else {
            None
        };
        let record = ExtractedKey { key, description };
        proof {
            lemma_keys_view_push(self.extracted_keys@, record);
        }
        self.extracted_keys.push(record);
    }

    /// Visit one whole module: the import phase over the top-level items,
    /// then the depth-first walk of the body.
    pub fn visit_module(&mut self, module: &Module)
        ensures
            final(self)@ == module_walk(old(self)@, *module),
    {
        self.process_module(module);
        self.visit_module_items(module);
    }

    /// The walk over the module body, item by item.
    fn visit_module_items(&mut self, module: &Module)
        ensures
            final(self)@ == walk_items(old(self)@, module.body@),
    {
        let mut i: usize = 0;
        proof {
            assert(module.body@.skip(0int) =~= module.body@);
        }
        while i < module.body.len()
            invariant
                i <= module.body@.len(),
                walk_items(old(self)@, module.body@) == walk_items(
                    self@,
                    module.body@.skip(i as int),
                ),
            decreases module.body@.len() - i,
        {
            proof {
                assert(module.body@.skip(i as int)[0] == module.body@[i as int]);
                assert(module.body@.skip(i as int).drop_first() =~= module.body@.skip(i as int + 1));
            }
            self.visit_module_item(&module.body[i]);
            i = i + 1;
        }
        proof {
            assert(module.body@.skip(module.body@.len() as int) =~= Seq::<ModuleItem>::empty());
        }
    }

    /// The walk over one module item.
    fn visit_module_item(&mut self, item: &ModuleItem)
        ensures
            final(self)@ == walk_item(old(self)@, *item),
    {
        match item {
            ModuleItem::Import(_) => {},
            ModuleItem::Other(children) => self.visit_nodes(children),
        }
    }

    /// The walk over a sequence of statement-level nodes.
    fn visit_nodes(&mut self, nodes: &Vec<Node>)
        ensures
            final(self)@ == walk_nodes(old(self)@, nodes@),
        decreases nodes@,
    {
        let mut i: usize = 0;
        proof {
            assert(nodes@.skip(0int) =~= nodes@);
        }
        while i < nodes.len()
            invariant
                i <= nodes@.len(),
                walk_nodes(old(self)@, nodes@) == walk_nodes(self@, nodes@.skip(i as int)),
            decreases nodes@.len() - i,
        {
            proof {
                assert(nodes@.skip(i as int)[0] == nodes@[i as int]);
                assert(nodes@.skip(i as int).drop_first() =~= nodes@.skip(i as int + 1));
            }
            self.visit_node(&nodes[i]);
            i = i + 1;
        }
        proof {
            assert(nodes@.skip(nodes@.len() as int) =~= Seq::<Node>::empty());
        }
    }

    /// The walk over one statement-level node.
    fn visit_node(&mut self, node: &Node)
        ensures
            final(self)@ == walk_node(old(self)@, *node),
        decreases *node,
    {
        match node {
            Node::VarDecl(ds) => self.visit_var_declarators(ds),
            Node::Expr(e) => self.visit_expr(e),
            Node::Other(children) => self.visit_nodes(children),
        }
    }

    /// The walk over the declarators of one variable declaration.
    fn visit_var_declarators(&mut self, ds: &Vec<VarDeclarator>)
        ensures
            final(self)@ == walk_declarators(old(self)@, ds@),
        decreases ds@,
    {
        let mut i: usize = 0;
        proof {
            assert(ds@.skip(0int) =~= ds@);
        }
        while i < ds.len()
            invariant
                i <= ds@.len(),
                walk_declarators(old(self)@, ds@) == walk_declarators(self@, ds@.skip(i as int)),
            decreases ds@.len() - i,
        {
            proof {
                assert(ds@.skip(i as int)[0] == ds@[i as int]);
                assert(ds@.skip(i as int).drop_first() =~= ds@.skip(i as int + 1));
            }
            self.visit_var_declarator(&ds[i]);
            i = i + 1;
        }
        proof {
            assert(ds@.skip(ds@.len() as int) =~= Seq::<VarDeclarator>::empty());
        }
    }

    /// The walk over one declarator: the binder's action, then its
    /// initializer's subtree.
    pub fn visit_var_declarator(&mut self, node: &VarDeclarator)
        ensures
            final(self)@ == walk_declarator(old(self)@, *node),
        decreases *node,
    {
        self.process_var_declarator(node);
        match &node.init {
            Some(e) => self.visit_expr(e),
            None => {},
        }
    }

    /// The walk over one expression.
    fn visit_expr(&mut self, expr: &Expr)
        ensures
            final(self)@ == walk_expr(old(self)@, *expr),
        decreases *expr,
    {
        match expr {
            Expr::Str(_) => {},
            Expr::Ident(_) => {},
            Expr::Tpl { quasis: _, exprs } => self.visit_exprs(exprs),
            Expr::Call(c) => self.visit_call_expr(c),
            Expr::Await(b) => self.visit_expr(&**b),
            Expr::Object(props) => self.visit_props(props),
            Expr::Other(children) => self.visit_nodes(children),
        }
    }

    /// The walk over a sequence of expressions.
    fn visit_exprs(&mut self, exprs: &Vec<Expr>)
        ensures
            final(self)@ == walk_exprs(old(self)@, exprs@),
        decreases exprs@,
    {
        let mut i: usize = 0;
        proof {
            assert(exprs@.skip(0int) =~= exprs@);
        }
        while i < exprs.len()
            invariant
                i <= exprs@.len(),
                walk_exprs(old(self)@, exprs@) == walk_exprs(self@, exprs@.skip(i as int)),
            decreases exprs@.len() - i,
        {
            proof {
                assert(exprs@.skip(i as int)[0] == exprs@[i as int]);
                assert(exprs@.skip(i as int).drop_first() =~= exprs@.skip(i as int + 1));
            }
            self.visit_expr(&exprs[i]);
            i = i + 1;
        }
        proof {
            assert(exprs@.skip(exprs@.len() as int) =~= Seq::<Expr>::empty());
        }
    }

    /// The walk over one call: the collector's action, then the callee,
    /// then the arguments.
    pub fn visit_call_expr(&mut self, call: &CallExpr)
        ensures
            final(self)@ == walk_call(old(self)@, *call),
        decreases *call,
    {
        self.process_call_expr(call);
        match &call.callee {
            Callee::Expr(b) => self.visit_expr(&**b),
            Callee::Other => {},
        }
        self.visit_exprs(&call.args);
    }

    /// The walk over the entries of one object literal.
    fn visit_props(&mut self, props: &Vec<PropEntry>)
        ensures
            final(self)@ == walk_props(old(self)@, props@),
        decreases props@,
    {
        let mut i: usize = 0;
        proof {
            assert(props@.skip(0int) =~= props@);
        }
        while i < props.len()
            invariant
                i <= props@.len(),
                walk_props(old(self)@, props@) == walk_props(self@, props@.skip(i as int)),
            decreases props@.len() - i,
        {
            proof {
                assert(props@.skip(i as int)[0] == props@[i as int]);
                assert(props@.skip(i as int).drop_first() =~= props@.skip(i as int + 1));
            }
            match &props[i] {
                PropEntry::KeyValue { key: _, value } => {
                    proof {
                        assert(walk_prop(self@, props@[i as int]) == walk_expr(self@, **value));
                    }
                    self.visit_expr(&**value);
                },
                PropEntry::Other(es) => {
                    proof {
                        assert(walk_prop(self@, props@[i as int]) == walk_exprs(self@, es@));
                    }
                    self.visit_exprs(es);
                },
            }
            i = i + 1;
        }
        proof {
            assert(props@.skip(props@.len() as int) =~= Seq::<PropEntry>::empty());
        }
    }
}

/// One whole extraction run over a module: the records of every tracked,
/// statically-keyed translator call, in encounter order.
pub fn extract_keys(module: &Module) -> (r: Vec<ExtractedKey>)
    ensures
        keys_view(r@) == extract_spec(*module),
{
    let mut visitor = KeyExtractorVisitor::new();
    visitor.visit_module(module);
    visitor.extracted_keys
}

} // verus!
