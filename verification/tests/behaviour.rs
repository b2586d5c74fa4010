use key_extractor::ast::{
    CallExpr, Callee, Expr, Ident, ImportDecl, ImportSpecifier, ImportedName, Module, ModuleItem,
    Node, PropEntry, PropName, VarDeclarator,
};
use key_extractor::extractor::extract_keys;

fn ident(sym: &str, id: u64) -> Ident {
    Ident { sym: sym.to_string(), id }
}

fn import_from(src: &str, specifiers: Vec<ImportSpecifier>) -> ModuleItem {
    ModuleItem::Import(ImportDecl { src: src.to_string(), specifiers })
}

fn named(local: Ident) -> ImportSpecifier {
    ImportSpecifier::Named { local, imported: None }
}

fn s(text: &str) -> Expr {
    Expr::Str(text.to_string())
}

fn call_to(callee: Ident, args: Vec<Expr>) -> CallExpr {
    CallExpr { callee: Callee::Expr(Box::new(Expr::Ident(callee))), args }
}

fn decl(name: Ident, init: Expr) -> Node {
    Node::VarDecl(vec![VarDeclarator { name: Some(name), init: Some(init) }])
}

fn func(body: Vec<Node>) -> ModuleItem {
    ModuleItem::Other(body)
}

#[test]
fn other_module_imports_yield_nothing() {
    let module = Module {
        body: vec![
            import_from("some-other-lib", vec![named(ident("useTranslations", 1))]),
            func(vec![
                decl(
                    ident("t", 2),
                    Expr::Call(call_to(ident("useTranslations", 1), vec![s("common")])),
                ),
                Node::Expr(Expr::Call(call_to(ident("t", 2), vec![s("greeting")]))),
            ]),
        ],
    };
    assert_eq!(extract_keys(&module).len(), 0);
}

#[test]
fn unrecognized_name_from_recognized_module_yields_nothing() {
    let module = Module {
        body: vec![
            import_from("next-globe-gen", vec![named(ident("useFormatter", 1))]),
            func(vec![
                decl(ident("f", 2), Expr::Call(call_to(ident("useFormatter", 1), vec![s("ns")]))),
                Node::Expr(Expr::Call(call_to(ident("f", 2), vec![s("key")]))),
            ]),
        ],
    };
    assert_eq!(extract_keys(&module).len(), 0);
}

#[test]
fn alias_yields_same_keys_as_plain_import() {
    let plain = Module {
        body: vec![
            import_from("next-globe-gen", vec![named(ident("useTranslations", 1))]),
            func(vec![
                decl(
                    ident("t", 2),
                    Expr::Call(call_to(ident("useTranslations", 1), vec![s("ns")])),
                ),
                Node::Expr(Expr::Call(call_to(ident("t", 2), vec![s("key")]))),
            ]),
        ],
    };
    let aliased = Module {
        body: vec![
            import_from(
                "next-globe-gen",
                vec![ImportSpecifier::Named {
                    local: ident("useT", 1),
                    imported: Some(ImportedName::Ident("useTranslations".to_string())),
                }],
            ),
            func(vec![
                decl(ident("t", 2), Expr::Call(call_to(ident("useT", 1), vec![s("ns")]))),
                Node::Expr(Expr::Call(call_to(ident("t", 2), vec![s("key")]))),
            ]),
        ],
    };
    let a = extract_keys(&plain);
    let b = extract_keys(&aliased);
    assert_eq!(a.len(), b.len());
    for i in 0..a.len() {
        assert_eq!(a[i].key, b[i].key);
        assert_eq!(a[i].description, b[i].description);
    }
}

#[test]
fn empty_namespace_string_gives_bare_key() {
    let module = Module {
        body: vec![
            import_from("next-globe-gen", vec![named(ident("useTranslations", 1))]),
            func(vec![
                decl(ident("t", 2), Expr::Call(call_to(ident("useTranslations", 1), vec![s("")]))),
                Node::Expr(Expr::Call(call_to(ident("t", 2), vec![s("key")]))),
            ]),
        ],
    };
    let keys = extract_keys(&module);
    assert_eq!(keys.len(), 1);
    assert_eq!(keys[0].key, "key");
}

#[test]
fn missing_namespace_argument_gives_bare_key() {
    let module = Module {
        body: vec![
            import_from("next-globe-gen", vec![named(ident("createTranslator", 1))]),
            func(vec![
                decl(
                    ident("t", 2),
                    Expr::Call(call_to(ident("createTranslator", 1), vec![s("en")])),
                ),
                Node::Expr(Expr::Call(call_to(ident("t", 2), vec![s("key")]))),
            ]),
        ],
    };
    let keys = extract_keys(&module);
    assert_eq!(keys.len(), 1);
    assert_eq!(keys[0].key, "key");
}

#[test]
fn dynamic_namespace_keeps_binding_tracked() {
    let module = Module {
        body: vec![
            import_from("next-globe-gen", vec![named(ident("useTranslations", 1))]),
            func(vec![
                decl(
                    ident("t", 2),
                    Expr::Call(call_to(
                        ident("useTranslations", 1),
                        vec![Expr::Ident(ident("dynamicNs", 3))],
                    )),
                ),
                Node::Expr(Expr::Call(call_to(ident("t", 2), vec![s("key")]))),
            ]),
        ],
    };
    let keys = extract_keys(&module);
    assert_eq!(keys.len(), 1);
    assert_eq!(keys[0].key, "key");
}

#[test]
fn string_literal_property_key_matches_sentinel() {
    let module = Module {
        body: vec![
            import_from("next-globe-gen", vec![named(ident("useTranslations", 1))]),
            func(vec![
                decl(
                    ident("t", 2),
                    Expr::Call(call_to(ident("useTranslations", 1), vec![s("ns")])),
                ),
                Node::Expr(Expr::Call(call_to(
                    ident("t", 2),
                    vec![
                        s("key"),
                        Expr::Object(vec![PropEntry::KeyValue {
                            key: PropName::Str("_description".to_string()),
                            value: Box::new(s("Quoted sentinel")),
                        }]),
                    ],
                ))),
            ]),
        ],
    };
    let keys = extract_keys(&module);
    assert_eq!(keys.len(), 1);
    assert_eq!(keys[0].description, Some("Quoted sentinel".to_string()));
}

#[test]
fn second_argument_not_object_gives_no_description() {
    let module = Module {
        body: vec![
            import_from("next-globe-gen", vec![named(ident("useTranslations", 1))]),
            func(vec![
                decl(
                    ident("t", 2),
                    Expr::Call(call_to(ident("useTranslations", 1), vec![s("ns")])),
                ),
                Node::Expr(Expr::Call(call_to(ident("t", 2), vec![s("key"), s("not an object")]))),
            ]),
        ],
    };
    let keys = extract_keys(&module);
    assert_eq!(keys.len(), 1);
    assert_eq!(keys[0].description, None);
}

#[test]
fn first_sentinel_property_wins() {
    let module = Module {
        body: vec![
            import_from("next-globe-gen", vec![named(ident("useTranslations", 1))]),
            func(vec![
                decl(
                    ident("t", 2),
                    Expr::Call(call_to(ident("useTranslations", 1), vec![s("ns")])),
                ),
                Node::Expr(Expr::Call(call_to(
                    ident("t", 2),
                    vec![
                        s("key"),
                        Expr::Object(vec![
                            PropEntry::KeyValue {
                                key: PropName::Ident("_description".to_string()),
                                value: Box::new(Expr::Ident(ident("dynamicDesc", 3))),
                            },
                            PropEntry::KeyValue {
                                key: PropName::Ident("_description".to_string()),
                                value: Box::new(s("Second, ignored")),
                            },
                        ]),
                    ],
                ))),
            ]),
        ],
    };
    let keys = extract_keys(&module);
    assert_eq!(keys.len(), 1);
    assert_eq!(keys[0].description, None);
}

#[test]
fn same_spelling_different_bindings_resolved_separately() {
    let module = Module {
        body: vec![
            import_from("next-globe-gen", vec![named(ident("useTranslations", 1))]),
            func(vec![
                decl(
                    ident("t", 2),
                    Expr::Call(call_to(ident("useTranslations", 1), vec![s("first")])),
                ),
                Node::Expr(Expr::Call(call_to(ident("t", 2), vec![s("a")]))),
            ]),
            func(vec![
                decl(
                    ident("t", 3),
                    Expr::Call(call_to(ident("useTranslations", 1), vec![s("second")])),
                ),
                Node::Expr(Expr::Call(call_to(ident("t", 3), vec![s("b")]))),
            ]),
        ],
    };
    let keys = extract_keys(&module);
    assert_eq!(keys.len(), 2);
    assert_eq!(keys[0].key, "first.a");
    assert_eq!(keys[1].key, "second.b");
}

#[test]
fn factory_call_alone_yields_no_record() {
    let module = Module {
        body: vec![
            import_from("next-globe-gen", vec![named(ident("useTranslations", 1))]),
            func(vec![Node::Expr(Expr::Call(call_to(
                ident("useTranslations", 1),
                vec![s("ns")],
            )))]),
        ],
    };
    assert_eq!(extract_keys(&module).len(), 0);
}

#[test]
fn call_before_declaration_is_not_extracted() {
    let module = Module {
        body: vec![
            import_from("next-globe-gen", vec![named(ident("useTranslations", 1))]),
            func(vec![
                Node::Expr(Expr::Call(call_to(ident("t", 2), vec![s("early")]))),
                decl(
                    ident("t", 2),
                    Expr::Call(call_to(ident("useTranslations", 1), vec![s("ns")])),
                ),
                Node::Expr(Expr::Call(call_to(ident("t", 2), vec![s("late")]))),
            ]),
        ],
    };
    let keys = extract_keys(&module);
    assert_eq!(keys.len(), 1);
    assert_eq!(keys[0].key, "ns.late");
}

#[test]
fn extraction_is_idempotent() {
    let module = Module {
        body: vec![
            import_from("next-globe-gen", vec![named(ident("useTranslations", 1))]),
            func(vec![
                decl(
                    ident("t", 2),
                    Expr::Call(call_to(ident("useTranslations", 1), vec![s("ns")])),
                ),
                Node::Expr(Expr::Call(call_to(ident("t", 2), vec![s("one")]))),
                Node::Expr(Expr::Call(call_to(ident("t", 2), vec![s("two")]))),
            ]),
        ],
    };
    let first = extract_keys(&module);
    let second = extract_keys(&module);
    assert_eq!(first.len(), second.len());
    for i in 0..first.len() {
        assert_eq!(first[i].key, second[i].key);
        assert_eq!(first[i].description, second[i].description);
    }
    assert_eq!(first.len(), 2);
    assert_eq!(first[0].key, "ns.one");
    assert_eq!(first[1].key, "ns.two");
}
