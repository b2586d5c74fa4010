use key_extractor::ast::{
    CallExpr, Callee, Expr, Ident, ImportDecl, ImportSpecifier, ImportedName, Module, ModuleItem,
    Node, PropEntry, PropName, VarDeclarator,
};
use key_extractor::extractor::extract_keys;

fn ident(sym: &str, id: u64) -> Ident {
    Ident { sym: sym.to_string(), id }
}

fn import_from(src: &str, specifiers: Vec<ImportSpecifier>) -> ModuleItem {
    ModuleItem::Import(ImportDecl { src: src.to_string(), specifiers })
}

fn named(local: Ident) -> ImportSpecifier {
    ImportSpecifier::Named { local, imported: None }
}

fn named_as(imported: &str, local: Ident) -> ImportSpecifier {
    ImportSpecifier::Named { local, imported: Some(ImportedName::Ident(imported.to_string())) }
}

fn s(text: &str) -> Expr {
    Expr::Str(text.to_string())
}

fn tpl1(chunk: &str) -> Expr {
    Expr::Tpl { quasis: vec![Some(chunk.to_string())], exprs: vec![] }
}

fn call_to(callee: Ident, args: Vec<Expr>) -> CallExpr {
    CallExpr { callee: Callee::Expr(Box::new(Expr::Ident(callee))), args }
}

fn decl(name: Ident, init: Expr) -> Node {
    Node::VarDecl(vec![VarDeclarator { name: Some(name), init: Some(init) }])
}

fn desc_obj(text: &str) -> Expr {
    Expr::Object(vec![PropEntry::KeyValue {
        key: PropName::Ident("_description".to_string()),
        value: Box::new(s(text)),
    }])
}

fn func(body: Vec<Node>) -> ModuleItem {
    ModuleItem::Other(body)
}

#[test]
fn use_translations() {
    let module = Module {
        body: vec![
            import_from("next-globe-gen", vec![named(ident("useTranslations", 1))]),
            func(vec![
                decl(
                    ident("t", 2),
                    Expr::Call(call_to(ident("useTranslations", 1), vec![s("common")])),
                ),
                Node::Expr(Expr::Call(call_to(
                    ident("t", 2),
                    vec![s("greeting"), desc_obj("A welcome message")],
                ))),
            ]),
        ],
    };
    let keys = extract_keys(&module);
    assert_eq!(keys.len(), 1);
    assert_eq!(keys[0].key, "common.greeting");
    assert_eq!(keys[0].description, Some("A welcome message".to_string()));
}

#[test]
fn use_translations_without_namespace() {
    let module = Module {
        body: vec![
            import_from("next-globe-gen", vec![named(ident("useTranslations", 1))]),
            func(vec![
                decl(ident("t", 2), Expr::Call(call_to(ident("useTranslations", 1), vec![]))),
                Node::Expr(Expr::Call(call_to(
                    ident("t", 2),
                    vec![s("hello"), desc_obj("Hello message")],
                ))),
            ]),
        ],
    };
    let keys = extract_keys(&module);
    assert_eq!(keys.len(), 1);
    assert_eq!(keys[0].key, "hello");
    assert_eq!(keys[0].description, Some("Hello message".to_string()));
}

#[test]
fn use_translations_without_description() {
    let module = Module {
        body: vec![
            import_from("next-globe-gen", vec![named(ident("useTranslations", 1))]),
            func(vec![
                decl(
                    ident("t", 2),
                    Expr::Call(call_to(ident("useTranslations", 1), vec![s("ns")])),
                ),
                Node::Expr(Expr::Call(call_to(ident("t", 2), vec![s("key")]))),
            ]),
        ],
    };
    let keys = extract_keys(&module);
    assert_eq!(keys.len(), 1);
    assert_eq!(keys[0].key, "ns.key");
    assert_eq!(keys[0].description, None);
}

#[test]
fn get_translations_async() {
    let module = Module {
        body: vec![
            import_from("next-globe-gen", vec![named(ident("getTranslations", 1))]),
            func(vec![
                decl(
                    ident("t", 2),
                    Expr::Await(Box::new(Expr::Call(call_to(
                        ident("getTranslations", 1),
                        vec![s("page")],
                    )))),
                ),
                Node::Expr(Expr::Call(call_to(
                    ident("t", 2),
                    vec![s("title"), desc_obj("Page title")],
                ))),
            ]),
        ],
    };
    let keys = extract_keys(&module);
    assert_eq!(keys.len(), 1);
    assert_eq!(keys[0].key, "page.title");
    assert_eq!(keys[0].description, Some("Page title".to_string()));
}

#[test]
fn create_translator_server_function() {
    let module = Module {
        body: vec![
            import_from("next-globe-gen", vec![named(ident("createTranslator", 1))]),
            func(vec![
                Node::Expr(s("use server")),
                decl(
                    ident("t", 2),
                    Expr::Call(call_to(ident("createTranslator", 1), vec![s("en"), s("server")])),
                ),
                Node::Expr(Expr::Call(call_to(
                    ident("t", 2),
                    vec![s("key"), desc_obj("Server function key")],
                ))),
            ]),
        ],
    };
    let keys = extract_keys(&module);
    assert_eq!(keys.len(), 1);
    assert_eq!(keys[0].key, "server.key");
    assert_eq!(keys[0].description, Some("Server function key".to_string()));
}

#[test]
fn multiple_translators() {
    let module = Module {
        body: vec![
            import_from("next-globe-gen", vec![named(ident("useTranslations", 1))]),
            func(vec![
                decl(
                    ident("t", 2),
                    Expr::Call(call_to(ident("useTranslations", 1), vec![s("common")])),
                ),
                decl(
                    ident("tPage", 3),
                    Expr::Call(call_to(ident("useTranslations", 1), vec![s("page")])),
                ),
                Node::Expr(Expr::Other(vec![
                    Node::Expr(Expr::Call(call_to(
                        ident("t", 2),
                        vec![s("header"), desc_obj("Header text")],
                    ))),
                    Node::Expr(Expr::Call(call_to(
                        ident("tPage", 3),
                        vec![s("content"), desc_obj("Page content")],
                    ))),
                ])),
            ]),
        ],
    };
    let keys = extract_keys(&module);
    assert_eq!(keys.len(), 2);
    assert_eq!(keys[0].key, "common.header");
    assert_eq!(keys[0].description, Some("Header text".to_string()));
    assert_eq!(keys[1].key, "page.content");
    assert_eq!(keys[1].description, Some("Page content".to_string()));
}

#[test]
fn template_literal_key() {
    let module = Module {
        body: vec![
            import_from("next-globe-gen", vec![named(ident("useTranslations", 1))]),
            func(vec![
                decl(
                    ident("t", 2),
                    Expr::Call(call_to(ident("useTranslations", 1), vec![s("ns")])),
                ),
                Node::Expr(Expr::Call(call_to(ident("t", 2), vec![tpl1("staticKey")]))),
            ]),
        ],
    };
    let keys = extract_keys(&module);
    assert_eq!(keys.len(), 1);
    assert_eq!(keys[0].key, "ns.staticKey");
}

#[test]
fn dynamic_key_skipped() {
    let module = Module {
        body: vec![
            import_from("next-globe-gen", vec![named(ident("useTranslations", 1))]),
            func(vec![
                decl(ident("t", 2), Expr::Call(call_to(ident("useTranslations", 1), vec![]))),
                Node::Expr(Expr::Call(call_to(ident("t", 2), vec![Expr::Ident(ident("key", 3))]))),
            ]),
        ],
    };
    let keys = extract_keys(&module);
    assert_eq!(keys.len(), 0); // Dynamic keys cannot be extracted
}

#[test]
fn renamed_import() {
    let module = Module {
        body: vec![
            import_from("next-globe-gen", vec![named_as("useTranslations", ident("useT", 1))]),
            func(vec![
                decl(ident("translate", 2), Expr::Call(call_to(ident("useT", 1), vec![s("ns")]))),
                Node::Expr(Expr::Call(call_to(ident("translate", 2), vec![s("key")]))),
            ]),
        ],
    };
    let keys = extract_keys(&module);
    assert_eq!(keys.len(), 1);
    assert_eq!(keys[0].key, "ns.key");
}

#[test]
fn nested_key() {
    let module = Module {
        body: vec![
            import_from("next-globe-gen", vec![named(ident("useTranslations", 1))]),
            func(vec![
                decl(
                    ident("t", 2),
                    Expr::Call(call_to(ident("useTranslations", 1), vec![s("section")])),
                ),
                Node::Expr(Expr::Call(call_to(ident("t", 2), vec![s("nested.deep.key")]))),
            ]),
        ],
    };
    let keys = extract_keys(&module);
    assert_eq!(keys.len(), 1);
    assert_eq!(keys[0].key, "section.nested.deep.key");
}

#[test]
fn template_literals_with_expressions_are_skipped() {
    let module = Module {
        body: vec![
            import_from("next-globe-gen", vec![named(ident("useTranslations", 1))]),
            func(vec![
                decl(
                    ident("t", 2),
                    Expr::Call(call_to(ident("useTranslations", 1), vec![s("messages")])),
                ),
                Node::Expr(Expr::Call(call_to(
                    ident("t", 2),
                    vec![Expr::Tpl {
                        quasis: vec![Some("dynamic.".to_string()), Some(".key".to_string())],
                        exprs: vec![Expr::Ident(ident("type", 3))],
                    }],
                ))),
            ]),
        ],
    };
    let keys = extract_keys(&module);
    assert_eq!(keys.len(), 0);
}

#[test]
fn dynamic_description_is_skipped() {
    let module = Module {
        body: vec![
            import_from("next-globe-gen", vec![named(ident("useTranslations", 1))]),
            func(vec![
                decl(
                    ident("t", 2),
                    Expr::Call(call_to(ident("useTranslations", 1), vec![s("ns")])),
                ),
                Node::Expr(Expr::Call(call_to(
                    ident("t", 2),
                    vec![
                        s("key"),
                        Expr::Object(vec![PropEntry::KeyValue {
                            key: PropName::Ident("_description".to_string()),
                            value: Box::new(Expr::Ident(ident("desc", 3))),
                        }]),
                    ],
                ))),
            ]),
        ],
    };
    let keys = extract_keys(&module);
    assert_eq!(keys.len(), 1);
    assert_eq!(keys[0].key, "ns.key");
    assert_eq!(keys[0].description, None);
}

#[test]
fn description_with_template_literal() {
    let module = Module {
        body: vec![
            import_from("next-globe-gen", vec![named(ident("useTranslations", 1))]),
            func(vec![
                decl(
                    ident("t", 2),
                    Expr::Call(call_to(ident("useTranslations", 1), vec![s("ns")])),
                ),
                Node::Expr(Expr::Call(call_to(
                    ident("t", 2),
                    vec![
                        s("key"),
                        Expr::Object(vec![PropEntry::KeyValue {
                            key: PropName::Ident("_description".to_string()),
                            value: Box::new(tpl1("Static template description")),
                        }]),
                    ],
                ))),
            ]),
        ],
    };
    let keys = extract_keys(&module);
    assert_eq!(keys.len(), 1);
    assert_eq!(keys[0].key, "ns.key");
    assert_eq!(keys[0].description, Some("Static template description".to_string()));
}
