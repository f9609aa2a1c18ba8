use otc::ast::{ArrowBody, Expr, Function, Pat, Prop, PropName, Stmt, VarDeclarator, VarKind};
use otc::options::{MethodDecl, WatchDecl};
use otc::transform::{transform_computed, transform_mounted, transform_watch};
use otc::write::write_setup;

fn ident(t: &str) -> Expr {
    Expr::Ident(t.to_string())
}

fn call(name: &str, args: Vec<Expr>) -> Expr {
    Expr::Call { callee: Box::new(ident(name)), args }
}

fn kv(key: &str, value: Expr) -> Prop {
    Prop::KeyValue { key: PropName::Ident(key.to_string()), value }
}

fn function(body: Option<Vec<Stmt>>) -> Function {
    Function { params: vec![Pat::Ident("v".to_string())], body, is_async: false, is_generator: false }
}

#[test]
fn watch_passes_deep_and_immediate_in_order() {
    let decls = vec![WatchDecl {
        ident: "w".to_string(),
        function: function(Some(vec![Stmt::Expr(call("f", vec![]))])),
        deep: Some(Expr::Bool(true)),
        immediate: Some(Expr::Bool(false)),
    }];
    let expected = Stmt::Expr(call(
        "watch",
        vec![
            ident("w"),
            Expr::Arrow {
                params: vec![Pat::Ident("v".to_string())],
                body: Box::new(ArrowBody::Block(vec![Stmt::Expr(call("f", vec![]))])),
                is_async: false,
                is_generator: false,
            },
            Expr::Object(vec![kv("deep", Expr::Bool(true)), kv("immediate", Expr::Bool(false))]),
        ],
    ));
    assert_eq!(transform_watch(&decls), vec![expected]);
}

#[test]
fn watch_with_immediate_only() {
    let decls = vec![WatchDecl {
        ident: "w".to_string(),
        function: function(Some(vec![Stmt::Return(Some(ident("v")))])),
        deep: None,
        immediate: Some(Expr::Bool(true)),
    }];
    let expected = Stmt::Expr(call(
        "watch",
        vec![
            ident("w"),
            Expr::Arrow {
                params: vec![Pat::Ident("v".to_string())],
                body: Box::new(ArrowBody::Expr(Box::new(ident("v")))),
                is_async: false,
                is_generator: false,
            },
            Expr::Object(vec![kv("immediate", Expr::Bool(true))]),
        ],
    ));
    assert_eq!(transform_watch(&decls), vec![expected]);
}

#[test]
fn watcher_without_body_is_skipped() {
    let decls = vec![WatchDecl { ident: "w".to_string(), function: function(None), deep: None, immediate: None }];
    assert!(transform_watch(&decls).is_empty());
}

#[test]
fn computed_with_several_statements_keeps_its_block() {
    let body = vec![
        Stmt::Var {
            kind: VarKind::Let,
            decls: vec![VarDeclarator { name: Pat::Ident("a".to_string()), init: Some(ident("b")) }],
        },
        Stmt::Return(Some(ident("a"))),
    ];
    let decls = vec![MethodDecl { ident: "total".to_string(), function: function(Some(body)) }];
    let expected = Stmt::Var {
        kind: VarKind::Const,
        decls: vec![VarDeclarator {
            name: Pat::Ident("total".to_string()),
            init: Some(call(
                "computed",
                vec![Expr::Arrow {
                    params: vec![],
                    body: Box::new(ArrowBody::Block(vec![
                        Stmt::Var {
                            kind: VarKind::Let,
                            decls: vec![VarDeclarator {
                                name: Pat::Ident("a".to_string()),
                                init: Some(ident("b")),
                            }],
                        },
                        Stmt::Return(Some(ident("a"))),
                    ])),
                    is_async: false,
                    is_generator: false,
                }],
            )),
        }],
    };
    assert_eq!(transform_computed(&decls), vec![expected]);
}

#[test]
fn mounted_keeps_async_and_generator_flags() {
    let f = Function { params: vec![], body: Some(vec![]), is_async: true, is_generator: true };
    let expected = Stmt::Expr(call(
        "onMounted",
        vec![Expr::Arrow {
            params: vec![],
            body: Box::new(ArrowBody::Block(vec![])),
            is_async: true,
            is_generator: true,
        }],
    ));
    assert_eq!(transform_mounted(&f), vec![expected]);
}

#[test]
fn setup_returns_functions_classes_and_variables() {
    let stmts = vec![
        Stmt::FnDecl { ident: "f".to_string(), function: function(Some(vec![])) },
        Stmt::ClassDecl { ident: "C".to_string(), class: 0 },
        Stmt::Var {
            kind: VarKind::Let,
            decls: vec![
                VarDeclarator { name: Pat::Ident("a".to_string()), init: None },
                VarDeclarator { name: Pat::Other(1), init: None },
                VarDeclarator { name: Pat::Ident("b".to_string()), init: None },
            ],
        },
        Stmt::Expr(call("watch", vec![])),
    ];
    let setup = write_setup(stmts);
    match setup {
        Prop::Method { key, function } => {
            assert_eq!(key, PropName::Ident("setup".to_string()));
            assert_eq!(function.params, vec![Pat::Ident("props".to_string()), Pat::Ident("ctx".to_string())]);
            let body = function.body.unwrap();
            assert_eq!(body.len(), 5);
            assert_eq!(
                body[4],
                Stmt::Return(Some(Expr::Object(vec![
                    Prop::Shorthand("f".to_string()),
                    Prop::Shorthand("C".to_string()),
                    Prop::Shorthand("a".to_string()),
                    Prop::Shorthand("b".to_string()),
                ])))
            );
        }
        _ => panic!("setup is a method"),
    }
}
