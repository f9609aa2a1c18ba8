use otc::ast::{ArrowBody, Expr, Function, Module, ModuleItem, Pat, Prop, PropName, Stmt, VarDeclarator, VarKind};
use otc::copy::{copy_expr, copy_stmt};
use otc::transform::TransformError;
use otc::visitor::visit_module;

fn s(t: &str) -> String {
    t.to_string()
}

fn ident(t: &str) -> Expr {
    Expr::Ident(s(t))
}

fn string(t: &str) -> Expr {
    Expr::Str(s(t))
}

fn num(t: &str) -> Expr {
    Expr::Num(s(t))
}

fn this_dot(p: &str) -> Expr {
    member(Expr::This, p)
}

fn member(obj: Expr, p: &str) -> Expr {
    Expr::Member { obj: Box::new(obj), prop: s(p) }
}

fn call(callee: Expr, args: Vec<Expr>) -> Expr {
    Expr::Call { callee: Box::new(callee), args }
}

fn kv(key: &str, value: Expr) -> Prop {
    Prop::KeyValue { key: PropName::Ident(s(key)), value }
}

fn func(params: Vec<&str>, body: Vec<Stmt>) -> Function {
    Function {
        params: params.into_iter().map(|p| Pat::Ident(s(p))).collect(),
        body: Some(body),
        is_async: false,
        is_generator: false,
    }
}

fn method(key: &str, params: Vec<&str>, body: Vec<Stmt>) -> Prop {
    Prop::Method { key: PropName::Ident(s(key)), function: func(params, body) }
}

fn const_stmt(name: &str, init: Expr) -> Stmt {
    Stmt::Var {
        kind: VarKind::Const,
        decls: vec![VarDeclarator { name: Pat::Ident(s(name)), init: Some(init) }],
    }
}

fn ret(e: Expr) -> Stmt {
    Stmt::Return(Some(e))
}

fn returned(names: Vec<&str>) -> Stmt {
    ret(Expr::Object(names.into_iter().map(|n| Prop::Shorthand(s(n))).collect()))
}

fn component(members: Vec<Prop>) -> Module {
    Module { body: vec![ModuleItem::ExportDefault(Expr::Object(members))] }
}

fn define_component(members: Vec<Prop>, setup_body: Vec<Stmt>) -> Module {
    let mut props = members;
    props.push(method("setup", vec!["props", "ctx"], setup_body));
    Module {
        body: vec![ModuleItem::ExportDefault(call(ident("defineComponent"), vec![Expr::Object(props)]))],
    }
}

fn setup_of(m: &Module) -> Vec<Stmt> {
    match &m.body[0] {
        ModuleItem::ExportDefault(Expr::Call { args, .. }) => match &args[0] {
            Expr::Object(props) => match props.last() {
                Some(Prop::Method { function, .. }) => match &function.body {
                    Some(b) => b.iter().map(copy_stmt).collect(),
                    None => panic!("setup without body"),
                },
                _ => panic!("no setup method"),
            },
            _ => panic!("no object argument"),
        },
        _ => panic!("not converted"),
    }
}

#[test]
fn data_becomes_refs() {
    let input = component(vec![method(
        "data",
        vec![],
        vec![ret(Expr::Object(vec![kv("loading", Expr::Bool(false)), kv("count", num("0"))]))],
    )]);
    let expected = define_component(
        vec![],
        vec![
            const_stmt("loading", call(ident("ref"), vec![Expr::Bool(false)])),
            const_stmt("count", call(ident("ref"), vec![num("0")])),
            returned(vec!["loading", "count"]),
        ],
    );
    assert_eq!(visit_module(input), Ok(expected));
}

#[test]
fn test_inject() {
    let input = component(vec![kv(
        "inject",
        Expr::Object(vec![
            kv("something", string("something")),
            kv(
                "something2",
                Expr::Object(vec![
                    kv("from", string("something2")),
                    kv(
                        "default",
                        Expr::Arrow {
                            params: vec![],
                            body: Box::new(ArrowBody::Expr(Box::new(num("3")))),
                            is_async: false,
                            is_generator: false,
                        },
                    ),
                ]),
            ),
            kv("otherInject", Expr::Object(vec![kv("default", string("some default"))])),
            kv("noDefaultInject", Expr::Object(vec![kv("from", string("something3"))])),
        ]),
    )]);
    let three = Expr::Arrow {
        params: vec![],
        body: Box::new(ArrowBody::Expr(Box::new(num("3")))),
        is_async: false,
        is_generator: false,
    };
    let expected = define_component(
        vec![],
        vec![
            const_stmt("something", call(ident("inject"), vec![string("something")])),
            const_stmt("something2", call(ident("inject"), vec![string("something2"), three])),
            const_stmt("otherInject", call(ident("inject"), vec![string("otherInject"), string("some default")])),
            const_stmt("noDefaultInject", call(ident("inject"), vec![string("something3")])),
            returned(vec!["something", "something2", "otherInject", "noDefaultInject"]),
        ],
    );
    assert_eq!(visit_module(input), Ok(expected));
}

fn props_decl() -> Prop {
    kv(
        "props",
        Expr::Object(vec![kv(
            "something",
            Expr::Object(vec![kv("type", ident("String")), kv("required", Expr::Bool(true))]),
        )]),
    )
}

#[test]
fn test_member_expr() {
    let body = vec![
        Stmt::Expr(Expr::Assign { op: s("="), left: Box::new(this_dot("x")), right: Box::new(num("2")) }),
        Stmt::Expr(call(member(member(member(this_dot("something"), "foo"), "bar"), "run"), vec![])),
        Stmt::Expr(call(member(ident("console"), "log"), vec![this_dot("something")])),
        Stmt::Expr(call(this_dot("$emit"), vec![string("foo")])),
        Stmt::Expr(this_dot("$foo")),
    ];
    let input = component(vec![
        props_decl(),
        method("data", vec![], vec![ret(Expr::Object(vec![kv("x", num("1"))]))]),
        kv("methods", Expr::Object(vec![method("method1", vec!["arg"], body)])),
    ]);
    let converted_body = vec![
        Stmt::Expr(Expr::Assign {
            op: s("="),
            left: Box::new(member(ident("x"), "value")),
            right: Box::new(num("2")),
        }),
        Stmt::Expr(call(member(member(member(member(ident("props"), "something"), "foo"), "bar"), "run"), vec![])),
        Stmt::Expr(call(member(ident("console"), "log"), vec![member(ident("props"), "something")])),
        Stmt::Expr(call(member(ident("ctx"), "$emit"), vec![string("foo")])),
        Stmt::Expr(member(member(ident("ctx"), "$root"), "foo")),
    ];
    let expected = define_component(
        vec![props_decl()],
        vec![
            const_stmt("x", call(ident("ref"), vec![num("1")])),
            Stmt::FnDecl { ident: s("method1"), function: func(vec!["arg"], converted_body) },
            returned(vec!["x", "method1"]),
        ],
    );
    assert_eq!(visit_module(input), Ok(expected));
}

#[test]
fn module_without_default_export_is_unchanged() {
    let input = Module { body: vec![ModuleItem::Stmt(Stmt::Expr(this_dot("x"))), ModuleItem::Other(4)] };
    let expected = Module { body: vec![ModuleItem::Stmt(Stmt::Expr(this_dot("x"))), ModuleItem::Other(4)] };
    assert_eq!(visit_module(input), Ok(expected));
}

#[test]
fn converted_module_is_unchanged() {
    let first = visit_module(component(vec![method(
        "data",
        vec![],
        vec![ret(Expr::Object(vec![kv("a", num("1"))]))],
    )]))
    .unwrap();
    let again = visit_module(Module { body: first.body.iter().map(|i| match i {
        ModuleItem::ExportDefault(e) => ModuleItem::ExportDefault(copy_expr(e)),
        ModuleItem::Stmt(st) => ModuleItem::Stmt(copy_stmt(st)),
        ModuleItem::Other(h) => ModuleItem::Other(*h),
    }).collect() });
    assert_eq!(again, Ok(first));
}

#[test]
fn data_without_return_fails() {
    let input = component(vec![method("data", vec![], vec![Stmt::Expr(num("1"))])]);
    assert_eq!(visit_module(input), Err(TransformError::DataWithoutSingleReturn));
}

#[test]
fn data_with_two_returns_fails() {
    let input = component(vec![method(
        "data",
        vec![],
        vec![ret(Expr::Object(vec![])), ret(Expr::Object(vec![]))],
    )]);
    assert_eq!(visit_module(input), Err(TransformError::DataWithoutSingleReturn));
}

#[test]
fn data_returning_non_object_fails() {
    let input = component(vec![method("data", vec![], vec![ret(ident("state"))])]);
    assert_eq!(visit_module(input), Err(TransformError::DataReturnNotObject));
}

#[test]
fn data_with_shorthand_fails() {
    let input = component(vec![method("data", vec![], vec![ret(Expr::Object(vec![Prop::Shorthand(s("x"))]))])]);
    assert_eq!(visit_module(input), Err(TransformError::DataMemberNotKeyValue));
}

#[test]
fn sections_are_lowered_in_order() {
    let watch = Expr::Object(vec![
        method("a", vec!["v"], vec![Stmt::Expr(call(ident("f"), vec![ident("v")]))]),
        kv(
            "b",
            Expr::Object(vec![
                method("handler", vec!["n", "o"], vec![ret(ident("n"))]),
                kv("deep", Expr::Bool(true)),
            ]),
        ),
        kv("c", Expr::Object(vec![kv("immediate", Expr::Bool(true))])),
    ]);
    let input = component(vec![
        kv("components", Expr::Object(vec![Prop::Shorthand(s("Child"))])),
        Prop::Method {
            key: PropName::Ident(s("mounted")),
            function: Function {
                params: vec![],
                body: Some(vec![Stmt::Expr(call(this_dot("load"), vec![]))]),
                is_async: true,
                is_generator: false,
            },
        },
        kv("methods", Expr::Object(vec![method("load", vec![], vec![])])),
        method("created", vec![], vec![Stmt::Expr(call(ident("init"), vec![]))]),
        kv("watch", watch),
        kv("computed", Expr::Object(vec![method("double", vec![], vec![ret(this_dot("n"))])])),
        method("data", vec![], vec![ret(Expr::Object(vec![kv("n", num("1"))]))]),
    ]);
    let arrow = |params: Vec<&str>, body: ArrowBody| Expr::Arrow {
        params: params.into_iter().map(|p| Pat::Ident(s(p))).collect(),
        body: Box::new(body),
        is_async: false,
        is_generator: false,
    };
    let expected = define_component(
        vec![kv("components", Expr::Object(vec![Prop::Shorthand(s("Child"))]))],
        vec![
            const_stmt("n", call(ident("ref"), vec![num("1")])),
            const_stmt(
                "double",
                call(ident("computed"), vec![arrow(vec![], ArrowBody::Expr(Box::new(member(ident("n"), "value"))))]),
            ),
            Stmt::Expr(call(
                ident("watch"),
                vec![
                    ident("a"),
                    arrow(vec!["v"], ArrowBody::Block(vec![Stmt::Expr(call(ident("f"), vec![ident("v")]))])),
                ],
            )),
            Stmt::Expr(call(
                ident("watch"),
                vec![
                    ident("b"),
                    arrow(vec!["n", "o"], ArrowBody::Expr(Box::new(ident("n")))),
                    Expr::Object(vec![kv("deep", Expr::Bool(true))]),
                ],
            )),
            Stmt::Expr(call(ident("init"), vec![])),
            Stmt::FnDecl { ident: s("load"), function: func(vec![], vec![]) },
            Stmt::Expr(call(
                ident("onMounted"),
                vec![Expr::Arrow {
                    params: vec![],
                    body: Box::new(ArrowBody::Block(vec![Stmt::Expr(call(ident("load"), vec![]))])),
                    is_async: true,
                    is_generator: false,
                }],
            )),
            returned(vec!["n", "double", "load"]),
        ],
    );
    assert_eq!(visit_module(input), Ok(expected));
}

#[test]
fn inject_bindings_keep_declaration_order() {
    let input = component(vec![kv("inject", Expr::Array(vec![string("c"), string("a"), num("5"), string("b")]))]);
    let out = visit_module(input).unwrap();
    let body = setup_of(&out);
    assert_eq!(body.len(), 4);
    assert_eq!(body[0], const_stmt("c", call(ident("inject"), vec![string("c")])));
    assert_eq!(body[1], const_stmt("a", call(ident("inject"), vec![string("a")])));
    assert_eq!(body[2], const_stmt("b", call(ident("inject"), vec![string("b")])));
    assert_eq!(body[3], returned(vec!["c", "a", "b"]));
}

#[test]
fn receiver_is_resolved_by_kind() {
    let input = component(vec![
        kv("props", Expr::Array(vec![string("title")])),
        kv("inject", Expr::Array(vec![string("store")])),
        kv(
            "methods",
            Expr::Object(vec![method(
                "m",
                vec![],
                vec![
                    Stmt::Expr(this_dot("title")),
                    Stmt::Expr(this_dot("count")),
                    Stmt::Expr(this_dot("$emit")),
                    Stmt::Expr(this_dot("$router")),
                    Stmt::Expr(this_dot("store")),
                    Stmt::Expr(member(this_dot("store"), "state")),
                    Stmt::Expr(call(this_dot("other"), vec![])),
                ],
            )]),
        ),
    ]);
    let out = visit_module(input).unwrap();
    let body = setup_of(&out);
    let expected_fn = func(
        vec![],
        vec![
            Stmt::Expr(member(ident("props"), "title")),
            Stmt::Expr(member(ident("count"), "value")),
            Stmt::Expr(member(ident("ctx"), "$emit")),
            Stmt::Expr(member(member(ident("ctx"), "$root"), "router")),
            Stmt::Expr(ident("store")),
            Stmt::Expr(member(ident("store"), "state")),
            Stmt::Expr(call(ident("other"), vec![])),
        ],
    );
    assert_eq!(body[1], Stmt::FnDecl { ident: s("m"), function: expected_fn });
}

#[test]
fn receiver_is_rewritten_inside_loops_and_handlers() {
    let body = vec![
        Stmt::ForOf {
            kind: VarKind::Const,
            name: Pat::Ident(s("item")),
            right: this_dot("items"),
            body: Box::new(Stmt::Expr(call(this_dot("add"), vec![ident("item")]))),
        },
        Stmt::Try {
            block: vec![Stmt::Expr(this_dot("a"))],
            param: Some(Pat::Ident(s("e"))),
            handler: Some(vec![Stmt::Expr(call(this_dot("$emit"), vec![string("error"), ident("e")]))]),
            finalizer: None,
        },
        Stmt::While { test: this_dot("busy"), body: Box::new(Stmt::Block(vec![])) },
    ];
    let input = component(vec![kv("methods", Expr::Object(vec![method("run", vec![], body)]))]);
    let out = visit_module(input).unwrap();
    let setup = setup_of(&out);
    let expected = Stmt::FnDecl {
        ident: s("run"),
        function: func(
            vec![],
            vec![
                Stmt::ForOf {
                    kind: VarKind::Const,
                    name: Pat::Ident(s("item")),
                    right: member(ident("items"), "value"),
                    body: Box::new(Stmt::Expr(call(ident("add"), vec![ident("item")]))),
                },
                Stmt::Try {
                    block: vec![Stmt::Expr(member(ident("a"), "value"))],
                    param: Some(Pat::Ident(s("e"))),
                    handler: Some(vec![Stmt::Expr(call(
                        member(ident("ctx"), "$emit"),
                        vec![string("error"), ident("e")],
                    ))]),
                    finalizer: None,
                },
                Stmt::While {
                    test: member(ident("busy"), "value"),
                    body: Box::new(Stmt::Block(vec![])),
                },
            ],
        ),
    };
    assert_eq!(setup[0], expected);
}
