//! The section transformers: each lowers one section of the Options form into
//! Composition-API statements.
use vstd::prelude::*;
use crate::analyze::{injects_view, Inject, InjectView};
use crate::ast::{ArrowBody, Expr, Function, Pat, Prop, PropName, Stmt, VarDeclarator, VarKind};
use crate::copy::{copy_expr, copy_function, copy_stmts};
use crate::model::{
    decl_view, decls_view, expr_view, exprs_view, opt_expr_view, pats_view, props_view, stmt_view,
    stmts_view, ArrowBodyView, DeclView, ExprView, FunctionView, PatView, PropNameView, PropView,
    StmtView,
};
use crate::options::{
    methods_view, watches_view, MethodDecl, MethodView, OptionsView, WatchDecl, WatchView,
};
use crate::visitor::Visitor;
use crate::copy::copy_pats;
use crate::text::{copy_string, word};

verus! {

/// Why a component cannot be converted.
#[derive(Clone, Copy, Debug, PartialEq, Eq, Structural)]
pub enum TransformError {
    /// `data()` has no body, or not exactly one top-level `return`.
    DataWithoutSingleReturn,
    /// The `return` of `data()` does not return an object literal.
    DataReturnNotObject,
    /// The object returned by `data()` holds a member that is not `key: value`
    /// with an identifier key (a shorthand, a spread, a method).
    DataMemberNotKeyValue,
}

pub open spec fn call_of(name: Seq<char>, args: Seq<ExprView>) -> ExprView {
    ExprView::Call { callee: Box::new(ExprView::Ident(name)), args }
}

/// `const <name> = <init>;`
pub open spec fn const_decl(name: Seq<char>, init: ExprView) -> StmtView {
    StmtView::Var {
        kind: VarKind::Const,
        decls: seq![DeclView { name: PatView::Ident(name), init: Some(init) }],
    }
}

/// `const <name> = inject(<from>[, <default>]);`
pub open spec fn inject_stmt(i: InjectView) -> StmtView {
    const_decl(
        i.name,
        call_of(
            "inject"@,
            match i.default {
                Some(d) => seq![i.from, d],
                None => seq![i.from],
            },
        ),
    )
}

pub open spec fn inject_stmts(s: Seq<InjectView>) -> Seq<StmtView> {
    s.map_values(|i: InjectView| inject_stmt(i))
}

/// The arguments of the top-level `return` statements, in order.
pub open spec fn top_level_returns(s: Seq<StmtView>) -> Seq<Option<ExprView>>
    decreases s.len(),
{
    if s.len() == 0 {
        seq![]
    } else {
        let prev = top_level_returns(s.drop_last());
        match s.last() {
            StmtView::Return(a) => prev.push(a),
            _ => prev,
        }
    }
}

/// `const <key> = ref(<value>);` for each member of the returned object, or
/// the first member that is not `key: value` with an identifier key.
pub open spec fn ref_stmts(s: Seq<PropView>) -> Result<Seq<StmtView>, TransformError>
    decreases s.len(),
{
    if s.len() == 0 {
        Ok(seq![])
    } else {
        match ref_stmts(s.drop_last()) {
            Err(e) => Err(e),
            Ok(prev) => match s.last() {
                PropView::KeyValue { key: PropNameView::Ident(k), value } => Ok(
                    prev.push(const_decl(k, call_of("ref"@, seq![value]))),
                ),
                _ => Err(TransformError::DataMemberNotKeyValue),
            },
        }
    }
}

/// The refs that `data()` declares.
pub open spec fn data_refs(body: Seq<StmtView>) -> Result<Seq<StmtView>, TransformError> {
    let rs = top_level_returns(body);
    if rs.len() != 1 {
        Err(TransformError::DataWithoutSingleReturn)
    } else {
        match rs[0] {
            Some(ExprView::Object(ps)) => ref_stmts(ps),
            _ => Err(TransformError::DataReturnNotObject),
        }
    }
}

/// A function body as the body of an arrow: a lone `return <e>;` becomes `e`.
pub open spec fn lowered_body(body: Seq<StmtView>) -> ArrowBodyView {
    if body.len() == 1 && body[0] matches StmtView::Return(Some(e)) {
        ArrowBodyView::Expr(Box::new(body[0]->Return_0->Some_0))
    } else {
        ArrowBodyView::Block(body)
    }
}

pub open spec fn arrow(params: Seq<PatView>, body: ArrowBodyView) -> ExprView {
    ExprView::Arrow { params, body: Box::new(body), is_async: false, is_generator: false }
}

/// `const <name> = computed(() => <body>);`, for a function with a body.
pub open spec fn computed_stmt(m: MethodView) -> Option<StmtView> {
    match m.function.body {
        Some(b) => Some(
            const_decl(m.ident, call_of("computed"@, seq![arrow(seq![], lowered_body(b))])),
        ),
        None => None,
    }
}

pub open spec fn computed_stmts(s: Seq<MethodView>) -> Seq<StmtView>
    decreases s.len(),
{
    if s.len() == 0 {
        seq![]
    } else {
        let prev = computed_stmts(s.drop_last());
        match computed_stmt(s.last()) {
            Some(st) => prev.push(st),
            None => prev,
        }
    }
}

pub open spec fn key_value(name: Seq<char>, value: ExprView) -> PropView {
    PropView::KeyValue { key: PropNameView::Ident(name), value }
}

/// The `{ deep, immediate }` members a watcher passes on.
pub open spec fn watch_options(w: WatchView) -> Seq<PropView> {
    (match w.deep {
        Some(d) => seq![key_value("deep"@, d)],
        None => seq![],
    }) + (match w.immediate {
        Some(i) => seq![key_value("immediate"@, i)],
        None => seq![],
    })
}

/// `watch(<name>, (<params>) => <body>[, { deep, immediate }]);`, for a handler
/// with a body.
pub open spec fn watch_stmt(w: WatchView) -> Option<StmtView> {
    match w.function.body {
        Some(b) => {
            let args = seq![
                ExprView::Ident(w.ident),
                arrow(w.function.params, lowered_body(b)),
            ];
            Some(
                StmtView::Expr(
                    call_of(
                        "watch"@,
                        if w.deep is Some || w.immediate is Some {
                            args.push(ExprView::Object(watch_options(w)))
                        } else {
                            args
                        },
                    ),
                ),
            )
        },
        None => None,
    }
}

pub open spec fn watch_stmts(s: Seq<WatchView>) -> Seq<StmtView>
    decreases s.len(),
{
    if s.len() == 0 {
        seq![]
    } else {
        let prev = watch_stmts(s.drop_last());
        match watch_stmt(s.last()) {
            Some(st) => prev.push(st),
            None => prev,
        }
    }
}

/// Each method as a function declaration.
pub open spec fn method_stmts(s: Seq<MethodView>) -> Seq<StmtView> {
    s.map_values(|m: MethodView| StmtView::FnDecl { ident: m.ident, function: m.function })
}

/// The body of `mounted()` wrapped in `onMounted(() => { ... })`.
pub open spec fn mounted_stmts(f: FunctionView) -> Seq<StmtView> {
    match f.body {
        Some(b) => seq![
            StmtView::Expr(
                call_of(
                    "onMounted"@,
                    seq![
                        ExprView::Arrow {
                            params: seq![],
                            body: Box::new(ArrowBodyView::Block(b)),
                            is_async: f.is_async,
                            is_generator: f.is_generator,
                        },
                    ],
                ),
            ),
        ],
        None => seq![],
    }
}

/// The statements of `created()`, as they stand.
pub open spec fn created_stmts(f: FunctionView) -> Seq<StmtView> {
    match f.body {
        Some(b) => b,
        None => seq![],
    }
}

pub fn ident_expr(name: String) -> (r: Expr)
    ensures
        r@ == ExprView::Ident(name@),
{
    Expr::Ident(name)
}

/// `<name>(<args>)`
pub fn call_expr(name: &str, args: Vec<Expr>) -> (r: Expr)
    ensures
        r@ == call_of(name@, exprs_view(args@)),
{
    let callee = ident_expr(word(name));
    Expr::Call { callee: Box::new(callee), args }
}

pub fn const_stmt(name: String, init: Expr) -> (r: Stmt)
    ensures
        r@ == const_decl(name@, init@),
{
    let d = VarDeclarator { name: Pat::Ident(name), init: Some(init) };
    let mut decls: Vec<VarDeclarator> = Vec::new();
    decls.push(d);
    assert(decls@ =~= seq![d]);
    assert(opt_expr_view(Some(init)) == Some(init@));
    assert(decl_view(d) == DeclView { name: PatView::Ident(name@), init: Some(init@) });
    assert(decls_view(decls@) =~= seq![decl_view(d)]);
    let r = Stmt::Var { kind: VarKind::Const, decls };
    r
}

fn one_expr(e: Expr) -> (r: Vec<Expr>)
    ensures
        exprs_view(r@) == seq![e@],
{
    let mut v: Vec<Expr> = Vec::new();
    v.push(e);
    assert(exprs_view(v@) =~= seq![e@]);
    v
}

fn push_expr(v: &mut Vec<Expr>, e: Expr)
    ensures
        exprs_view(final(v)@) == exprs_view(old(v)@).push(e@),
{
    v.push(e);
    assert(exprs_view(final(v)@) =~= exprs_view(old(v)@).push(e@));
}

/// One `const <name> = inject(...)` binding per injected name, in order.
pub fn transform_inject(injects: &Vec<Inject>) -> (r: Vec<Stmt>)
    ensures
        stmts_view(r@) == inject_stmts(injects_view(injects@)),
{
    let mut out: Vec<Stmt> = Vec::new();
    let mut i: usize = 0;
    while i < injects.len()
        invariant
            i <= injects@.len(),
            out@.len() == i,
            forall|j: int| 0 <= j < i ==> (#[trigger] out@[j])@ == inject_stmt(injects@[j]@),
        decreases injects@.len() - i,
    {
        let inj = &injects[i];
        let mut args = one_expr(copy_expr(&inj.from));
        match &inj.default {
            Some(d) => push_expr(&mut args, copy_expr(d)),
            None => {},
        }
        assert(exprs_view(args@) =~= (match inj@.default {
            Some(d) => seq![inj@.from, d],
            None => seq![inj@.from],
        }));
        let init = call_expr("inject", args);
        out.push(const_stmt(copy_string(&inj.name), init));
        i = i + 1;
    }
    assert(stmts_view(out@) =~= inject_stmts(injects_view(injects@)));
    out
}

proof fn lemma_ref_stmts_err(s: Seq<PropView>, k: int)
    requires
        0 <= k <= s.len(),
        ref_stmts(s.take(k)) is Err,
    ensures
        ref_stmts(s) == ref_stmts(s.take(k)),
    decreases s.len(),
{
    if s.len() > k {
        assert(s.drop_last().take(k) =~= s.take(k));
        lemma_ref_stmts_err(s.drop_last(), k);
    } else {
        assert(s.take(k) =~= s);
    }
}

fn ref_stmts_of(props: &Vec<Prop>) -> (r: Result<Vec<Stmt>, TransformError>)
    ensures
        match r {
            Ok(v) => ref_stmts(props_view(props@)) == Ok::<Seq<StmtView>, TransformError>(
                stmts_view(v@),
            ),
            Err(e) => ref_stmts(props_view(props@)) == Err::<Seq<StmtView>, TransformError>(e),
        },
{
    let ghost pv = props_view(props@);
    let mut out: Vec<Stmt> = Vec::new();
    let mut i: usize = 0;
    assert(pv.take(0) =~= seq![]);
    assert(stmts_view(out@) =~= seq![]);
    while i < props.len()
        invariant
            pv == props_view(props@),
            i <= props@.len(),
            ref_stmts(pv.take(i as int)) == Ok::<Seq<StmtView>, TransformError>(
                stmts_view(out@),
            ),
        decreases props@.len() - i,
    {
        proof {
            assert(pv.take(i + 1).drop_last() =~= pv.take(i as int));
        }
        match &props[i] {
            Prop::KeyValue { key: PropName::Ident(k), value } => {
                let init = call_expr("ref", one_expr(copy_expr(value)));
                out.push(const_stmt(copy_string(k), init));
                assert(stmts_view(out@) =~= ref_stmts(pv.take(i + 1))->Ok_0);
            },
            _ => {
                proof {
                    lemma_ref_stmts_err(pv, i + 1);
                }
                return Err(TransformError::DataMemberNotKeyValue);
            },
        }
        i = i + 1;
    }
    assert(pv.take(props@.len() as int) =~= pv);
    Ok(out)
}

/// One `const <key> = ref(<value>)` per member of the object that `data()`
/// returns, in order.
pub fn transform_data(stmts: &Vec<Stmt>) -> (r: Result<Vec<Stmt>, TransformError>)
    ensures
        match r {
            Ok(v) => data_refs(stmts_view(stmts@)) == Ok::<Seq<StmtView>, TransformError>(
                stmts_view(v@),
            ),
            Err(e) => data_refs(stmts_view(stmts@)) == Err::<Seq<StmtView>, TransformError>(e),
        },
{
    let ghost sv = stmts_view(stmts@);
    let mut count: usize = 0;
    let mut first: usize = 0;
    let mut i: usize = 0;
    while i < stmts.len()
        invariant
            sv == stmts_view(stmts@),
            i <= stmts@.len(),
            count == top_level_returns(sv.take(i as int)).len(),
            count <= i,
            count > 0 ==> first < i && sv[first as int] is Return
                && top_level_returns(sv.take(i as int))[0] == sv[first as int]->Return_0,
        decreases stmts@.len() - i,
    {
        proof {
            assert(sv.take(i + 1).drop_last() =~= sv.take(i as int));
        }
        match &stmts[i] {
            Stmt::Return(_) => {
                if count == 0 {
                    first = i;
                }
                count = count + 1;
            },
            _ => {},
        }
        i = i + 1;
    }
    assert(sv.take(stmts@.len() as int) =~= sv);
    if count != 1 {
        return Err(TransformError::DataWithoutSingleReturn);
    }
    assert(sv[first as int] == stmt_view(stmts@[first as int]));
    match &stmts[first] {
        Stmt::Return(Some(e)) => match e {
            Expr::Object(props) => {
                assert(opt_expr_view(Some(*e)) == Some(e@));
                assert(e@ == ExprView::Object(props_view(props@)));
                assert(sv[first as int] == StmtView::Return(Some(e@)));
                assert(top_level_returns(sv).len() == 1);
                assert(top_level_returns(sv)[0] == Some(ExprView::Object(props_view(props@))));
                ref_stmts_of(props)
            },
            _ => {
                assert(opt_expr_view(Some(*e)) == Some(e@));
                assert(e@ !is Object);
                Err(TransformError::DataReturnNotObject)
            },
        },
        _ => Err(TransformError::DataReturnNotObject),
    }
}

/// A function body as an arrow body: a lone `return <e>;` becomes `e`.
pub fn lower_body(body: &Vec<Stmt>) -> (r: ArrowBody)
    ensures
        r@ == lowered_body(stmts_view(body@)),
{
    proof {
        if body@.len() == 1 {
            assert(stmts_view(body@)[0] == stmt_view(body@[0]));
            match body@[0] {
                Stmt::Return(o) => {
                    assert(stmt_view(body@[0]) == StmtView::Return(opt_expr_view(o)));
                    match o {
                        Some(e) => assert(opt_expr_view(o) == Some(expr_view(e))),
                        None => assert(opt_expr_view(o) == None::<ExprView>),
                    }
                },
                _ => {},
            }
        }
    }
    if body.len() == 1 {
        match &body[0] {
            Stmt::Return(Some(e)) => {
                return ArrowBody::Expr(Box::new(copy_expr(e)));
            },
            _ => {},
        }
    }
    ArrowBody::Block(copy_stmts(body))
}

fn arrow_expr(params: Vec<Pat>, body: ArrowBody) -> (r: Expr)
    ensures
        r@ == arrow(pats_view(params@), body@),
{
    Expr::Arrow { params, body: Box::new(body), is_async: false, is_generator: false }
}

/// One `const <name> = computed(() => ...)` per computed function, in order.
pub fn transform_computed(fn_decls: &Vec<MethodDecl>) -> (r: Vec<Stmt>)
    ensures
        stmts_view(r@) == computed_stmts(methods_view(fn_decls@)),
{
    let ghost mv = methods_view(fn_decls@);
    let mut out: Vec<Stmt> = Vec::new();
    let mut i: usize = 0;
    while i < fn_decls.len()
        invariant
            mv == methods_view(fn_decls@),
            i <= fn_decls@.len(),
            stmts_view(out@) == computed_stmts(mv.take(i as int)),
        decreases fn_decls@.len() - i,
    {
        proof {
            assert(mv.take(i + 1).drop_last() =~= mv.take(i as int));
        }
        let decl = &fn_decls[i];
        match &decl.function.body {
            Some(b) => {
                let params: Vec<Pat> = Vec::new();
                assert(pats_view(params@) =~= seq![]);
                let f = arrow_expr(params, lower_body(b));
                let st = const_stmt(copy_string(&decl.ident), call_expr("computed", one_expr(f)));
                out.push(st);
                assert(stmts_view(out@) =~= computed_stmts(mv.take(i + 1)));
            },
            None => {},
        }
        i = i + 1;
    }
    assert(mv.take(fn_decls@.len() as int) =~= mv);
    out
}

fn watch_options_of(decl: &WatchDecl) -> (r: Vec<Prop>)
    ensures
        props_view(r@) == watch_options(decl@),
{
    let mut props: Vec<Prop> = Vec::new();
    match &decl.deep {
        Some(d) => {
            props.push(Prop::KeyValue { key: PropName::Ident(word("deep")), value: copy_expr(d) });
        },
        None => {},
    }
    match &decl.immediate {
        Some(im) => {
            props.push(
                Prop::KeyValue { key: PropName::Ident(word("immediate")), value: copy_expr(im) },
            );
        },
        None => {},
    }
    assert(props_view(props@) =~= watch_options(decl@));
    props
}

/// One `watch(<name>, ...)` call per watcher, in order.
pub fn transform_watch(watch_decls: &Vec<WatchDecl>) -> (r: Vec<Stmt>)
    ensures
        stmts_view(r@) == watch_stmts(watches_view(watch_decls@)),
{
    let ghost wv = watches_view(watch_decls@);
    let mut out: Vec<Stmt> = Vec::new();
    let mut i: usize = 0;
    while i < watch_decls.len()
        invariant
            wv == watches_view(watch_decls@),
            i <= watch_decls@.len(),
            stmts_view(out@) == watch_stmts(wv.take(i as int)),
        decreases watch_decls@.len() - i,
    {
        proof {
            assert(wv.take(i + 1).drop_last() =~= wv.take(i as int));
        }
        let decl = &watch_decls[i];
        match &decl.function.body {
            Some(b) => {
                let ghost w = decl@;
                let ghost base = seq![
                    ExprView::Ident(w.ident),
                    arrow(w.function.params, lowered_body(stmts_view(b@))),
                ];
                let mut args = one_expr(ident_expr(copy_string(&decl.ident)));
                push_expr(&mut args, arrow_expr(copy_pats(&decl.function.params), lower_body(b)));
                assert(exprs_view(args@) =~= base);
                if decl.deep.is_some() || decl.immediate.is_some() {
                    let opts = watch_options_of(decl);
                    let o = Expr::Object(opts);
                    assert(o@ == ExprView::Object(watch_options(decl@)));
                    push_expr(&mut args, o);
                    assert(exprs_view(args@) =~= base.push(ExprView::Object(watch_options(w))));
                }
                let st = Stmt::Expr(call_expr("watch", args));
                out.push(st);
                assert(stmts_view(out@) =~= watch_stmts(wv.take(i + 1)));
            },
            None => {},
        }
        i = i + 1;
    }
    assert(wv.take(watch_decls@.len() as int) =~= wv);
    out
}

/// The body of `mounted()` wrapped in one `onMounted(() => { ... })` call.
pub fn transform_mounted(mounted: &Function) -> (r: Vec<Stmt>)
    ensures
        stmts_view(r@) == mounted_stmts(mounted@),
{
    let mut out: Vec<Stmt> = Vec::new();
    match &mounted.body {
        Some(b) => {
            let params: Vec<Pat> = Vec::new();
            assert(pats_view(params@) =~= seq![]);
            let body = ArrowBody::Block(copy_stmts(b));
            assert(body@ == ArrowBodyView::Block(stmts_view(b@)));
            let f = Expr::Arrow {
                params,
                body: Box::new(body),
                is_async: mounted.is_async,
                is_generator: mounted.is_generator,
            };
            assert(f@ == ExprView::Arrow {
                params: seq![],
                body: Box::new(ArrowBodyView::Block(stmts_view(b@))),
                is_async: mounted.is_async,
                is_generator: mounted.is_generator,
            });
            let c = call_expr("onMounted", one_expr(f));
            out.push(Stmt::Expr(c));
            assert(out@[0]@ == StmtView::Expr(c@));
        },
        None => {},
    }
    assert(stmts_view(out@) =~= mounted_stmts(mounted@));
    out
}

/// Each method as a function declaration, in order.
pub fn transform_methods(methods: &Vec<MethodDecl>) -> (r: Vec<Stmt>)
    ensures
        stmts_view(r@) == method_stmts(methods_view(methods@)),
{
    let mut out: Vec<Stmt> = Vec::new();
    let mut i: usize = 0;
    while i < methods.len()
        invariant
            i <= methods@.len(),
            out@.len() == i,
            forall|j: int|
                0 <= j < i ==> (#[trigger] out@[j])@ == (StmtView::FnDecl {
                    ident: methods@[j].ident@,
                    function: methods@[j].function@,
                }),
        decreases methods@.len() - i,
    {
        let m = &methods[i];
        out.push(Stmt::FnDecl { ident: copy_string(&m.ident), function: copy_function(&m.function) });
        i = i + 1;
    }
    assert(stmts_view(out@) =~= method_stmts(methods_view(methods@)));
    out
}

/// The Composition-API form of a component: each section already lowered.
#[derive(Debug, PartialEq, Eq)]
pub struct CompositionComponent {
    pub components: Option<Expr>,
    pub props: Option<Expr>,
    pub inject_stmts: Option<Vec<Stmt>>,
    pub ref_stmts: Option<Vec<Stmt>>,
    pub created_stmts: Option<Vec<Stmt>>,
    pub computed: Option<Vec<Stmt>>,
    pub watch: Option<Vec<Stmt>>,
    pub mounted: Option<Vec<Stmt>>,
    pub method_decls: Option<Vec<Stmt>>,
}

pub struct CompositionView {
    pub components: Option<ExprView>,
    pub props: Option<ExprView>,
    pub inject_stmts: Option<Seq<StmtView>>,
    pub ref_stmts: Option<Seq<StmtView>>,
    pub created_stmts: Option<Seq<StmtView>>,
    pub computed: Option<Seq<StmtView>>,
    pub watch: Option<Seq<StmtView>>,
    pub mounted: Option<Seq<StmtView>>,
    pub method_decls: Option<Seq<StmtView>>,
}

pub open spec fn opt_stmts_view(o: Option<Vec<Stmt>>) -> Option<Seq<StmtView>> {
    match o {
        Some(v) => Some(stmts_view(v@)),
        None => None,
    }
}

impl View for CompositionComponent {
    type V = CompositionView;

    open spec fn view(&self) -> CompositionView {
        CompositionView {
            components: opt_expr_view(self.components),
            props: opt_expr_view(self.props),
            inject_stmts: opt_stmts_view(self.inject_stmts),
            ref_stmts: opt_stmts_view(self.ref_stmts),
            created_stmts: opt_stmts_view(self.created_stmts),
            computed: opt_stmts_view(self.computed),
            watch: opt_stmts_view(self.watch),
            mounted: opt_stmts_view(self.mounted),
            method_decls: opt_stmts_view(self.method_decls),
        }
    }
}

impl Default for CompositionComponent {
    fn default() -> (r: CompositionComponent)
        ensures
            r@ == empty_composition(),
    {
        CompositionComponent::new()
    }
}

impl CompositionComponent {
    pub fn new() -> (r: CompositionComponent)
        ensures
            r@ == empty_composition(),
    {
        CompositionComponent {
            components: None,
            props: None,
            inject_stmts: None,
            ref_stmts: None,
            created_stmts: None,
            computed: None,
            watch: None,
            mounted: None,
            method_decls: None,
        }
    }
}

pub open spec fn empty_composition() -> CompositionView {
    CompositionView {
        components: None,
        props: None,
        inject_stmts: None,
        ref_stmts: None,
        created_stmts: None,
        computed: None,
        watch: None,
        mounted: None,
        method_decls: None,
    }
}

/// The refs of the `data()` section, if there is one.
pub open spec fn refs_of(data: Option<FunctionView>) -> Result<
    Option<Seq<StmtView>>,
    TransformError,
> {
    match data {
        None => Ok(None),
        Some(f) => match f.body {
            None => Err(TransformError::DataWithoutSingleReturn),
            Some(b) => match data_refs(b) {
                Ok(v) => Ok(Some(v)),
                Err(e) => Err(e),
            },
        },
    }
}

/// Every section lowered: the components and props pass through, the rest
/// become statements; fails where the `data()` section is malformed.
pub open spec fn composition_of(o: OptionsView, injects: Seq<InjectView>) -> Result<
    CompositionView,
    TransformError,
> {
    match refs_of(o.data) {
        Err(e) => Err(e),
        Ok(refs) => Ok(
            CompositionView {
                components: o.components,
                props: o.props,
                inject_stmts: if injects.len() > 0 {
                    Some(inject_stmts(injects))
                } else {
                    None
                },
                ref_stmts: refs,
                created_stmts: match o.created {
                    Some(f) => Some(created_stmts(f)),
                    None => None,
                },
                computed: match o.computed {
                    Some(c) => Some(computed_stmts(c)),
                    None => None,
                },
                watch: match o.watch {
                    Some(w) => Some(watch_stmts(w)),
                    None => None,
                },
                mounted: match o.mounted {
                    Some(f) => Some(mounted_stmts(f)),
                    None => None,
                },
                method_decls: match o.methods {
                    Some(m) => Some(method_stmts(m)),
                    None => None,
                },
            },
        ),
    }
}

impl Visitor {
    /// Lowers every extracted section into `self.composition`.
    pub fn transform_component(&mut self) -> (r: Result<(), TransformError>)
        ensures
            final(self).props_set == old(self).props_set,
            final(self).inject_set == old(self).inject_set,
            final(self).special_functions == old(self).special_functions,
            final(self).options == old(self).options,
            match r {
                Ok(_) => composition_of(old(self).options@, injects_view(old(self).inject_set@))
                    == Ok::<CompositionView, TransformError>(final(self).composition@),
                Err(e) => composition_of(old(self).options@, injects_view(old(self).inject_set@))
                    == Err::<CompositionView, TransformError>(e),
            },
    {
        let refs = match &self.options.data {
            None => None,
            Some(f) => match &f.body {
                None => {
                    return Err(TransformError::DataWithoutSingleReturn);
                },
                Some(b) => match transform_data(b) {
                    Ok(v) => Some(v),
                    Err(e) => {
                        return Err(e);
                    },
                },
            },
        };
        let components = match &self.options.components {
            Some(c) => Some(copy_expr(c)),
            None => None,
        };
        let props = match &self.options.props {
            Some(p) => Some(copy_expr(p)),
            None => None,
        };
        let inject_stmts = if self.inject_set.len() > 0 {
            Some(transform_inject(&self.inject_set))
        } else {
            None
        };
        let created = match &self.options.created {
            Some(f) => match &f.body {
                Some(b) => Some(copy_stmts(b)),
                None => Some(Vec::new()),
            },
            None => None,
        };
        proof {
            if created is Some {
                assert(stmts_view(created->Some_0@) =~= created_stmts(
                    self.options.created->Some_0@,
                ));
            }
        }
        let computed = match &self.options.computed {
            Some(c) => Some(transform_computed(c)),
            None => None,
        };
        let watch = match &self.options.watch {
            Some(w) => Some(transform_watch(w)),
            None => None,
        };
        let mounted = match &self.options.mounted {
            Some(f) => Some(transform_mounted(f)),
            None => None,
        };
        let method_decls = match &self.options.methods {
            Some(m) => Some(transform_methods(m)),
            None => None,
        };
        self.composition = CompositionComponent {
            components,
            props,
            inject_stmts,
            ref_stmts: refs,
            created_stmts: created,
            computed,
            watch,
            mounted,
            method_decls,
        };
        Ok(())
    }
}

} // verus!
