//! The assembler: one `setup(props, ctx)` holding every lowered section, and
//! the `defineComponent({...})` call that replaces the exported object.
use vstd::prelude::*;
use crate::ast::{Expr, Function, Pat, Prop, PropName, Stmt};
use crate::copy::{copy_expr, copy_stmts};
use crate::model::{
    decls_view, exprs_view, opt_expr_view, pats_view, props_view, stmt_view, stmts_view, DeclView,
    ExprView, FunctionView, PatView, PropNameView, PropView, StmtView,
};
use crate::text::{copy_string, word};
use crate::analyze::{inject_names, key_value_names, InjectView};
use crate::options::{MethodView, OptionsView, WatchView};
use crate::transform::{
    call_expr, call_of, composition_of, computed_stmt, computed_stmts, const_decl, created_stmts,
    inject_stmt, inject_stmts, key_value, method_stmts, mounted_stmts, opt_stmts_view, ref_stmts,
    top_level_returns, watch_stmt, watch_stmts, CompositionComponent, CompositionView,
};

verus! {

/// The names that variable declarators bind to plain identifiers, in order.
pub open spec fn var_names(s: Seq<DeclView>) -> Seq<Seq<char>>
    decreases s.len(),
{
    if s.len() == 0 {
        seq![]
    } else {
        let prev = var_names(s.drop_last());
        match s.last().name {
            PatView::Ident(n) => prev.push(n),
            _ => prev,
        }
    }
}

/// The names that top-level function, class and variable declarations bind,
/// in declaration order.
pub open spec fn declared_names(s: Seq<StmtView>) -> Seq<Seq<char>>
    decreases s.len(),
{
    if s.len() == 0 {
        seq![]
    } else {
        let prev = declared_names(s.drop_last());
        match s.last() {
            StmtView::FnDecl { ident, .. } => prev.push(ident),
            StmtView::ClassDecl { ident, .. } => prev.push(ident),
            StmtView::Var { decls, .. } => prev + var_names(decls),
            _ => prev,
        }
    }
}

/// `return { <name>, ... };`
pub open spec fn return_object(names: Seq<Seq<char>>) -> StmtView {
    StmtView::Return(
        Some(ExprView::Object(names.map_values(|n: Seq<char>| PropView::Shorthand(n)))),
    )
}

/// The statements followed by a `return` of every name they declare.
pub open spec fn setup_body(stmts: Seq<StmtView>) -> Seq<StmtView> {
    stmts.push(return_object(declared_names(stmts)))
}

/// `setup(props, ctx) { <stmts>; return { ... }; }`
pub open spec fn setup_method(stmts: Seq<StmtView>) -> PropView {
    PropView::Method {
        key: PropNameView::Ident("setup"@),
        function: FunctionView {
            params: seq![PatView::Ident("props"@), PatView::Ident("ctx"@)],
            body: Some(setup_body(stmts)),
            is_async: false,
            is_generator: false,
        },
    }
}

pub open spec fn or_empty(o: Option<Seq<StmtView>>) -> Seq<StmtView> {
    match o {
        Some(s) => s,
        None => seq![],
    }
}

/// The lowered sections in their fixed order: inject, refs, computed, watch,
/// created, methods, mounted.
pub open spec fn setup_stmts(c: CompositionView) -> Seq<StmtView> {
    or_empty(c.inject_stmts) + or_empty(c.ref_stmts) + or_empty(c.computed) + or_empty(c.watch)
        + or_empty(c.created_stmts) + or_empty(c.method_decls) + or_empty(c.mounted)
}

pub open spec fn passed_on(name: Seq<char>, o: Option<ExprView>) -> Seq<PropView> {
    match o {
        Some(e) => seq![key_value(name, e)],
        None => seq![],
    }
}

/// `defineComponent({ components, props, setup(props, ctx) { ... } })`
pub open spec fn component_expr(c: CompositionView) -> ExprView {
    call_of(
        "defineComponent"@,
        seq![
            ExprView::Object(
                passed_on("components"@, c.components) + passed_on("props"@, c.props) + seq![
                    setup_method(setup_stmts(c)),
                ],
            ),
        ],
    )
}

fn var_names_of(decls: &Vec<crate::ast::VarDeclarator>, out: &mut Vec<String>)
    ensures
        crate::model::strings_view(final(out)@) == crate::model::strings_view(old(out)@)
            + var_names(decls_view(decls@)),
{
    let ghost start = crate::model::strings_view(out@);
    let ghost dv = decls_view(decls@);
    let mut i: usize = 0;
    assert(start =~= start + var_names(dv.take(0)));
    while i < decls.len()
        invariant
            dv == decls_view(decls@),
            i <= decls@.len(),
            crate::model::strings_view(out@) == start + var_names(dv.take(i as int)),
        decreases decls@.len() - i,
    {
        proof {
            assert(dv.take(i + 1).drop_last() =~= dv.take(i as int));
            assert(dv[i as int] == crate::model::decl_view(decls@[i as int]));
        }
        match &decls[i].name {
            Pat::Ident(n) => {
                assert(dv[i as int].name == PatView::Ident(n@));
                let ghost before = crate::model::strings_view(out@);
                out.push(copy_string(n));
                assert(crate::model::strings_view(out@) =~= before.push(n@));
                assert(crate::model::strings_view(out@) =~= start + var_names(dv.take(i + 1)));
            },
            _ => {},
        }
        i = i + 1;
    }
    assert(dv.take(decls@.len() as int) =~= dv);
}

/// The names the top-level declarations of `stmts` bind, in order.
pub fn declared_names_of(stmts: &Vec<Stmt>) -> (r: Vec<String>)
    ensures
        crate::model::strings_view(r@) == declared_names(stmts_view(stmts@)),
{
    let ghost sv = stmts_view(stmts@);
    let mut out: Vec<String> = Vec::new();
    let mut i: usize = 0;
    assert(crate::model::strings_view(out@) =~= seq![]);
    while i < stmts.len()
        invariant
            sv == stmts_view(stmts@),
            i <= stmts@.len(),
            crate::model::strings_view(out@) == declared_names(sv.take(i as int)),
        decreases stmts@.len() - i,
    {
        proof {
            assert(sv.take(i + 1).drop_last() =~= sv.take(i as int));
            assert(sv[i as int] == stmt_view(stmts@[i as int]));
        }
        let ghost before = crate::model::strings_view(out@);
        match &stmts[i] {
            Stmt::FnDecl { ident, .. } => {
                out.push(copy_string(ident));
                assert(crate::model::strings_view(out@) =~= before.push(ident@));
            },
            Stmt::ClassDecl { ident, .. } => {
                out.push(copy_string(ident));
                assert(crate::model::strings_view(out@) =~= before.push(ident@));
            },
            Stmt::Var { decls, .. } => {
                var_names_of(decls, &mut out);
            },
            _ => {},
        }
        i = i + 1;
    }
    assert(sv.take(stmts@.len() as int) =~= sv);
    out
}

/// Wraps the statements into the `setup(props, ctx)` method, ending with a
/// `return` of every name they declare.
pub fn write_setup(stmts: Vec<Stmt>) -> (r: Prop)
    ensures
        r@ == setup_method(stmts_view(stmts@)),
{
    let names = declared_names_of(&stmts);
    let mut shorthands: Vec<Prop> = Vec::new();
    let mut i: usize = 0;
    while i < names.len()
        invariant
            i <= names@.len(),
            shorthands@.len() == i,
            forall|j: int|
                0 <= j < i ==> (#[trigger] shorthands@[j])@ == PropView::Shorthand(names@[j]@),
        decreases names@.len() - i,
    {
        shorthands.push(Prop::Shorthand(copy_string(&names[i])));
        i = i + 1;
    }
    let ghost names_v = declared_names(stmts_view(stmts@));
    assert(props_view(shorthands@) =~= names_v.map_values(|n: Seq<char>| PropView::Shorthand(n)));
    let obj = Expr::Object(shorthands);
    assert(obj@ == ExprView::Object(props_view(shorthands@)));
    let ret = Stmt::Return(Some(obj));
    assert(opt_expr_view(Some(obj)) == Some(obj@));
    assert(ret@ == return_object(names_v));
    let mut body = stmts;
    let ghost before = body@;
    body.push(ret);
    assert(stmts_view(body@) =~= setup_body(stmts_view(before)));
    let mut params: Vec<Pat> = Vec::new();
    params.push(Pat::Ident(word("props")));
    params.push(Pat::Ident(word("ctx")));
    assert(pats_view(params@) =~= seq![PatView::Ident("props"@), PatView::Ident("ctx"@)]);
    let function = Function { params, body: Some(body), is_async: false, is_generator: false };
    assert(function@ == FunctionView {
        params: seq![PatView::Ident("props"@), PatView::Ident("ctx"@)],
        body: Some(setup_body(stmts_view(before))),
        is_async: false,
        is_generator: false,
    });
    Prop::Method { key: PropName::Ident(word("setup")), function }
}

fn append_stmts(out: &mut Vec<Stmt>, o: &Option<Vec<Stmt>>)
    ensures
        stmts_view(final(out)@) == stmts_view(old(out)@) + or_empty(opt_stmts_view(*o)),
{
    match o {
        Some(v) => {
            let mut c = copy_stmts(v);
            let ghost before = out@;
            out.append(&mut c);
            assert(stmts_view(out@) =~= stmts_view(before) + or_empty(opt_stmts_view(*o)));
        },
        None => {
            assert(stmts_view(out@) =~= stmts_view(out@) + or_empty(opt_stmts_view(*o)));
        },
    }
}

fn push_passed_on(out: &mut Vec<Prop>, name: &str, o: &Option<Expr>)
    ensures
        props_view(final(out)@) == props_view(old(out)@) + passed_on(name@, opt_expr_view(*o)),
{
    match o {
        Some(e) => {
            let ghost before = out@;
            out.push(Prop::KeyValue { key: PropName::Ident(word(name)), value: copy_expr(e) });
            assert(props_view(out@) =~= props_view(before) + passed_on(name@, opt_expr_view(*o)));
        },
        None => {
            assert(props_view(out@) =~= props_view(out@) + passed_on(name@, opt_expr_view(*o)));
        },
    }
}

/// The `defineComponent({...})` expression for a lowered component.
pub fn write_composition_component(obj: &CompositionComponent) -> (r: Expr)
    ensures
        r@ == component_expr(obj@),
{
    let mut export_props: Vec<Prop> = Vec::new();
    assert(props_view(export_props@) =~= seq![]);
    push_passed_on(&mut export_props, "components", &obj.components);
    push_passed_on(&mut export_props, "props", &obj.props);
    let mut setup: Vec<Stmt> = Vec::new();
    assert(stmts_view(setup@) =~= seq![]);
    append_stmts(&mut setup, &obj.inject_stmts);
    append_stmts(&mut setup, &obj.ref_stmts);
    append_stmts(&mut setup, &obj.computed);
    append_stmts(&mut setup, &obj.watch);
    append_stmts(&mut setup, &obj.created_stmts);
    append_stmts(&mut setup, &obj.method_decls);
    append_stmts(&mut setup, &obj.mounted);
    assert(stmts_view(setup@) =~= setup_stmts(obj@));
    let ghost before = props_view(export_props@);
    export_props.push(write_setup(setup));
    assert(props_view(export_props@) =~= before + seq![setup_method(setup_stmts(obj@))]);
    let o = Expr::Object(export_props);
    assert(o@ == ExprView::Object(props_view(export_props@)));
    let mut args: Vec<Expr> = Vec::new();
    args.push(o);
    assert(exprs_view(args@) =~= seq![o@]);
    call_expr("defineComponent", args)
}

/// The setup body opens with one `inject(...)` binding per injected name, in
/// declaration order.
pub proof fn lemma_inject_order(o: OptionsView, injects: Seq<InjectView>)
    requires
        composition_of(o, injects) is Ok,
    ensures
        setup_stmts(composition_of(o, injects)->Ok_0).take(injects.len() as int) == inject_stmts(
            injects,
        ),
        inject_stmts(injects).len() == injects.len(),
        forall|k: int|
            0 <= k < injects.len() ==> #[trigger] inject_stmts(injects)[k] == const_decl(
                injects[k].name,
                call_of(
                    "inject"@,
                    match injects[k].default {
                        Some(d) => seq![injects[k].from, d],
                        None => seq![injects[k].from],
                    },
                ),
            ),
{
    let c = composition_of(o, injects)->Ok_0;
    let rest = or_empty(c.ref_stmts) + or_empty(c.computed) + or_empty(c.watch) + or_empty(
        c.created_stmts,
    ) + or_empty(c.method_decls) + or_empty(c.mounted);
    assert(setup_stmts(c) =~= or_empty(c.inject_stmts) + rest);
    assert(or_empty(c.inject_stmts) =~= inject_stmts(injects));
    assert((inject_stmts(injects) + rest).take(injects.len() as int) =~= inject_stmts(injects));
}

pub proof fn lemma_declared_names_concat(a: Seq<StmtView>, b: Seq<StmtView>)
    ensures
        declared_names(a + b) == declared_names(a) + declared_names(b),
    decreases b.len(),
{
    if b.len() == 0 {
        assert(a + b =~= a);
        assert(declared_names(a) + declared_names(b) =~= declared_names(a));
    } else {
        assert((a + b).drop_last() =~= a + b.drop_last());
        assert((a + b).last() == b.last());
        lemma_declared_names_concat(a, b.drop_last());
        let x = declared_names(a);
        let y = declared_names(b.drop_last());
        match b.last() {
            StmtView::FnDecl { ident, .. } => assert((x + y).push(ident) =~= x + y.push(ident)),
            StmtView::ClassDecl { ident, .. } => assert((x + y).push(ident) =~= x + y.push(ident)),
            StmtView::Var { decls, .. } => assert((x + y) + var_names(decls) =~= x + (y + var_names(
                decls,
            ))),
            _ => {},
        }
    }
}

proof fn lemma_const_decl_names(name: Seq<char>, init: ExprView)
    ensures
        declared_names(seq![const_decl(name, init)]) == seq![name],
{
    let d = seq![DeclView { name: PatView::Ident(name), init: Some(init) }];
    assert(d.drop_last() =~= Seq::<DeclView>::empty());
    assert(var_names(Seq::<DeclView>::empty()) == Seq::<Seq<char>>::empty());
    assert(var_names(d) =~= seq![name]);
    let st = seq![const_decl(name, init)];
    assert(st.drop_last() =~= Seq::<StmtView>::empty());
    assert(declared_names(Seq::<StmtView>::empty()) == Seq::<Seq<char>>::empty());
    assert(Seq::<Seq<char>>::empty() + seq![name] =~= seq![name]);
}

proof fn lemma_push_names(s: Seq<StmtView>, st: StmtView)
    ensures
        declared_names(s.push(st)) == declared_names(s) + declared_names(seq![st]),
{
    assert(s.push(st) =~= s + seq![st]);
    lemma_declared_names_concat(s, seq![st]);
}

proof fn lemma_inject_names(s: Seq<InjectView>)
    ensures
        declared_names(inject_stmts(s)) == inject_names(s),
    decreases s.len(),
{
    if s.len() == 0 {
        assert(inject_stmts(s) =~= seq![]);
        assert(inject_names(s) =~= seq![]);
    } else {
        lemma_inject_names(s.drop_last());
        assert(inject_stmts(s) =~= inject_stmts(s.drop_last()).push(inject_stmt(s.last())));
        lemma_push_names(inject_stmts(s.drop_last()), inject_stmt(s.last()));
        lemma_const_decl_names(s.last().name, inject_stmt(s.last())->Var_decls[0].init->Some_0);
        assert(inject_names(s) =~= inject_names(s.drop_last()).push(s.last().name));
    }
}

/// The names of the computed functions that have a body, in order.
pub open spec fn computed_names(s: Seq<MethodView>) -> Seq<Seq<char>>
    decreases s.len(),
{
    if s.len() == 0 {
        seq![]
    } else if s.last().function.body is Some {
        computed_names(s.drop_last()).push(s.last().ident)
    } else {
        computed_names(s.drop_last())
    }
}

proof fn lemma_computed_names(s: Seq<MethodView>)
    ensures
        declared_names(computed_stmts(s)) == computed_names(s),
    decreases s.len(),
{
    if s.len() > 0 {
        lemma_computed_names(s.drop_last());
        match computed_stmt(s.last()) {
            Some(st) => {
                lemma_push_names(computed_stmts(s.drop_last()), st);
                lemma_const_decl_names(s.last().ident, st->Var_decls[0].init->Some_0);
            },
            None => {},
        }
    }
}

proof fn lemma_watch_names(s: Seq<WatchView>)
    ensures
        declared_names(watch_stmts(s)) == Seq::<Seq<char>>::empty(),
    decreases s.len(),
{
    if s.len() > 0 {
        lemma_watch_names(s.drop_last());
        match watch_stmt(s.last()) {
            Some(st) => {
                let prev = watch_stmts(s.drop_last());
                assert(prev.push(st).drop_last() =~= prev);
            },
            None => {},
        }
    }
}

proof fn lemma_method_names(s: Seq<MethodView>)
    ensures
        declared_names(method_stmts(s)) == s.map_values(|m: MethodView| m.ident),
    decreases s.len(),
{
    if s.len() == 0 {
        assert(method_stmts(s) =~= seq![]);
        assert(s.map_values(|m: MethodView| m.ident) =~= seq![]);
    } else {
        lemma_method_names(s.drop_last());
        assert(method_stmts(s).drop_last() =~= method_stmts(s.drop_last()));
        assert(s.map_values(|m: MethodView| m.ident) =~= s.drop_last().map_values(
            |m: MethodView| m.ident,
        ).push(s.last().ident));
    }
}

proof fn lemma_ref_names(ps: Seq<PropView>)
    requires
        ref_stmts(ps) is Ok,
    ensures
        declared_names(ref_stmts(ps)->Ok_0) == key_value_names(ps),
    decreases ps.len(),
{
    if ps.len() > 0 {
        lemma_ref_names(ps.drop_last());
        let prev = ref_stmts(ps.drop_last())->Ok_0;
        match ps.last() {
            PropView::KeyValue { key: PropNameView::Ident(k), value } => {
                lemma_push_names(prev, const_decl(k, call_of("ref"@, seq![value])));
                lemma_const_decl_names(k, call_of("ref"@, seq![value]));
            },
            _ => {},
        }
    }
}

/// The keys of the object that `data()` returns.
pub open spec fn data_names(data: Option<FunctionView>) -> Seq<Seq<char>> {
    match data {
        Some(f) => match f.body {
            Some(b) => match top_level_returns(b)[0] {
                Some(ExprView::Object(ps)) => key_value_names(ps),
                _ => seq![],
            },
            None => seq![],
        },
        None => seq![],
    }
}

pub open spec fn created_names(created: Option<FunctionView>) -> Seq<Seq<char>> {
    match created {
        Some(f) => declared_names(created_stmts(f)),
        None => seq![],
    }
}

pub open spec fn method_names(methods: Option<Seq<MethodView>>) -> Seq<Seq<char>> {
    match methods {
        Some(m) => m.map_values(|x: MethodView| x.ident),
        None => seq![],
    }
}

pub open spec fn opt_computed_names(computed: Option<Seq<MethodView>>) -> Seq<Seq<char>> {
    match computed {
        Some(c) => computed_names(c),
        None => seq![],
    }
}

/// The setup function returns every name its body binds, in declaration
/// order: the injected names, the data keys, the computed names, what
/// `created()` declares at its top level and the method names. Watchers and
/// the `onMounted` call bind none.
pub proof fn lemma_returned_names(o: OptionsView, injects: Seq<InjectView>)
    requires
        composition_of(o, injects) is Ok,
    ensures
        setup_body(setup_stmts(composition_of(o, injects)->Ok_0)).last() == return_object(
            inject_names(injects) + data_names(o.data) + opt_computed_names(o.computed)
                + created_names(o.created) + method_names(o.methods),
        ),
{
    let c = composition_of(o, injects)->Ok_0;
    let a = or_empty(c.inject_stmts);
    let b = or_empty(c.ref_stmts);
    let cc = or_empty(c.computed);
    let w = or_empty(c.watch);
    let cr = or_empty(c.created_stmts);
    let m = or_empty(c.method_decls);
    let mo = or_empty(c.mounted);
    lemma_declared_names_concat(a, b);
    lemma_declared_names_concat(a + b, cc);
    lemma_declared_names_concat(a + b + cc, w);
    lemma_declared_names_concat(a + b + cc + w, cr);
    lemma_declared_names_concat(a + b + cc + w + cr, m);
    lemma_declared_names_concat(a + b + cc + w + cr + m, mo);
    if injects.len() > 0 {
        lemma_inject_names(injects);
    } else {
        assert(inject_names(injects) =~= seq![]);
    }
    match o.data {
        Some(f) => {
            let body = f.body->Some_0;
            lemma_ref_names(top_level_returns(body)[0]->Some_0->Object_0);
        },
        None => {},
    }
    match o.computed {
        Some(x) => lemma_computed_names(x),
        None => {},
    }
    match o.watch {
        Some(x) => lemma_watch_names(x),
        None => {},
    }
    match o.methods {
        Some(x) => lemma_method_names(x),
        None => {},
    }
    match o.mounted {
        Some(f) => {
            if f.body is Some {
                assert(mounted_stmts(f).drop_last() =~= Seq::<StmtView>::empty());
                assert(declared_names(Seq::<StmtView>::empty()) == Seq::<Seq<char>>::empty());
            }
        },
        None => {},
    }
    assert(declared_names(a) == inject_names(injects));
    assert(declared_names(b) == data_names(o.data));
    assert(declared_names(cc) == opt_computed_names(o.computed));
    assert(declared_names(w) == Seq::<Seq<char>>::empty());
    assert(declared_names(cr) == created_names(o.created));
    assert(declared_names(m) == method_names(o.methods));
    assert(declared_names(mo) == Seq::<Seq<char>>::empty());
    assert(declared_names(setup_stmts(c)) =~= inject_names(injects) + data_names(o.data)
        + opt_computed_names(o.computed) + created_names(o.created) + method_names(o.methods));
}

} // verus!
