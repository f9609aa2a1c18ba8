//! Deep copies of syntax fragments, each equal in view to its source.
use vstd::prelude::*;
use crate::ast::{ArrowBody, Expr, Function, Pat, Prop, PropName, Stmt, SwitchCase, VarDeclarator};
use crate::model::{
    case_view, cases_view,
    decls_view, exprs_view, opt_expr_view, pats_view, props_view, stmts_view, strings_view,
    DeclView,
};
use crate::text::copy_string;

verus! {

pub fn copy_pat(p: &Pat) -> (r: Pat)
    ensures
        r@ == p@,
{
    match p {
        Pat::Ident(s) => Pat::Ident(copy_string(s)),
        Pat::Other(h) => Pat::Other(*h),
    }
}

pub fn copy_pats(v: &Vec<Pat>) -> (r: Vec<Pat>)
    ensures
        pats_view(r@) == pats_view(v@),
{
    let mut out: Vec<Pat> = Vec::new();
    let mut i: usize = 0;
    while i < v.len()
        invariant
            i <= v@.len(),
            out@.len() == i,
            forall|j: int| 0 <= j < i ==> (#[trigger] out@[j])@ == v@[j]@,
        decreases v@.len() - i,
    {
        let p = match &v[i] {
            Pat::Ident(s) => Pat::Ident(copy_string(s)),
            Pat::Other(h) => Pat::Other(*h),
        };
        out.push(p);
        i = i + 1;
    }
    assert(pats_view(out@) =~= pats_view(v@));
    out
}

pub fn copy_strings(v: &Vec<String>) -> (r: Vec<String>)
    ensures
        strings_view(r@) == strings_view(v@),
{
    let mut out: Vec<String> = Vec::new();
    let mut i: usize = 0;
    while i < v.len()
        invariant
            i <= v@.len(),
            out@.len() == i,
            forall|j: int| 0 <= j < i ==> (#[trigger] out@[j])@ == v@[j]@,
        decreases v@.len() - i,
    {
        out.push(copy_string(&v[i]));
        i = i + 1;
    }
    assert(strings_view(out@) =~= strings_view(v@));
    out
}

pub fn copy_prop_name(k: &PropName) -> (r: PropName)
    ensures
        r@ == k@,
{
    match k {
        PropName::Ident(s) => PropName::Ident(copy_string(s)),
        PropName::Str(s) => PropName::Str(copy_string(s)),
        PropName::Other(h) => PropName::Other(*h),
    }
}

pub fn copy_expr(e: &Expr) -> (r: Expr)
    ensures
        r@ == e@,
    decreases e,
{
    match e {
        Expr::This => Expr::This,
        Expr::Ident(s) => Expr::Ident(copy_string(s)),
        Expr::Str(s) => Expr::Str(copy_string(s)),
        Expr::Num(s) => Expr::Num(copy_string(s)),
        Expr::Bool(b) => Expr::Bool(*b),
        Expr::Null => Expr::Null,
        Expr::Other(h) => Expr::Other(*h),
        Expr::Member { obj, prop } => Expr::Member {
            obj: Box::new(copy_expr(obj)),
            prop: copy_string(prop),
        },
        Expr::Index { obj, index } => Expr::Index {
            obj: Box::new(copy_expr(obj)),
            index: Box::new(copy_expr(index)),
        },
        Expr::Call { callee, args } => Expr::Call {
            callee: Box::new(copy_expr(callee)),
            args: copy_exprs(args),
        },
        Expr::New { callee, args } => Expr::New {
            callee: Box::new(copy_expr(callee)),
            args: copy_exprs(args),
        },
        Expr::Array(elems) => Expr::Array(copy_exprs(elems)),
        Expr::Object(props) => Expr::Object(copy_props(props)),
        Expr::Arrow { params, body, is_async, is_generator } => Expr::Arrow {
            params: copy_pats(params),
            body: Box::new(copy_arrow_body(body)),
            is_async: *is_async,
            is_generator: *is_generator,
        },
        Expr::Fn(f) => Expr::Fn(copy_function(f)),
        Expr::Unary { op, arg } => Expr::Unary {
            op: copy_string(op),
            arg: Box::new(copy_expr(arg)),
        },
        Expr::Update { op, prefix, arg } => Expr::Update {
            op: copy_string(op),
            prefix: *prefix,
            arg: Box::new(copy_expr(arg)),
        },
        Expr::Binary { op, left, right } => Expr::Binary {
            op: copy_string(op),
            left: Box::new(copy_expr(left)),
            right: Box::new(copy_expr(right)),
        },
        Expr::Assign { op, left, right } => Expr::Assign {
            op: copy_string(op),
            left: Box::new(copy_expr(left)),
            right: Box::new(copy_expr(right)),
        },
        Expr::Cond { test, cons, alt } => Expr::Cond {
            test: Box::new(copy_expr(test)),
            cons: Box::new(copy_expr(cons)),
            alt: Box::new(copy_expr(alt)),
        },
        Expr::Await(a) => Expr::Await(Box::new(copy_expr(a))),
        Expr::Paren(a) => Expr::Paren(Box::new(copy_expr(a))),
        Expr::Spread(a) => Expr::Spread(Box::new(copy_expr(a))),
        Expr::Template { quasis, exprs } => Expr::Template {
            quasis: copy_strings(quasis),
            exprs: copy_exprs(exprs),
        },
        Expr::Sequence(es) => Expr::Sequence(copy_exprs(es)),
    }
}

pub fn copy_exprs(v: &Vec<Expr>) -> (r: Vec<Expr>)
    ensures
        exprs_view(r@) == exprs_view(v@),
    decreases v,
{
    let mut out: Vec<Expr> = Vec::new();
    let mut i: usize = 0;
    while i < v.len()
        invariant
            i <= v@.len(),
            out@.len() == i,
            forall|j: int| 0 <= j < i ==> (#[trigger] out@[j])@ == v@[j]@,
        decreases v@.len() - i,
    {
        proof {
            assert(decreases_to!(*v => v[i as int]));
        }
        out.push(copy_expr(&v[i]));
        i = i + 1;
    }
    assert(exprs_view(out@) =~= exprs_view(v@));
    out
}

pub fn copy_prop(p: &Prop) -> (r: Prop)
    ensures
        r@ == p@,
    decreases p,
{
    match p {
        Prop::KeyValue { key, value } => Prop::KeyValue {
            key: copy_prop_name(key),
            value: copy_expr(value),
        },
        Prop::Shorthand(s) => Prop::Shorthand(copy_string(s)),
        Prop::Method { key, function } => Prop::Method {
            key: copy_prop_name(key),
            function: copy_function(function),
        },
        Prop::Spread(e) => Prop::Spread(copy_expr(e)),
        Prop::Other(h) => Prop::Other(*h),
    }
}

pub fn copy_props(v: &Vec<Prop>) -> (r: Vec<Prop>)
    ensures
        props_view(r@) == props_view(v@),
    decreases v,
{
    let mut out: Vec<Prop> = Vec::new();
    let mut i: usize = 0;
    while i < v.len()
        invariant
            i <= v@.len(),
            out@.len() == i,
            forall|j: int| 0 <= j < i ==> (#[trigger] out@[j])@ == v@[j]@,
        decreases v@.len() - i,
    {
        proof {
            assert(decreases_to!(*v => v[i as int]));
        }
        out.push(copy_prop(&v[i]));
        i = i + 1;
    }
    assert(props_view(out@) =~= props_view(v@));
    out
}

pub fn copy_function(f: &Function) -> (r: Function)
    ensures
        r@ == f@,
    decreases f,
{
    let body = match &f.body {
        Some(b) => Some(copy_stmts(b)),
        None => None,
    };
    Function {
        params: copy_pats(&f.params),
        body,
        is_async: f.is_async,
        is_generator: f.is_generator,
    }
}

pub fn copy_arrow_body(b: &ArrowBody) -> (r: ArrowBody)
    ensures
        r@ == b@,
    decreases b,
{
    match b {
        ArrowBody::Block(s) => ArrowBody::Block(copy_stmts(s)),
        ArrowBody::Expr(e) => ArrowBody::Expr(Box::new(copy_expr(e))),
    }
}

pub fn copy_opt_expr(o: &Option<Expr>) -> (r: Option<Expr>)
    ensures
        opt_expr_view(r) == opt_expr_view(*o),
    decreases o,
{
    match o {
        Some(e) => Some(copy_expr(e)),
        None => None,
    }
}

pub fn copy_decls(v: &Vec<VarDeclarator>) -> (r: Vec<VarDeclarator>)
    ensures
        decls_view(r@) == decls_view(v@),
    decreases v,
{
    let mut out: Vec<VarDeclarator> = Vec::new();
    let mut i: usize = 0;
    while i < v.len()
        invariant
            i <= v@.len(),
            out@.len() == i,
            forall|j: int|
                0 <= j < i ==> (#[trigger] out@[j])@ == (DeclView {
                    name: v@[j]@.name,
                    init: v@[j]@.init,
                }),
        decreases v@.len() - i,
    {
        proof {
            assert(decreases_to!(*v => v[i as int]));
        }
        let d = &v[i];
        let name = match &d.name {
            Pat::Ident(s) => Pat::Ident(copy_string(s)),
            Pat::Other(h) => Pat::Other(*h),
        };
        let init = copy_opt_expr(&d.init);
        out.push(VarDeclarator { name, init });
        i = i + 1;
    }
    assert(decls_view(out@) =~= decls_view(v@));
    out
}

pub fn copy_stmt(s: &Stmt) -> (r: Stmt)
    ensures
        r@ == s@,
    decreases s,
{
    match s {
        Stmt::Expr(e) => Stmt::Expr(copy_expr(e)),
        Stmt::Return(o) => Stmt::Return(copy_opt_expr(o)),
        Stmt::Var { kind, decls } => Stmt::Var { kind: *kind, decls: copy_decls(decls) },
        Stmt::FnDecl { ident, function } => Stmt::FnDecl {
            ident: copy_string(ident),
            function: copy_function(function),
        },
        Stmt::ClassDecl { ident, class } => Stmt::ClassDecl {
            ident: copy_string(ident),
            class: *class,
        },
        Stmt::Block(b) => Stmt::Block(copy_stmts(b)),
        Stmt::If { test, cons, alt } => {
            let alt2 = match alt {
                Some(a) => Some(Box::new(copy_stmt(a))),
                None => None,
            };
            Stmt::If {
                test: copy_expr(test),
                cons: Box::new(copy_stmt(cons)),
                alt: alt2,
            }
        },
        Stmt::Throw(e) => Stmt::Throw(copy_expr(e)),
        Stmt::While { test, body } => Stmt::While {
            test: copy_expr(test),
            body: Box::new(copy_stmt(body)),
        },
        Stmt::DoWhile { body, test } => Stmt::DoWhile {
            body: Box::new(copy_stmt(body)),
            test: copy_expr(test),
        },
        Stmt::For { init, test, update, body } => {
            let init2 = match init {
                Some(i) => Some(Box::new(copy_stmt(i))),
                None => None,
            };
            Stmt::For {
                init: init2,
                test: copy_opt_expr(test),
                update: copy_opt_expr(update),
                body: Box::new(copy_stmt(body)),
            }
        },
        Stmt::ForOf { kind, name, right, body } => Stmt::ForOf {
            kind: *kind,
            name: copy_pat(name),
            right: copy_expr(right),
            body: Box::new(copy_stmt(body)),
        },
        Stmt::ForIn { kind, name, right, body } => Stmt::ForIn {
            kind: *kind,
            name: copy_pat(name),
            right: copy_expr(right),
            body: Box::new(copy_stmt(body)),
        },
        Stmt::Try { block, param, handler, finalizer } => {
            let param2 = match param {
                Some(p) => Some(copy_pat(p)),
                None => None,
            };
            let handler2 = match handler {
                Some(h) => Some(copy_stmts(h)),
                None => None,
            };
            let finalizer2 = match finalizer {
                Some(f) => Some(copy_stmts(f)),
                None => None,
            };
            Stmt::Try { block: copy_stmts(block), param: param2, handler: handler2, finalizer: finalizer2 }
        },
        Stmt::Switch { discriminant, cases } => Stmt::Switch {
            discriminant: copy_expr(discriminant),
            cases: copy_cases(cases),
        },
        Stmt::Other(h) => Stmt::Other(*h),
    }
}

pub fn copy_cases(v: &Vec<SwitchCase>) -> (r: Vec<SwitchCase>)
    ensures
        cases_view(r@) == cases_view(v@),
    decreases v,
{
    let mut out: Vec<SwitchCase> = Vec::new();
    let mut i: usize = 0;
    while i < v.len()
        invariant
            i <= v@.len(),
            out@.len() == i,
            forall|j: int| 0 <= j < i ==> case_view(#[trigger] out@[j]) == case_view(v@[j]),
        decreases v@.len() - i,
    {
        proof {
            assert(decreases_to!(*v => v[i as int]));
        }
        let cs = &v[i];
        let test = copy_opt_expr(&cs.test);
        let body = copy_stmts(&cs.body);
        out.push(SwitchCase { test, body });
        i = i + 1;
    }
    assert(cases_view(out@) =~= cases_view(v@));
    out
}

pub fn copy_stmts(v: &Vec<Stmt>) -> (r: Vec<Stmt>)
    ensures
        stmts_view(r@) == stmts_view(v@),
    decreases v,
{
    let mut out: Vec<Stmt> = Vec::new();
    let mut i: usize = 0;
    while i < v.len()
        invariant
            i <= v@.len(),
            out@.len() == i,
            forall|j: int| 0 <= j < i ==> (#[trigger] out@[j])@ == v@[j]@,
        decreases v@.len() - i,
    {
        proof {
            assert(decreases_to!(*v => v[i as int]));
        }
        out.push(copy_stmt(&v[i]));
        i = i + 1;
    }
    assert(stmts_view(out@) =~= stmts_view(v@));
    out
}

} // verus!
