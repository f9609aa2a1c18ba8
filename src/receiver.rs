//! The receiver rewriter: resolves every `this.<name>` of the component into
//! the binding it stands for in the setup function.
use vstd::prelude::*;
use crate::ast::{ArrowBody, Expr, Function, Pat, Prop, Stmt, SwitchCase, VarDeclarator};
use crate::model::{
    decls_view, expr_view, exprs_view, opt_expr_view, props_view, stmts_view, strings_view,
    case_view, cases_view, ArrowBodyView, CaseView, DeclView, ExprView, FunctionView, PatView, PropView, StmtView,
};
use crate::copy::{copy_pat, copy_pats, copy_prop_name, copy_strings};
use crate::text::{contains_name, copy_string, drop_first_char, is_word, starts_with_dollar, word};

verus! {

/// The names that decide how `this.<name>` is resolved.
#[derive(Debug, PartialEq, Eq)]
pub struct Receiver {
    /// Declared props.
    pub props: Vec<String>,
    /// Injected names.
    pub injects: Vec<String>,
    /// Methods that stay member accesses on the context when called (`$emit`).
    pub special_functions: Vec<String>,
}

pub struct ReceiverView {
    pub props: Seq<Seq<char>>,
    pub injects: Seq<Seq<char>>,
    pub special_functions: Seq<Seq<char>>,
}

impl View for Receiver {
    type V = ReceiverView;

    open spec fn view(&self) -> ReceiverView {
        ReceiverView {
            props: strings_view(self.props@),
            injects: strings_view(self.injects@),
            special_functions: strings_view(self.special_functions@),
        }
    }
}

pub open spec fn ident(s: Seq<char>) -> ExprView {
    ExprView::Ident(s)
}

pub open spec fn member(obj: ExprView, prop: Seq<char>) -> ExprView {
    ExprView::Member { obj: Box::new(obj), prop }
}

/// What `this.<x>` becomes: an injected name stays a plain identifier, a prop
/// is read from `props`, `$emit` from the context, any other `$`-name from the
/// root instance, and everything else is a ref read through `.value`.
pub open spec fn resolve_this_member(x: Seq<char>, c: ReceiverView) -> ExprView {
    if c.injects.contains(x) {
        ident(x)
    } else if c.props.contains(x) {
        member(ident("props"@), x)
    } else if x == "$emit"@ {
        member(ident("ctx"@), x)
    } else if x.len() > 0 && x[0] == '$' {
        member(member(ident("ctx"@), "$root"@), x.drop_first())
    } else {
        member(ident(x), "value"@)
    }
}

/// `this.<x>` in callee position, with `x` not a special function.
pub open spec fn is_plain_this_call(callee: ExprView, c: ReceiverView) -> bool {
    callee matches ExprView::Member { obj, prop } && *obj == ExprView::This
        && !c.special_functions.contains(prop)
}

pub open spec fn rw_expr(e: ExprView, c: ReceiverView) -> ExprView
    decreases e,
{
    match e {
        ExprView::Member { obj, prop } => {
            let o = rw_expr(*obj, c);
            if o == ExprView::This {
                resolve_this_member(prop, c)
            } else {
                member(o, prop)
            }
        },
        ExprView::Index { obj, index } => ExprView::Index {
            obj: Box::new(rw_expr(*obj, c)),
            index: Box::new(rw_expr(*index, c)),
        },
        ExprView::Call { callee, args } => ExprView::Call {
            callee: Box::new(
                if is_plain_this_call(*callee, c) {
                    ident(callee->prop)
                } else {
                    rw_expr(*callee, c)
                },
            ),
            args: rw_exprs(args, c),
        },
        ExprView::New { callee, args } => ExprView::New {
            callee: Box::new(rw_expr(*callee, c)),
            args: rw_exprs(args, c),
        },
        ExprView::Array(elems) => ExprView::Array(rw_exprs(elems, c)),
        ExprView::Object(props) => ExprView::Object(rw_props(props, c)),
        ExprView::Arrow { params, body, is_async, is_generator } => ExprView::Arrow {
            params,
            body: Box::new(rw_arrow_body(*body, c)),
            is_async,
            is_generator,
        },
        ExprView::Fn(f) => ExprView::Fn(rw_function(f, c)),
        ExprView::Unary { op, arg } => ExprView::Unary { op, arg: Box::new(rw_expr(*arg, c)) },
        ExprView::Update { op, prefix, arg } => ExprView::Update {
            op,
            prefix,
            arg: Box::new(rw_expr(*arg, c)),
        },
        ExprView::Binary { op, left, right } => ExprView::Binary {
            op,
            left: Box::new(rw_expr(*left, c)),
            right: Box::new(rw_expr(*right, c)),
        },
        ExprView::Assign { op, left, right } => ExprView::Assign {
            op,
            left: Box::new(rw_expr(*left, c)),
            right: Box::new(rw_expr(*right, c)),
        },
        ExprView::Cond { test, cons, alt } => ExprView::Cond {
            test: Box::new(rw_expr(*test, c)),
            cons: Box::new(rw_expr(*cons, c)),
            alt: Box::new(rw_expr(*alt, c)),
        },
        ExprView::Await(a) => ExprView::Await(Box::new(rw_expr(*a, c))),
        ExprView::Paren(a) => ExprView::Paren(Box::new(rw_expr(*a, c))),
        ExprView::Spread(a) => ExprView::Spread(Box::new(rw_expr(*a, c))),
        ExprView::Template { quasis, exprs } => ExprView::Template {
            quasis,
            exprs: rw_exprs(exprs, c),
        },
        ExprView::Sequence(es) => ExprView::Sequence(rw_exprs(es, c)),
        _ => e,
    }
}

pub open spec fn rw_exprs(s: Seq<ExprView>, c: ReceiverView) -> Seq<ExprView>
    decreases s,
{
    Seq::new(s.len(), |i: int| if 0 <= i < s.len() { rw_expr(s[i], c) } else { ExprView::Null })
}

pub open spec fn rw_prop(p: PropView, c: ReceiverView) -> PropView
    decreases p,
{
    match p {
        PropView::KeyValue { key, value } => PropView::KeyValue { key, value: rw_expr(value, c) },
        PropView::Method { key, function } => PropView::Method {
            key,
            function: rw_function(function, c),
        },
        PropView::Spread(e) => PropView::Spread(rw_expr(e, c)),
        _ => p,
    }
}

pub open spec fn rw_props(s: Seq<PropView>, c: ReceiverView) -> Seq<PropView>
    decreases s,
{
    Seq::new(s.len(), |i: int| if 0 <= i < s.len() { rw_prop(s[i], c) } else { PropView::Other(0) })
}

pub open spec fn rw_function(f: FunctionView, c: ReceiverView) -> FunctionView
    decreases f,
{
    FunctionView {
        body: match f.body {
            Some(b) => Some(rw_stmts(b, c)),
            None => None,
        },
        ..f
    }
}

pub open spec fn rw_arrow_body(b: ArrowBodyView, c: ReceiverView) -> ArrowBodyView
    decreases b,
{
    match b {
        ArrowBodyView::Block(s) => ArrowBodyView::Block(rw_stmts(s, c)),
        ArrowBodyView::Expr(e) => ArrowBodyView::Expr(Box::new(rw_expr(*e, c))),
    }
}

pub open spec fn rw_opt_expr(o: Option<ExprView>, c: ReceiverView) -> Option<ExprView>
    decreases o,
{
    match o {
        Some(e) => Some(rw_expr(e, c)),
        None => None,
    }
}

pub open spec fn rw_decls(s: Seq<DeclView>, c: ReceiverView) -> Seq<DeclView>
    decreases s,
{
    Seq::new(
        s.len(),
        |i: int|
            if 0 <= i < s.len() {
                DeclView { name: s[i].name, init: rw_opt_expr(s[i].init, c) }
            } else {
                DeclView { name: PatView::Other(0), init: None }
            },
    )
}

pub open spec fn rw_stmt(s: StmtView, c: ReceiverView) -> StmtView
    decreases s,
{
    match s {
        StmtView::Expr(e) => StmtView::Expr(rw_expr(e, c)),
        StmtView::Return(o) => StmtView::Return(rw_opt_expr(o, c)),
        StmtView::Var { kind, decls } => StmtView::Var { kind, decls: rw_decls(decls, c) },
        StmtView::FnDecl { ident, function } => StmtView::FnDecl {
            ident,
            function: rw_function(function, c),
        },
        StmtView::Block(b) => StmtView::Block(rw_stmts(b, c)),
        StmtView::If { test, cons, alt } => StmtView::If {
            test: rw_expr(test, c),
            cons: Box::new(rw_stmt(*cons, c)),
            alt: match alt {
                Some(a) => Some(Box::new(rw_stmt(*a, c))),
                None => None,
            },
        },
        StmtView::Throw(e) => StmtView::Throw(rw_expr(e, c)),
        StmtView::While { test, body } => StmtView::While {
            test: rw_expr(test, c),
            body: Box::new(rw_stmt(*body, c)),
        },
        StmtView::DoWhile { body, test } => StmtView::DoWhile {
            body: Box::new(rw_stmt(*body, c)),
            test: rw_expr(test, c),
        },
        StmtView::For { init, test, update, body } => StmtView::For {
            init: match init {
                Some(i) => Some(Box::new(rw_stmt(*i, c))),
                None => None,
            },
            test: rw_opt_expr(test, c),
            update: rw_opt_expr(update, c),
            body: Box::new(rw_stmt(*body, c)),
        },
        StmtView::ForOf { kind, name, right, body } => StmtView::ForOf {
            kind,
            name,
            right: rw_expr(right, c),
            body: Box::new(rw_stmt(*body, c)),
        },
        StmtView::ForIn { kind, name, right, body } => StmtView::ForIn {
            kind,
            name,
            right: rw_expr(right, c),
            body: Box::new(rw_stmt(*body, c)),
        },
        StmtView::Try { block, param, handler, finalizer } => StmtView::Try {
            block: rw_stmts(block, c),
            param,
            handler: match handler {
                Some(h) => Some(rw_stmts(h, c)),
                None => None,
            },
            finalizer: match finalizer {
                Some(f) => Some(rw_stmts(f, c)),
                None => None,
            },
        },
        StmtView::Switch { discriminant, cases } => StmtView::Switch {
            discriminant: rw_expr(discriminant, c),
            cases: rw_cases(cases, c),
        },
        _ => s,
    }
}

pub open spec fn rw_cases(s: Seq<CaseView>, c: ReceiverView) -> Seq<CaseView>
    decreases s,
{
    Seq::new(
        s.len(),
        |i: int|
            if 0 <= i < s.len() {
                CaseView { test: rw_opt_expr(s[i].test, c), body: rw_stmts(s[i].body, c) }
            } else {
                CaseView { test: None, body: seq![] }
            },
    )
}

pub open spec fn rw_stmts(s: Seq<StmtView>, c: ReceiverView) -> Seq<StmtView>
    decreases s,
{
    Seq::new(s.len(), |i: int| if 0 <= i < s.len() { rw_stmt(s[i], c) } else { StmtView::Other(0) })
}

impl Receiver {
    pub fn resolve_this_member(&self, x: &String) -> (r: Expr)
        ensures
            r@ == resolve_this_member(x@, self@),
    {
        proof {
            reveal_with_fuel(expr_view, 3);
        }
        if contains_name(&self.injects, x) {
            Expr::Ident(copy_string(x))
        } else if contains_name(&self.props, x) {
            Expr::Member { obj: Box::new(Expr::Ident(word("props"))), prop: copy_string(x) }
        } else if is_word(x, "$emit") {
            Expr::Member { obj: Box::new(Expr::Ident(word("ctx"))), prop: copy_string(x) }
        } else if starts_with_dollar(x) {
            let root = Expr::Member { obj: Box::new(Expr::Ident(word("ctx"))), prop: word("$root") };
            Expr::Member { obj: Box::new(root), prop: drop_first_char(x) }
        } else {
            Expr::Member { obj: Box::new(Expr::Ident(copy_string(x))), prop: word("value") }
        }
    }

    /// The name called, where `callee` is `this.<name>` and `<name>` is not special.
    fn plain_this_call(&self, callee: &Expr) -> (r: Option<String>)
        ensures
            r is Some <==> is_plain_this_call(callee@, self@),
            r is Some ==> r->0@ == callee@->prop,
    {
        proof {
            reveal_with_fuel(expr_view, 2);
        }
        match callee {
            Expr::Member { obj, prop } => {
                match &**obj {
                    Expr::This => {
                        if contains_name(&self.special_functions, prop) {
                            None
                        } else {
                            Some(copy_string(prop))
                        }
                    },
                    _ => None,
                }
            },
            _ => None,
        }
    }

    pub fn rewrite_expr(&self, e: &Expr) -> (r: Expr)
        ensures
            r@ == rw_expr(e@, self@),
        decreases e,
    {
        match e {
            Expr::This => Expr::This,
            Expr::Ident(s) => Expr::Ident(copy_string(s)),
            Expr::Str(s) => Expr::Str(copy_string(s)),
            Expr::Num(s) => Expr::Num(copy_string(s)),
            Expr::Bool(b) => Expr::Bool(*b),
            Expr::Null => Expr::Null,
            Expr::Other(h) => Expr::Other(*h),
            Expr::Member { obj, prop } => {
                let o = self.rewrite_expr(obj);
                match o {
                    Expr::This => self.resolve_this_member(prop),
                    _ => Expr::Member { obj: Box::new(o), prop: copy_string(prop) },
                }
            },
            Expr::Index { obj, index } => Expr::Index {
                obj: Box::new(self.rewrite_expr(obj)),
                index: Box::new(self.rewrite_expr(index)),
            },
            Expr::Call { callee, args } => {
                let new_callee = match self.plain_this_call(callee) {
                    Some(name) => {
                        let id = Expr::Ident(name);
                        assert(id@ == ident(name@));
                        id
                    },
                    None => self.rewrite_expr(callee),
                };
                Expr::Call { callee: Box::new(new_callee), args: self.rewrite_exprs(args) }
            },
            Expr::New { callee, args } => Expr::New {
                callee: Box::new(self.rewrite_expr(callee)),
                args: self.rewrite_exprs(args),
            },
            Expr::Array(elems) => Expr::Array(self.rewrite_exprs(elems)),
            Expr::Object(props) => Expr::Object(self.rewrite_props(props)),
            Expr::Arrow { params, body, is_async, is_generator } => Expr::Arrow {
                params: copy_pats(params),
                body: Box::new(self.rewrite_arrow_body(body)),
                is_async: *is_async,
                is_generator: *is_generator,
            },
            Expr::Fn(f) => Expr::Fn(self.rewrite_function(f)),
            Expr::Unary { op, arg } => Expr::Unary {
                op: copy_string(op),
                arg: Box::new(self.rewrite_expr(arg)),
            },
            Expr::Update { op, prefix, arg } => Expr::Update {
                op: copy_string(op),
                prefix: *prefix,
                arg: Box::new(self.rewrite_expr(arg)),
            },
            Expr::Binary { op, left, right } => Expr::Binary {
                op: copy_string(op),
                left: Box::new(self.rewrite_expr(left)),
                right: Box::new(self.rewrite_expr(right)),
            },
            Expr::Assign { op, left, right } => Expr::Assign {
                op: copy_string(op),
                left: Box::new(self.rewrite_expr(left)),
                right: Box::new(self.rewrite_expr(right)),
            },
            Expr::Cond { test, cons, alt } => Expr::Cond {
                test: Box::new(self.rewrite_expr(test)),
                cons: Box::new(self.rewrite_expr(cons)),
                alt: Box::new(self.rewrite_expr(alt)),
            },
            Expr::Await(a) => Expr::Await(Box::new(self.rewrite_expr(a))),
            Expr::Paren(a) => Expr::Paren(Box::new(self.rewrite_expr(a))),
            Expr::Spread(a) => Expr::Spread(Box::new(self.rewrite_expr(a))),
            Expr::Template { quasis, exprs } => Expr::Template {
                quasis: copy_strings(quasis),
                exprs: self.rewrite_exprs(exprs),
            },
            Expr::Sequence(es) => Expr::Sequence(self.rewrite_exprs(es)),
        }
    }

    pub fn rewrite_exprs(&self, v: &Vec<Expr>) -> (r: Vec<Expr>)
        ensures
            exprs_view(r@) == rw_exprs(exprs_view(v@), self@),
        decreases v,
    {
        let mut out: Vec<Expr> = Vec::new();
        let mut i: usize = 0;
        while i < v.len()
            invariant
                i <= v@.len(),
                out@.len() == i,
                forall|j: int| 0 <= j < i ==> (#[trigger] out@[j])@ == rw_expr(v@[j]@, self@),
            decreases v@.len() - i,
        {
            proof {
                assert(decreases_to!(*v => v[i as int]));
            }
            out.push(self.rewrite_expr(&v[i]));
            i = i + 1;
        }
        assert(exprs_view(out@) =~= rw_exprs(exprs_view(v@), self@));
        out
    }

    pub fn rewrite_prop(&self, p: &Prop) -> (r: Prop)
        ensures
            r@ == rw_prop(p@, self@),
        decreases p,
    {
        match p {
            Prop::KeyValue { key, value } => Prop::KeyValue {
                key: copy_prop_name(key),
                value: self.rewrite_expr(value),
            },
            Prop::Shorthand(s) => Prop::Shorthand(copy_string(s)),
            Prop::Method { key, function } => Prop::Method {
                key: copy_prop_name(key),
                function: self.rewrite_function(function),
            },
            Prop::Spread(e) => Prop::Spread(self.rewrite_expr(e)),
            Prop::Other(h) => Prop::Other(*h),
        }
    }

    pub fn rewrite_props(&self, v: &Vec<Prop>) -> (r: Vec<Prop>)
        ensures
            props_view(r@) == rw_props(props_view(v@), self@),
        decreases v,
    {
        let mut out: Vec<Prop> = Vec::new();
        let mut i: usize = 0;
        while i < v.len()
            invariant
                i <= v@.len(),
                out@.len() == i,
                forall|j: int| 0 <= j < i ==> (#[trigger] out@[j])@ == rw_prop(v@[j]@, self@),
            decreases v@.len() - i,
        {
            proof {
                assert(decreases_to!(*v => v[i as int]));
            }
            out.push(self.rewrite_prop(&v[i]));
            i = i + 1;
        }
        assert(props_view(out@) =~= rw_props(props_view(v@), self@));
        out
    }

    pub fn rewrite_function(&self, f: &Function) -> (r: Function)
        ensures
            r@ == rw_function(f@, self@),
        decreases f,
    {
        let body = match &f.body {
            Some(b) => Some(self.rewrite_stmts(b)),
            None => None,
        };
        Function {
            params: copy_pats(&f.params),
            body,
            is_async: f.is_async,
            is_generator: f.is_generator,
        }
    }

    pub fn rewrite_arrow_body(&self, b: &ArrowBody) -> (r: ArrowBody)
        ensures
            r@ == rw_arrow_body(b@, self@),
        decreases b,
    {
        match b {
            ArrowBody::Block(s) => ArrowBody::Block(self.rewrite_stmts(s)),
            ArrowBody::Expr(e) => ArrowBody::Expr(Box::new(self.rewrite_expr(e))),
        }
    }

    fn rewrite_opt_expr(&self, o: &Option<Expr>) -> (r: Option<Expr>)
        ensures
            opt_expr_view(r) == rw_opt_expr(opt_expr_view(*o), self@),
        decreases o,
    {
        match o {
            Some(e) => Some(self.rewrite_expr(e)),
            None => None,
        }
    }

    pub fn rewrite_decls(&self, v: &Vec<VarDeclarator>) -> (r: Vec<VarDeclarator>)
        ensures
            decls_view(r@) == rw_decls(decls_view(v@), self@),
        decreases v,
    {
        let mut out: Vec<VarDeclarator> = Vec::new();
        let mut i: usize = 0;
        while i < v.len()
            invariant
                i <= v@.len(),
                out@.len() == i,
                forall|j: int|
                    0 <= j < i ==> (#[trigger] out@[j])@ == (DeclView {
                        name: v@[j]@.name,
                        init: rw_opt_expr(v@[j]@.init, self@),
                    }),
            decreases v@.len() - i,
        {
            proof {
                assert(decreases_to!(*v => v[i as int]));
            }
            let d = &v[i];
            let name = match &d.name {
                Pat::Ident(s) => Pat::Ident(copy_string(s)),
                Pat::Other(h) => Pat::Other(*h),
            };
            let init = self.rewrite_opt_expr(&d.init);
            out.push(VarDeclarator { name, init });
            i = i + 1;
        }
        assert(decls_view(out@) =~= rw_decls(decls_view(v@), self@));
        out
    }

    pub fn rewrite_stmt(&self, s: &Stmt) -> (r: Stmt)
        ensures
            r@ == rw_stmt(s@, self@),
        decreases s,
    {
        match s {
            Stmt::Expr(e) => Stmt::Expr(self.rewrite_expr(e)),
            Stmt::Return(o) => Stmt::Return(self.rewrite_opt_expr(o)),
            Stmt::Var { kind, decls } => Stmt::Var { kind: *kind, decls: self.rewrite_decls(decls) },
            Stmt::FnDecl { ident, function } => Stmt::FnDecl {
                ident: copy_string(ident),
                function: self.rewrite_function(function),
            },
            Stmt::ClassDecl { ident, class } => Stmt::ClassDecl {
                ident: copy_string(ident),
                class: *class,
            },
            Stmt::Block(b) => Stmt::Block(self.rewrite_stmts(b)),
            Stmt::If { test, cons, alt } => {
                let alt2 = match alt {
                    Some(a) => Some(Box::new(self.rewrite_stmt(a))),
                    None => None,
                };
                Stmt::If {
                    test: self.rewrite_expr(test),
                    cons: Box::new(self.rewrite_stmt(cons)),
                    alt: alt2,
                }
            },
            Stmt::Throw(e) => Stmt::Throw(self.rewrite_expr(e)),
            Stmt::While { test, body } => Stmt::While {
                test: self.rewrite_expr(test),
                body: Box::new(self.rewrite_stmt(body)),
            },
            Stmt::DoWhile { body, test } => Stmt::DoWhile {
                body: Box::new(self.rewrite_stmt(body)),
                test: self.rewrite_expr(test),
            },
            Stmt::For { init, test, update, body } => {
                let init2 = match init {
                    Some(i) => Some(Box::new(self.rewrite_stmt(i))),
                    None => None,
                };
                Stmt::For {
                    init: init2,
                    test: self.rewrite_opt_expr(test),
                    update: self.rewrite_opt_expr(update),
                    body: Box::new(self.rewrite_stmt(body)),
                }
            },
            Stmt::ForOf { kind, name, right, body } => Stmt::ForOf {
                kind: *kind,
                name: copy_pat(name),
                right: self.rewrite_expr(right),
                body: Box::new(self.rewrite_stmt(body)),
            },
            Stmt::ForIn { kind, name, right, body } => Stmt::ForIn {
                kind: *kind,
                name: copy_pat(name),
                right: self.rewrite_expr(right),
                body: Box::new(self.rewrite_stmt(body)),
            },
            Stmt::Try { block, param, handler, finalizer } => {
                let param2 = match param {
                    Some(p) => Some(copy_pat(p)),
                    None => None,
                };
                let handler2 = match handler {
                    Some(h) => Some(self.rewrite_stmts(h)),
                    None => None,
                };
                let finalizer2 = match finalizer {
                    Some(f) => Some(self.rewrite_stmts(f)),
                    None => None,
                };
                Stmt::Try {
                    block: self.rewrite_stmts(block),
                    param: param2,
                    handler: handler2,
                    finalizer: finalizer2,
                }
            },
            Stmt::Switch { discriminant, cases } => Stmt::Switch {
                discriminant: self.rewrite_expr(discriminant),
                cases: self.rewrite_cases(cases),
            },
            Stmt::Other(h) => Stmt::Other(*h),
        }
    }

    pub fn rewrite_cases(&self, v: &Vec<SwitchCase>) -> (r: Vec<SwitchCase>)
        ensures
            cases_view(r@) == rw_cases(cases_view(v@), self@),
        decreases v,
    {
        let mut out: Vec<SwitchCase> = Vec::new();
        let mut i: usize = 0;
        while i < v.len()
            invariant
                i <= v@.len(),
                out@.len() == i,
                forall|j: int|
                    0 <= j < i ==> case_view(#[trigger] out@[j]) == (CaseView {
                        test: rw_opt_expr(case_view(v@[j]).test, self@),
                        body: rw_stmts(case_view(v@[j]).body, self@),
                    }),
            decreases v@.len() - i,
        {
            proof {
                assert(decreases_to!(*v => v[i as int]));
            }
            let cs = &v[i];
            let test = self.rewrite_opt_expr(&cs.test);
            let body = self.rewrite_stmts(&cs.body);
            out.push(SwitchCase { test, body });
            i = i + 1;
        }
        assert(cases_view(out@) =~= rw_cases(cases_view(v@), self@));
        out
    }

    pub fn rewrite_stmts(&self, v: &Vec<Stmt>) -> (r: Vec<Stmt>)
        ensures
            stmts_view(r@) == rw_stmts(stmts_view(v@), self@),
        decreases v,
    {
        let mut out: Vec<Stmt> = Vec::new();
        let mut i: usize = 0;
        while i < v.len()
            invariant
                i <= v@.len(),
                out@.len() == i,
                forall|j: int| 0 <= j < i ==> (#[trigger] out@[j])@ == rw_stmt(v@[j]@, self@),
            decreases v@.len() - i,
        {
            proof {
                assert(decreases_to!(*v => v[i as int]));
            }
            out.push(self.rewrite_stmt(&v[i]));
            i = i + 1;
        }
        assert(stmts_view(out@) =~= rw_stmts(stmts_view(v@), self@));
        out
    }
}

/// How `this.<x>` resolves, by what `x` names: an injected name becomes a plain
/// identifier; otherwise a declared prop becomes `props.<x>`, `$emit` becomes
/// `ctx.$emit`, any other `$`-name becomes `ctx.$root.<x without $>`, and any
/// other name (a data key, a computed value, a method) becomes `<x>.value`.
pub proof fn lemma_receiver_classification(x: Seq<char>, c: ReceiverView)
    ensures
        ({
            let r = rw_expr(member(ExprView::This, x), c);
            &&& c.injects.contains(x) ==> r == ident(x)
            &&& !c.injects.contains(x) && c.props.contains(x) ==> r == member(ident("props"@), x)
            &&& !c.injects.contains(x) && !c.props.contains(x) && x == "$emit"@ ==> r == member(
                ident("ctx"@),
                "$emit"@,
            )
            &&& !c.injects.contains(x) && !c.props.contains(x) && x != "$emit"@ && x.len() > 0
                && x[0] == '$' ==> r == member(member(ident("ctx"@), "$root"@), x.drop_first())
            &&& !c.injects.contains(x) && !c.props.contains(x) && !(x.len() > 0 && x[0] == '$')
                ==> r == member(ident(x), "value"@)
        }),
{
    reveal_strlit("$emit");
    assert(rw_expr(ExprView::This, c) == ExprView::This);
}

} // verus!
