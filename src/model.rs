//! Mathematical models of the syntax tree: the same shapes, with names as
//! `Seq<char>` and children as `Seq`s. Contracts speak of these.
use vstd::prelude::*;
use crate::ast::{
    SwitchCase,
    ArrowBody, Expr, Function, Module, ModuleItem, Pat, Prop, PropName, Stmt, VarDeclarator,
    VarKind,
};

verus! {

pub enum PropNameView {
    Ident(Seq<char>),
    Str(Seq<char>),
    Other(u64),
}

pub enum PatView {
    Ident(Seq<char>),
    Other(u64),
}

pub struct FunctionView {
    pub params: Seq<PatView>,
    pub body: Option<Seq<StmtView>>,
    pub is_async: bool,
    pub is_generator: bool,
}

pub enum ArrowBodyView {
    Block(Seq<StmtView>),
    Expr(Box<ExprView>),
}

pub enum PropView {
    KeyValue { key: PropNameView, value: ExprView },
    Shorthand(Seq<char>),
    Method { key: PropNameView, function: FunctionView },
    Spread(ExprView),
    Other(u64),
}

pub enum ExprView {
    This,
    Ident(Seq<char>),
    Str(Seq<char>),
    Num(Seq<char>),
    Bool(bool),
    Null,
    Member { obj: Box<ExprView>, prop: Seq<char> },
    Index { obj: Box<ExprView>, index: Box<ExprView> },
    Call { callee: Box<ExprView>, args: Seq<ExprView> },
    New { callee: Box<ExprView>, args: Seq<ExprView> },
    Array(Seq<ExprView>),
    Object(Seq<PropView>),
    Arrow { params: Seq<PatView>, body: Box<ArrowBodyView>, is_async: bool, is_generator: bool },
    Fn(FunctionView),
    Unary { op: Seq<char>, arg: Box<ExprView> },
    Update { op: Seq<char>, prefix: bool, arg: Box<ExprView> },
    Binary { op: Seq<char>, left: Box<ExprView>, right: Box<ExprView> },
    Assign { op: Seq<char>, left: Box<ExprView>, right: Box<ExprView> },
    Cond { test: Box<ExprView>, cons: Box<ExprView>, alt: Box<ExprView> },
    Await(Box<ExprView>),
    Paren(Box<ExprView>),
    Spread(Box<ExprView>),
    Template { quasis: Seq<Seq<char>>, exprs: Seq<ExprView> },
    Sequence(Seq<ExprView>),
    Other(u64),
}

pub struct DeclView {
    pub name: PatView,
    pub init: Option<ExprView>,
}

pub enum StmtView {
    Expr(ExprView),
    Return(Option<ExprView>),
    Var { kind: VarKind, decls: Seq<DeclView> },
    FnDecl { ident: Seq<char>, function: FunctionView },
    ClassDecl { ident: Seq<char>, class: u64 },
    Block(Seq<StmtView>),
    If { test: ExprView, cons: Box<StmtView>, alt: Option<Box<StmtView>> },
    Throw(ExprView),
    While { test: ExprView, body: Box<StmtView> },
    DoWhile { body: Box<StmtView>, test: ExprView },
    For {
        init: Option<Box<StmtView>>,
        test: Option<ExprView>,
        update: Option<ExprView>,
        body: Box<StmtView>,
    },
    ForOf { kind: VarKind, name: PatView, right: ExprView, body: Box<StmtView> },
    ForIn { kind: VarKind, name: PatView, right: ExprView, body: Box<StmtView> },
    Try {
        block: Seq<StmtView>,
        param: Option<PatView>,
        handler: Option<Seq<StmtView>>,
        finalizer: Option<Seq<StmtView>>,
    },
    Switch { discriminant: ExprView, cases: Seq<CaseView> },
    Other(u64),
}

pub struct CaseView {
    pub test: Option<ExprView>,
    pub body: Seq<StmtView>,
}

pub enum ItemView {
    ExportDefault(ExprView),
    Stmt(StmtView),
    Other(u64),
}

impl View for PropName {
    type V = PropNameView;

    open spec fn view(&self) -> PropNameView {
        match self {
            PropName::Ident(s) => PropNameView::Ident(s@),
            PropName::Str(s) => PropNameView::Str(s@),
            PropName::Other(h) => PropNameView::Other(*h),
        }
    }
}

impl View for Pat {
    type V = PatView;

    open spec fn view(&self) -> PatView {
        match self {
            Pat::Ident(s) => PatView::Ident(s@),
            Pat::Other(h) => PatView::Other(*h),
        }
    }
}

pub open spec fn pats_view(s: Seq<Pat>) -> Seq<PatView> {
    s.map_values(|p: Pat| p@)
}

pub open spec fn strings_view(s: Seq<String>) -> Seq<Seq<char>> {
    s.map_values(|t: String| t@)
}

pub open spec fn expr_view(e: Expr) -> ExprView
    decreases e,
{
    match e {
        Expr::This => ExprView::This,
        Expr::Ident(s) => ExprView::Ident(s@),
        Expr::Str(s) => ExprView::Str(s@),
        Expr::Num(s) => ExprView::Num(s@),
        Expr::Bool(b) => ExprView::Bool(b),
        Expr::Null => ExprView::Null,
        Expr::Member { obj, prop } => ExprView::Member { obj: Box::new(expr_view(*obj)), prop: prop@ },
        Expr::Index { obj, index } => ExprView::Index {
            obj: Box::new(expr_view(*obj)),
            index: Box::new(expr_view(*index)),
        },
        Expr::Call { callee, args } => ExprView::Call {
            callee: Box::new(expr_view(*callee)),
            args: exprs_view(args@),
        },
        Expr::New { callee, args } => ExprView::New {
            callee: Box::new(expr_view(*callee)),
            args: exprs_view(args@),
        },
        Expr::Array(elems) => ExprView::Array(exprs_view(elems@)),
        Expr::Object(props) => ExprView::Object(props_view(props@)),
        Expr::Arrow { params, body, is_async, is_generator } => ExprView::Arrow {
            params: pats_view(params@),
            body: Box::new(arrow_body_view(*body)),
            is_async,
            is_generator,
        },
        Expr::Fn(f) => ExprView::Fn(function_view(f)),
        Expr::Unary { op, arg } => ExprView::Unary { op: op@, arg: Box::new(expr_view(*arg)) },
        Expr::Update { op, prefix, arg } => ExprView::Update {
            op: op@,
            prefix,
            arg: Box::new(expr_view(*arg)),
        },
        Expr::Binary { op, left, right } => ExprView::Binary {
            op: op@,
            left: Box::new(expr_view(*left)),
            right: Box::new(expr_view(*right)),
        },
        Expr::Assign { op, left, right } => ExprView::Assign {
            op: op@,
            left: Box::new(expr_view(*left)),
            right: Box::new(expr_view(*right)),
        },
        Expr::Cond { test, cons, alt } => ExprView::Cond {
            test: Box::new(expr_view(*test)),
            cons: Box::new(expr_view(*cons)),
            alt: Box::new(expr_view(*alt)),
        },
        Expr::Await(a) => ExprView::Await(Box::new(expr_view(*a))),
        Expr::Paren(a) => ExprView::Paren(Box::new(expr_view(*a))),
        Expr::Spread(a) => ExprView::Spread(Box::new(expr_view(*a))),
        Expr::Template { quasis, exprs } => ExprView::Template {
            quasis: strings_view(quasis@),
            exprs: exprs_view(exprs@),
        },
        Expr::Sequence(es) => ExprView::Sequence(exprs_view(es@)),
        Expr::Other(h) => ExprView::Other(h),
    }
}

pub open spec fn exprs_view(s: Seq<Expr>) -> Seq<ExprView>
    decreases s,
{
    Seq::new(s.len(), |i: int| if 0 <= i < s.len() { expr_view(s[i]) } else { ExprView::Null })
}

pub open spec fn opt_expr_view(o: Option<Expr>) -> Option<ExprView>
    decreases o,
{
    match o {
        Some(e) => Some(expr_view(e)),
        None => None,
    }
}

pub open spec fn prop_view(p: Prop) -> PropView
    decreases p,
{
    match p {
        Prop::KeyValue { key, value } => PropView::KeyValue { key: key@, value: expr_view(value) },
        Prop::Shorthand(s) => PropView::Shorthand(s@),
        Prop::Method { key, function } => PropView::Method {
            key: key@,
            function: function_view(function),
        },
        Prop::Spread(e) => PropView::Spread(expr_view(e)),
        Prop::Other(h) => PropView::Other(h),
    }
}

pub open spec fn props_view(s: Seq<Prop>) -> Seq<PropView>
    decreases s,
{
    Seq::new(s.len(), |i: int| if 0 <= i < s.len() { prop_view(s[i]) } else { PropView::Other(0) })
}

pub open spec fn function_view(f: Function) -> FunctionView
    decreases f,
{
    FunctionView {
        params: pats_view(f.params@),
        body: match f.body {
            Some(b) => Some(stmts_view(b@)),
            None => None,
        },
        is_async: f.is_async,
        is_generator: f.is_generator,
    }
}

pub open spec fn arrow_body_view(b: ArrowBody) -> ArrowBodyView
    decreases b,
{
    match b {
        ArrowBody::Block(s) => ArrowBodyView::Block(stmts_view(s@)),
        ArrowBody::Expr(e) => ArrowBodyView::Expr(Box::new(expr_view(*e))),
    }
}

pub open spec fn decl_view(d: VarDeclarator) -> DeclView
    decreases d,
{
    DeclView { name: d.name@, init: opt_expr_view(d.init) }
}

pub open spec fn decls_view(s: Seq<VarDeclarator>) -> Seq<DeclView>
    decreases s,
{
    Seq::new(
        s.len(),
        |i: int|
            if 0 <= i < s.len() {
                decl_view(s[i])
            } else {
                DeclView { name: PatView::Other(0), init: None }
            },
    )
}

pub open spec fn stmt_view(s: Stmt) -> StmtView
    decreases s,
{
    match s {
        Stmt::Expr(e) => StmtView::Expr(expr_view(e)),
        Stmt::Return(o) => StmtView::Return(opt_expr_view(o)),
        Stmt::Var { kind, decls } => StmtView::Var { kind, decls: decls_view(decls@) },
        Stmt::FnDecl { ident, function } => StmtView::FnDecl {
            ident: ident@,
            function: function_view(function),
        },
        Stmt::ClassDecl { ident, class } => StmtView::ClassDecl { ident: ident@, class },
        Stmt::Block(b) => StmtView::Block(stmts_view(b@)),
        Stmt::If { test, cons, alt } => StmtView::If {
            test: expr_view(test),
            cons: Box::new(stmt_view(*cons)),
            alt: match alt {
                Some(a) => Some(Box::new(stmt_view(*a))),
                None => None,
            },
        },
        Stmt::Throw(e) => StmtView::Throw(expr_view(e)),
        Stmt::While { test, body } => StmtView::While {
            test: expr_view(test),
            body: Box::new(stmt_view(*body)),
        },
        Stmt::DoWhile { body, test } => StmtView::DoWhile {
            body: Box::new(stmt_view(*body)),
            test: expr_view(test),
        },
        Stmt::For { init, test, update, body } => StmtView::For {
            init: match init {
                Some(i) => Some(Box::new(stmt_view(*i))),
                None => None,
            },
            test: opt_expr_view(test),
            update: opt_expr_view(update),
            body: Box::new(stmt_view(*body)),
        },
        Stmt::ForOf { kind, name, right, body } => StmtView::ForOf {
            kind,
            name: name@,
            right: expr_view(right),
            body: Box::new(stmt_view(*body)),
        },
        Stmt::ForIn { kind, name, right, body } => StmtView::ForIn {
            kind,
            name: name@,
            right: expr_view(right),
            body: Box::new(stmt_view(*body)),
        },
        Stmt::Try { block, param, handler, finalizer } => StmtView::Try {
            block: stmts_view(block@),
            param: match param {
                Some(p) => Some(p@),
                None => None,
            },
            handler: match handler {
                Some(h) => Some(stmts_view(h@)),
                None => None,
            },
            finalizer: match finalizer {
                Some(f) => Some(stmts_view(f@)),
                None => None,
            },
        },
        Stmt::Switch { discriminant, cases } => StmtView::Switch {
            discriminant: expr_view(discriminant),
            cases: cases_view(cases@),
        },
        Stmt::Other(h) => StmtView::Other(h),
    }
}

pub open spec fn case_view(c: SwitchCase) -> CaseView
    decreases c,
{
    CaseView { test: opt_expr_view(c.test), body: stmts_view(c.body@) }
}

pub open spec fn cases_view(s: Seq<SwitchCase>) -> Seq<CaseView>
    decreases s,
{
    Seq::new(
        s.len(),
        |i: int|
            if 0 <= i < s.len() {
                case_view(s[i])
            } else {
                CaseView { test: None, body: seq![] }
            },
    )
}

pub open spec fn stmts_view(s: Seq<Stmt>) -> Seq<StmtView>
    decreases s,
{
    Seq::new(s.len(), |i: int| if 0 <= i < s.len() { stmt_view(s[i]) } else { StmtView::Other(0) })
}

pub open spec fn item_view(i: ModuleItem) -> ItemView {
    match i {
        ModuleItem::ExportDefault(e) => ItemView::ExportDefault(expr_view(e)),
        ModuleItem::Stmt(s) => ItemView::Stmt(stmt_view(s)),
        ModuleItem::Other(h) => ItemView::Other(h),
    }
}

pub open spec fn items_view(s: Seq<ModuleItem>) -> Seq<ItemView> {
    s.map_values(|i: ModuleItem| item_view(i))
}

impl View for Expr {
    type V = ExprView;

    open spec fn view(&self) -> ExprView {
        expr_view(*self)
    }
}

impl View for Prop {
    type V = PropView;

    open spec fn view(&self) -> PropView {
        prop_view(*self)
    }
}

impl View for Stmt {
    type V = StmtView;

    open spec fn view(&self) -> StmtView {
        stmt_view(*self)
    }
}

impl View for Function {
    type V = FunctionView;

    open spec fn view(&self) -> FunctionView {
        function_view(*self)
    }
}

impl View for ArrowBody {
    type V = ArrowBodyView;

    open spec fn view(&self) -> ArrowBodyView {
        arrow_body_view(*self)
    }
}

impl View for VarDeclarator {
    type V = DeclView;

    open spec fn view(&self) -> DeclView {
        decl_view(*self)
    }
}

impl View for ModuleItem {
    type V = ItemView;

    open spec fn view(&self) -> ItemView {
        item_view(*self)
    }
}

impl View for Module {
    type V = Seq<ItemView>;

    open spec fn view(&self) -> Seq<ItemView> {
        items_view(self.body@)
    }
}

} // verus!
