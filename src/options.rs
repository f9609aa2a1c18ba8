//! The Options-API form of a component and the extractor that reads it from
//! the members of the exported object.
use vstd::prelude::*;
use crate::ast::{Expr, Function, Prop, PropName};
use crate::copy::{copy_expr, copy_function};
use crate::model::{opt_expr_view, props_view, ExprView, FunctionView, PropNameView, PropView};
use crate::text::{copy_string, is_word};
use crate::visitor::Visitor;

verus! {

/// A named function of the `computed` or `methods` section.
#[derive(Debug, PartialEq, Eq)]
pub struct MethodDecl {
    pub ident: String,
    pub function: Function,
}

/// A watcher: the watched name, its handler and its options.
#[derive(Debug, PartialEq, Eq)]
pub struct WatchDecl {
    pub ident: String,
    pub function: Function,
    pub deep: Option<Expr>,
    pub immediate: Option<Expr>,
}

#[derive(Debug, PartialEq, Eq)]
pub struct OptionsComponent {
    pub components: Option<Expr>,
    pub inject: Option<Expr>,
    pub props: Option<Expr>,
    pub data: Option<Function>,
    pub computed: Option<Vec<MethodDecl>>,
    pub watch: Option<Vec<WatchDecl>>,
    pub created: Option<Function>,
    pub mounted: Option<Function>,
    pub methods: Option<Vec<MethodDecl>>,
}

pub struct MethodView {
    pub ident: Seq<char>,
    pub function: FunctionView,
}

pub struct WatchView {
    pub ident: Seq<char>,
    pub function: FunctionView,
    pub deep: Option<ExprView>,
    pub immediate: Option<ExprView>,
}

pub struct OptionsView {
    pub components: Option<ExprView>,
    pub inject: Option<ExprView>,
    pub props: Option<ExprView>,
    pub data: Option<FunctionView>,
    pub computed: Option<Seq<MethodView>>,
    pub watch: Option<Seq<WatchView>>,
    pub created: Option<FunctionView>,
    pub mounted: Option<FunctionView>,
    pub methods: Option<Seq<MethodView>>,
}

impl View for MethodDecl {
    type V = MethodView;

    open spec fn view(&self) -> MethodView {
        MethodView { ident: self.ident@, function: self.function@ }
    }
}

impl View for WatchDecl {
    type V = WatchView;

    open spec fn view(&self) -> WatchView {
        WatchView {
            ident: self.ident@,
            function: self.function@,
            deep: opt_expr_view(self.deep),
            immediate: opt_expr_view(self.immediate),
        }
    }
}

pub open spec fn methods_view(s: Seq<MethodDecl>) -> Seq<MethodView> {
    s.map_values(|m: MethodDecl| m@)
}

pub open spec fn watches_view(s: Seq<WatchDecl>) -> Seq<WatchView> {
    s.map_values(|w: WatchDecl| w@)
}

pub open spec fn opt_function_view(o: Option<Function>) -> Option<FunctionView> {
    match o {
        Some(f) => Some(f@),
        None => None,
    }
}

impl View for OptionsComponent {
    type V = OptionsView;

    open spec fn view(&self) -> OptionsView {
        OptionsView {
            components: opt_expr_view(self.components),
            inject: opt_expr_view(self.inject),
            props: opt_expr_view(self.props),
            data: opt_function_view(self.data),
            computed: match self.computed {
                Some(v) => Some(methods_view(v@)),
                None => None,
            },
            watch: match self.watch {
                Some(v) => Some(watches_view(v@)),
                None => None,
            },
            created: opt_function_view(self.created),
            mounted: opt_function_view(self.mounted),
            methods: match self.methods {
                Some(v) => Some(methods_view(v@)),
                None => None,
            },
        }
    }
}

pub open spec fn empty_options() -> OptionsView {
    OptionsView {
        components: None,
        inject: None,
        props: None,
        data: None,
        computed: None,
        watch: None,
        created: None,
        mounted: None,
        methods: None,
    }
}

/// The method-shaped members with an identifier key, in order.
pub open spec fn method_decls(s: Seq<PropView>) -> Seq<MethodView>
    decreases s.len(),
{
    if s.len() == 0 {
        seq![]
    } else {
        let prev = method_decls(s.drop_last());
        match s.last() {
            PropView::Method { key: PropNameView::Ident(k), function } => prev.push(
                MethodView { ident: k, function },
            ),
            _ => prev,
        }
    }
}

/// The `handler` method and the `deep` and `immediate` values of a watcher's
/// configuration object; a later member overrides an earlier one.
pub open spec fn watch_config(s: Seq<PropView>) -> (
    Option<FunctionView>,
    Option<ExprView>,
    Option<ExprView>,
)
    decreases s.len(),
{
    if s.len() == 0 {
        (None, None, None)
    } else {
        let (h, d, i) = watch_config(s.drop_last());
        match s.last() {
            PropView::Method { key: PropNameView::Ident(k), function } => if k == "handler"@ {
                (Some(function), d, i)
            } else {
                (h, d, i)
            },
            PropView::KeyValue { key: PropNameView::Ident(k), value } => if k == "deep"@ {
                (h, Some(value), i)
            } else if k == "immediate"@ {
                (h, d, Some(value))
            } else {
                (h, d, i)
            },
            _ => (h, d, i),
        }
    }
}

/// The watcher a member of the `watch` object declares, if any: a method is a
/// plain handler, an object is kept only where it holds a handler.
pub open spec fn watch_of_member(p: PropView) -> Option<WatchView> {
    match p {
        PropView::Method { key: PropNameView::Ident(k), function } => Some(
            WatchView { ident: k, function, deep: None, immediate: None },
        ),
        PropView::KeyValue { key: PropNameView::Ident(k), value: ExprView::Object(sub) } => {
            let (h, d, i) = watch_config(sub);
            match h {
                Some(f) => Some(WatchView { ident: k, function: f, deep: d, immediate: i }),
                None => None,
            }
        },
        _ => None,
    }
}

pub open spec fn watch_decls(s: Seq<PropView>) -> Seq<WatchView>
    decreases s.len(),
{
    if s.len() == 0 {
        seq![]
    } else {
        let prev = watch_decls(s.drop_last());
        match watch_of_member(s.last()) {
            Some(w) => prev.push(w),
            None => prev,
        }
    }
}

/// The options after reading one member of the exported object. A list
/// section is set only where it holds at least one entry.
pub open spec fn apply_member(o: OptionsView, p: PropView) -> OptionsView {
    match p {
        PropView::Method { key: PropNameView::Ident(k), function } => if k == "data"@ {
            OptionsView { data: Some(function), ..o }
        } else if k == "created"@ {
            OptionsView { created: Some(function), ..o }
        } else if k == "mounted"@ {
            OptionsView { mounted: Some(function), ..o }
        } else {
            o
        },
        PropView::KeyValue { key: PropNameView::Ident(k), value } => if k == "components"@ {
            OptionsView { components: Some(value), ..o }
        } else if k == "inject"@ {
            OptionsView { inject: Some(value), ..o }
        } else if k == "props"@ {
            OptionsView { props: Some(value), ..o }
        } else if k == "computed"@ {
            match value {
                ExprView::Object(ps) => if method_decls(ps).len() > 0 {
                    OptionsView { computed: Some(method_decls(ps)), ..o }
                } else {
                    o
                },
                _ => o,
            }
        } else if k == "watch"@ {
            match value {
                ExprView::Object(ps) => if watch_decls(ps).len() > 0 {
                    OptionsView { watch: Some(watch_decls(ps)), ..o }
                } else {
                    o
                },
                _ => o,
            }
        } else if k == "methods"@ {
            match value {
                ExprView::Object(ps) => if method_decls(ps).len() > 0 {
                    OptionsView { methods: Some(method_decls(ps)), ..o }
                } else {
                    o
                },
                _ => o,
            }
        } else {
            o
        },
        _ => o,
    }
}

/// The options after reading the members `s` in order, starting from `o`.
pub open spec fn apply_members(o: OptionsView, s: Seq<PropView>) -> OptionsView
    decreases s.len(),
{
    if s.len() == 0 {
        o
    } else {
        apply_member(apply_members(o, s.drop_last()), s.last())
    }
}

impl Default for OptionsComponent {
    fn default() -> (r: OptionsComponent)
        ensures
            r@ == empty_options(),
    {
        OptionsComponent::new()
    }
}

impl OptionsComponent {
    pub fn new() -> (r: OptionsComponent)
        ensures
            r@ == empty_options(),
    {
        OptionsComponent {
            components: None,
            inject: None,
            props: None,
            data: None,
            computed: None,
            watch: None,
            created: None,
            mounted: None,
            methods: None,
        }
    }
}

fn method_decls_of(v: &Vec<Prop>) -> (r: Vec<MethodDecl>)
    ensures
        methods_view(r@) == method_decls(props_view(v@)),
{
    let mut out: Vec<MethodDecl> = Vec::new();
    let mut i: usize = 0;
    while i < v.len()
        invariant
            i <= v@.len(),
            methods_view(out@) == method_decls(props_view(v@).take(i as int)),
        decreases v@.len() - i,
    {
        proof {
            assert(props_view(v@).take(i + 1).drop_last() =~= props_view(v@).take(i as int));
        }
        match &v[i] {
            Prop::Method { key: PropName::Ident(k), function } => {
                out.push(MethodDecl { ident: copy_string(k), function: copy_function(function) });
                assert(methods_view(out@) =~= method_decls(props_view(v@).take(i + 1)));
            },
            _ => {},
        }
        i = i + 1;
    }
    assert(props_view(v@).take(v@.len() as int) =~= props_view(v@));
    out
}

fn watch_config_of(v: &Vec<Prop>) -> (r: (Option<Function>, Option<Expr>, Option<Expr>))
    ensures
        (opt_function_view(r.0), opt_expr_view(r.1), opt_expr_view(r.2)) == watch_config(
            props_view(v@),
        ),
{
    let mut handler: Option<Function> = None;
    let mut deep: Option<Expr> = None;
    let mut immediate: Option<Expr> = None;
    let mut i: usize = 0;
    while i < v.len()
        invariant
            i <= v@.len(),
            (opt_function_view(handler), opt_expr_view(deep), opt_expr_view(immediate))
                == watch_config(props_view(v@).take(i as int)),
        decreases v@.len() - i,
    {
        proof {
            assert(props_view(v@).take(i + 1).drop_last() =~= props_view(v@).take(i as int));
        }
        match &v[i] {
            Prop::Method { key: PropName::Ident(k), function } => {
                if is_word(k, "handler") {
                    handler = Some(copy_function(function));
                }
            },
            Prop::KeyValue { key: PropName::Ident(k), value } => {
                if is_word(k, "deep") {
                    deep = Some(copy_expr(value));
                } else if is_word(k, "immediate") {
                    immediate = Some(copy_expr(value));
                }
            },
            _ => {},
        }
        i = i + 1;
    }
    assert(props_view(v@).take(v@.len() as int) =~= props_view(v@));
    (handler, deep, immediate)
}

fn watch_of_member_exec(p: &Prop) -> (r: Option<WatchDecl>)
    ensures
        match r {
            Some(w) => watch_of_member(p@) == Some(w@),
            None => watch_of_member(p@) is None,
        },
{
    match p {
        Prop::Method { key: PropName::Ident(k), function } => Some(
            WatchDecl {
                ident: copy_string(k),
                function: copy_function(function),
                deep: None,
                immediate: None,
            },
        ),
        Prop::KeyValue { key: PropName::Ident(k), value: Expr::Object(sub) } => {
            let (h, deep, immediate) = watch_config_of(sub);
            match h {
                Some(function) => Some(WatchDecl { ident: copy_string(k), function, deep, immediate }),
                None => None,
            }
        },
        _ => None,
    }
}

fn watch_decls_of(v: &Vec<Prop>) -> (r: Vec<WatchDecl>)
    ensures
        watches_view(r@) == watch_decls(props_view(v@)),
{
    let mut out: Vec<WatchDecl> = Vec::new();
    let mut i: usize = 0;
    while i < v.len()
        invariant
            i <= v@.len(),
            watches_view(out@) == watch_decls(props_view(v@).take(i as int)),
        decreases v@.len() - i,
    {
        proof {
            assert(props_view(v@).take(i + 1).drop_last() =~= props_view(v@).take(i as int));
        }
        match watch_of_member_exec(&v[i]) {
            Some(w) => {
                out.push(w);
                assert(watches_view(out@) =~= watch_decls(props_view(v@).take(i + 1)));
            },
            None => {},
        }
        i = i + 1;
    }
    assert(props_view(v@).take(v@.len() as int) =~= props_view(v@));
    out
}

impl Visitor {
    /// Whether `other` holds the same analysis results and lowered sections as `self`.
    pub open spec fn same_analysis(self, other: Visitor) -> bool {
        &&& self.props_set == other.props_set
        &&& self.inject_set == other.inject_set
        &&& self.special_functions == other.special_functions
        &&& self.composition == other.composition
    }

    /// Reads the `computed` section.
    pub fn process_computed(&mut self, obj: &Vec<Prop>)
        ensures
            final(self).same_analysis(*old(self)),
            final(self).options@ == (if method_decls(props_view(obj@)).len() > 0 {
                OptionsView { computed: Some(method_decls(props_view(obj@))), ..old(self).options@ }
            } else {
                old(self).options@
            }),
    {
        let decls = method_decls_of(obj);
        if decls.len() > 0 {
            self.options.computed = Some(decls);
        }
    }

    /// Reads the `watch` section.
    pub fn process_watch(&mut self, obj: &Vec<Prop>)
        ensures
            final(self).same_analysis(*old(self)),
            final(self).options@ == (if watch_decls(props_view(obj@)).len() > 0 {
                OptionsView { watch: Some(watch_decls(props_view(obj@))), ..old(self).options@ }
            } else {
                old(self).options@
            }),
    {
        let decls = watch_decls_of(obj);
        if decls.len() > 0 {
            self.options.watch = Some(decls);
        }
    }

    /// Reads the `methods` section.
    pub fn process_methods(&mut self, obj: &Vec<Prop>)
        ensures
            final(self).same_analysis(*old(self)),
            final(self).options@ == (if method_decls(props_view(obj@)).len() > 0 {
                OptionsView { methods: Some(method_decls(props_view(obj@))), ..old(self).options@ }
            } else {
                old(self).options@
            }),
    {
        let decls = method_decls_of(obj);
        if decls.len() > 0 {
            self.options.methods = Some(decls);
        }
    }

    /// Reads a method member of the exported object.
    pub fn process_method_prop(&mut self, key: &PropName, function: &Function)
        ensures
            final(self).same_analysis(*old(self)),
            final(self).options@ == apply_member(
                old(self).options@,
                PropView::Method { key: key@, function: function@ },
            ),
    {
        match key {
            PropName::Ident(k) => {
                if is_word(k, "data") {
                    self.options.data = Some(copy_function(function));
                } else if is_word(k, "created") {
                    self.options.created = Some(copy_function(function));
                } else if is_word(k, "mounted") {
                    self.options.mounted = Some(copy_function(function));
                }
            },
            _ => {},
        }
    }

    /// Reads a key-value member of the exported object.
    pub fn process_key_value(&mut self, key: &PropName, value: &Expr)
        ensures
            final(self).same_analysis(*old(self)),
            final(self).options@ == apply_member(
                old(self).options@,
                PropView::KeyValue { key: key@, value: value@ },
            ),
    {
        match key {
            PropName::Ident(k) => {
                if is_word(k, "components") {
                    self.options.components = Some(copy_expr(value));
                } else if is_word(k, "inject") {
                    self.options.inject = Some(copy_expr(value));
                } else if is_word(k, "props") {
                    self.options.props = Some(copy_expr(value));
                } else if is_word(k, "computed") {
                    if let Expr::Object(obj) = value {
                        self.process_computed(obj);
                    }
                } else if is_word(k, "watch") {
                    if let Expr::Object(obj) = value {
                        self.process_watch(obj);
                    }
                } else if is_word(k, "methods") {
                    if let Expr::Object(obj) = value {
                        self.process_methods(obj);
                    }
                }
            },
            _ => {},
        }
    }

    /// Reads every member of the exported object, in order.
    pub fn process_default_export(&mut self, object: &Vec<Prop>)
        ensures
            final(self).same_analysis(*old(self)),
            final(self).options@ == apply_members(old(self).options@, props_view(object@)),
    {
        let ghost start = self.options@;
        let mut i: usize = 0;
        while i < object.len()
            invariant
                i <= object@.len(),
                self.same_analysis(*old(self)),
                start == old(self).options@,
                self.options@ == apply_members(start, props_view(object@).take(i as int)),
            decreases object@.len() - i,
        {
            proof {
                assert(props_view(object@).take(i + 1).drop_last() =~= props_view(object@).take(
                    i as int,
                ));
            }
            match &object[i] {
                Prop::Method { key, function } => self.process_method_prop(key, function),
                Prop::KeyValue { key, value } => self.process_key_value(key, value),
                _ => {},
            }
            i = i + 1;
        }
        assert(props_view(object@).take(object@.len() as int) =~= props_view(object@));
    }
}

} // verus!
