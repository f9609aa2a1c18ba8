//! The analyzer: the declared props and the injected names of a component,
//! read before anything is rewritten.
use vstd::prelude::*;
use crate::ast::{Expr, Prop, PropName};
use crate::copy::copy_expr;
use crate::model::{
    exprs_view, opt_expr_view, props_view, strings_view, ExprView, PropNameView, PropView,
};
use crate::text::{copy_string, is_word};

verus! {

/// An injected binding: its name, the key it is provided under, and its default.
#[derive(Debug, PartialEq, Eq)]
pub struct Inject {
    pub name: String,
    pub from: Expr,
    pub default: Option<Expr>,
}

pub struct InjectView {
    pub name: Seq<char>,
    pub from: ExprView,
    pub default: Option<ExprView>,
}

impl View for Inject {
    type V = InjectView;

    open spec fn view(&self) -> InjectView {
        InjectView {
            name: self.name@,
            from: self.from@,
            default: match self.default {
                Some(d) => Some(d@),
                None => None,
            },
        }
    }
}

pub open spec fn injects_view(s: Seq<Inject>) -> Seq<InjectView> {
    s.map_values(|i: Inject| i@)
}

pub open spec fn inject_names(s: Seq<InjectView>) -> Seq<Seq<char>> {
    s.map_values(|i: InjectView| i.name)
}

/// The string literals among the elements, in order.
pub open spec fn string_elements(s: Seq<ExprView>) -> Seq<Seq<char>>
    decreases s.len(),
{
    if s.len() == 0 {
        seq![]
    } else {
        let prev = string_elements(s.drop_last());
        match s.last() {
            ExprView::Str(v) => prev.push(v),
            _ => prev,
        }
    }
}

/// The names of the key-value members with an identifier or string key, in order.
pub open spec fn key_value_names(s: Seq<PropView>) -> Seq<Seq<char>>
    decreases s.len(),
{
    if s.len() == 0 {
        seq![]
    } else {
        let prev = key_value_names(s.drop_last());
        match s.last() {
            PropView::KeyValue { key: PropNameView::Ident(k), .. } => prev.push(k),
            PropView::KeyValue { key: PropNameView::Str(k), .. } => prev.push(k),
            _ => prev,
        }
    }
}

/// The declared props: the strings of an array, or the keys of an object;
/// none for any other shape.
pub open spec fn prop_set(e: ExprView) -> Option<Seq<Seq<char>>> {
    match e {
        ExprView::Array(elems) => Some(string_elements(elems)),
        ExprView::Object(props) => Some(key_value_names(props)),
        _ => None,
    }
}

/// The `from` and `default` given in an inject's configuration object; a later
/// member overrides an earlier one.
pub open spec fn inject_config(s: Seq<PropView>) -> (Option<ExprView>, Option<ExprView>)
    decreases s.len(),
{
    if s.len() == 0 {
        (None, None)
    } else {
        let (f, d) = inject_config(s.drop_last());
        match s.last() {
            PropView::KeyValue { key: PropNameView::Ident(k), value } => if k == "from"@ {
                (Some(value), d)
            } else if k == "default"@ {
                (f, Some(value))
            } else {
                (f, d)
            },
            PropView::Shorthand(k) => if k == "from"@ {
                (Some(ExprView::Ident(k)), d)
            } else if k == "default"@ {
                (f, Some(ExprView::Ident(k)))
            } else {
                (f, d)
            },
            _ => (f, d),
        }
    }
}

/// The inject entry an object member declares, if any.
pub open spec fn inject_of_member(p: PropView) -> Option<InjectView> {
    match p {
        PropView::KeyValue { key: PropNameView::Ident(name), value } => match value {
            ExprView::Object(sub) => {
                let (f, d) = inject_config(sub);
                if f is Some || d is Some {
                    Some(
                        InjectView {
                            name,
                            from: match f {
                                Some(x) => x,
                                None => ExprView::Str(name),
                            },
                            default: d,
                        },
                    )
                } else {
                    None
                }
            },
            _ => Some(InjectView { name, from: value, default: None }),
        },
        _ => None,
    }
}

pub open spec fn injects_of_members(s: Seq<PropView>) -> Seq<InjectView>
    decreases s.len(),
{
    if s.len() == 0 {
        seq![]
    } else {
        let prev = injects_of_members(s.drop_last());
        match inject_of_member(s.last()) {
            Some(i) => prev.push(i),
            None => prev,
        }
    }
}

pub open spec fn injects_of_strings(s: Seq<Seq<char>>) -> Seq<InjectView> {
    s.map_values(|v: Seq<char>| InjectView { name: v, from: ExprView::Str(v), default: None })
}

/// The entries whose name is not declared again later, in order: a name
/// declared twice keeps its last declaration.
pub open spec fn distinct_injects(s: Seq<InjectView>) -> Seq<InjectView>
    decreases s.len(),
{
    if s.len() == 0 {
        seq![]
    } else if inject_names(s.skip(1)).contains(s[0].name) {
        distinct_injects(s.skip(1))
    } else {
        seq![s[0]] + distinct_injects(s.skip(1))
    }
}

/// The injected bindings, in declaration order: each string of an array, or
/// each member of an object; none for any other shape. Each name is bound once.
pub open spec fn inject_set(e: ExprView) -> Seq<InjectView> {
    distinct_injects(
        match e {
            ExprView::Array(elems) => injects_of_strings(string_elements(elems)),
            ExprView::Object(props) => injects_of_members(props),
            _ => seq![],
        },
    )
}

fn string_elements_of(v: &Vec<Expr>) -> (r: Vec<String>)
    ensures
        strings_view(r@) == string_elements(exprs_view(v@)),
{
    let mut out: Vec<String> = Vec::new();
    let mut i: usize = 0;
    while i < v.len()
        invariant
            i <= v@.len(),
            strings_view(out@) == string_elements(exprs_view(v@).take(i as int)),
        decreases v@.len() - i,
    {
        proof {
            assert(exprs_view(v@).take(i + 1).drop_last() =~= exprs_view(v@).take(i as int));
        }
        match &v[i] {
            Expr::Str(s) => {
                out.push(copy_string(s));
                assert(strings_view(out@) =~= string_elements(exprs_view(v@).take(i + 1)));
            },
            _ => {},
        }
        i = i + 1;
    }
    assert(exprs_view(v@).take(v@.len() as int) =~= exprs_view(v@));
    out
}

fn key_value_names_of(v: &Vec<Prop>) -> (r: Vec<String>)
    ensures
        strings_view(r@) == key_value_names(props_view(v@)),
{
    let mut out: Vec<String> = Vec::new();
    let mut i: usize = 0;
    while i < v.len()
        invariant
            i <= v@.len(),
            strings_view(out@) == key_value_names(props_view(v@).take(i as int)),
        decreases v@.len() - i,
    {
        proof {
            assert(props_view(v@).take(i + 1).drop_last() =~= props_view(v@).take(i as int));
        }
        match &v[i] {
            Prop::KeyValue { key: PropName::Ident(k), .. } => {
                out.push(copy_string(k));
                assert(strings_view(out@) =~= key_value_names(props_view(v@).take(i + 1)));
            },
            Prop::KeyValue { key: PropName::Str(k), .. } => {
                out.push(copy_string(k));
                assert(strings_view(out@) =~= key_value_names(props_view(v@).take(i + 1)));
            },
            _ => {},
        }
        i = i + 1;
    }
    assert(props_view(v@).take(v@.len() as int) =~= props_view(v@));
    out
}

/// The declared props of a `props` value.
pub fn prop_set_from_object_lit(expr: &Expr) -> (r: Option<Vec<String>>)
    ensures
        match r {
            Some(v) => prop_set(expr@) == Some(strings_view(v@)),
            None => prop_set(expr@) is None,
        },
{
    match expr {
        Expr::Array(elems) => Some(string_elements_of(elems)),
        Expr::Object(props) => Some(key_value_names_of(props)),
        _ => None,
    }
}

fn inject_config_of(v: &Vec<Prop>) -> (r: (Option<Expr>, Option<Expr>))
    ensures
        (opt_expr_view(r.0), opt_expr_view(r.1)) == inject_config(props_view(v@)),
{
    let mut from: Option<Expr> = None;
    let mut default: Option<Expr> = None;
    let mut i: usize = 0;
    while i < v.len()
        invariant
            i <= v@.len(),
            (opt_expr_view(from), opt_expr_view(default)) == inject_config(
                props_view(v@).take(i as int),
            ),
        decreases v@.len() - i,
    {
        proof {
            assert(props_view(v@).take(i + 1).drop_last() =~= props_view(v@).take(i as int));
        }
        match &v[i] {
            Prop::KeyValue { key: PropName::Ident(k), value } => {
                if is_word(k, "from") {
                    from = Some(copy_expr(value));
                } else if is_word(k, "default") {
                    default = Some(copy_expr(value));
                }
            },
            Prop::Shorthand(k) => {
                if is_word(k, "from") {
                    let e = Expr::Ident(copy_string(k));
                    assert(e@ == ExprView::Ident(k@));
                    from = Some(e);
                } else if is_word(k, "default") {
                    let e = Expr::Ident(copy_string(k));
                    assert(e@ == ExprView::Ident(k@));
                    default = Some(e);
                }
            },
            _ => {},
        }
        i = i + 1;
    }
    assert(props_view(v@).take(v@.len() as int) =~= props_view(v@));
    (from, default)
}

fn inject_of_member_exec(p: &Prop) -> (r: Option<Inject>)
    ensures
        match r {
            Some(i) => inject_of_member(p@) == Some(i@),
            None => inject_of_member(p@) is None,
        },
{
    match p {
        Prop::KeyValue { key: PropName::Ident(name), value } => match value {
            Expr::Object(sub) => {
                let (f, d) = inject_config_of(sub);
                if f.is_some() || d.is_some() {
                    let from = match f {
                        Some(x) => x,
                        None => {
                            let e = Expr::Str(copy_string(name));
                            assert(e@ == ExprView::Str(name@));
                            e
                        },
                    };
                    Some(Inject { name: copy_string(name), from, default: d })
                } else {
                    None
                }
            },
            _ => Some(Inject { name: copy_string(name), from: copy_expr(value), default: None }),
        },
        _ => None,
    }
}

fn declared_later(v: &Vec<Inject>, i: usize) -> (r: bool)
    requires
        i < v@.len(),
    ensures
        r == inject_names(injects_view(v@).skip(i + 1)).contains(v@[i as int].name@),
{
    let ghost later = inject_names(injects_view(v@).skip(i + 1));
    let n = v.len();
    let mut j: usize = i + 1;
    while j < n
        invariant
            n == v@.len(),
            i < j <= v@.len(),
            later == inject_names(injects_view(v@).skip(i + 1)),
            later.len() == v@.len() - i - 1,
            forall|k: int| 0 <= k < j - i - 1 ==> later[k] != v@[i as int].name@,
        decreases v@.len() - j,
    {
        assert(later[j - i - 1] == v@[j as int].name@);
        if v[j].name == v[i].name {
            return true;
        }
        j = j + 1;
    }
    assert(!later.contains(v@[i as int].name@)) by {
        if later.contains(v@[i as int].name@) {
            let k = choose|k: int| 0 <= k < later.len() && later[k] == v@[i as int].name@;
            assert(later[k] != v@[i as int].name@);
        }
    }
    false
}

/// Drops each entry whose name is declared again later.
fn keep_distinct(v: Vec<Inject>) -> (r: Vec<Inject>)
    ensures
        injects_view(r@) == distinct_injects(injects_view(v@)),
{
    let ghost iv = injects_view(v@);
    let mut keep: Vec<bool> = Vec::new();
    let mut k: usize = 0;
    while k < v.len()
        invariant
            iv == injects_view(v@),
            k <= v@.len(),
            keep@.len() == k,
            forall|m: int|
                0 <= m < k ==> keep@[m] == !inject_names(iv.skip(m + 1)).contains(iv[m].name),
        decreases v@.len() - k,
    {
        keep.push(!declared_later(&v, k));
        k = k + 1;
    }
    let mut out: Vec<Inject> = Vec::new();
    let mut rest = v;
    let mut i: usize = rest.len();
    assert(injects_view(rest@) =~= iv.take(i as int));
    assert(iv.skip(i as int) =~= seq![]);
    assert(injects_view(out@) =~= seq![]);
    while i > 0
        invariant
            rest@.len() == i,
            i <= iv.len(),
            injects_view(rest@) == iv.take(i as int),
            keep@.len() == iv.len(),
            forall|m: int|
                0 <= m < iv.len() ==> keep@[m] == !inject_names(iv.skip(m + 1)).contains(
                    iv[m].name,
                ),
            injects_view(out@) == distinct_injects(iv.skip(i as int)),
        decreases i,
    {
        let ghost before = rest@;
        let item = rest.pop().unwrap();
        i = i - 1;
        proof {
            assert(item == before[i as int]);
            assert(injects_view(before)[i as int] == iv.take(i + 1)[i as int]);
            assert(item@ == iv[i as int]);
            assert(injects_view(rest@) =~= iv.take(i as int));
            assert(iv.skip(i as int).skip(1) =~= iv.skip(i + 1));
            assert(iv.skip(i as int)[0] == iv[i as int]);
            assert(iv.skip(i as int).len() > 0);
        }
        let ghost old_out = injects_view(out@);
        if keep[i] {
            out.insert(0, item);
            assert(injects_view(out@) =~= seq![iv[i as int]] + old_out);
        }
    }
    out
}

/// The injected bindings of an `inject` value, in declaration order, each
/// name once.
pub fn inject_set_from_object_lit(expr: &Expr) -> (r: Vec<Inject>)
    ensures
        injects_view(r@) == inject_set(expr@),
{
    let mut out: Vec<Inject> = Vec::new();
    match expr {
        Expr::Array(elems) => {
            let names = string_elements_of(elems);
            let mut i: usize = 0;
            while i < names.len()
                invariant
                    i <= names@.len(),
                    out@.len() == i,
                    forall|j: int|
                        0 <= j < i ==> (#[trigger] out@[j])@ == (InjectView {
                            name: names@[j]@,
                            from: ExprView::Str(names@[j]@),
                            default: None,
                        }),
                decreases names@.len() - i,
            {
                let from = Expr::Str(copy_string(&names[i]));
                assert(from@ == ExprView::Str(names@[i as int]@));
                let inj = Inject { name: copy_string(&names[i]), from, default: None };
                assert(inj@ == InjectView {
                    name: names@[i as int]@,
                    from: ExprView::Str(names@[i as int]@),
                    default: None,
                });
                out.push(inj);
                i = i + 1;
            }
            assert(injects_view(out@) =~= injects_of_strings(strings_view(names@)));
        },
        Expr::Object(props) => {
            let mut i: usize = 0;
            while i < props.len()
                invariant
                    i <= props@.len(),
                    injects_view(out@) == injects_of_members(props_view(props@).take(i as int)),
                decreases props@.len() - i,
            {
                proof {
                    assert(props_view(props@).take(i + 1).drop_last() =~= props_view(props@).take(
                        i as int,
                    ));
                }
                match inject_of_member_exec(&props[i]) {
                    Some(inj) => {
                        out.push(inj);
                        assert(injects_view(out@) =~= injects_of_members(
                            props_view(props@).take(i + 1),
                        ));
                    },
                    None => {},
                }
                i = i + 1;
            }
            assert(props_view(props@).take(props@.len() as int) =~= props_view(props@));
        },
        _ => {
            assert(injects_view(out@) =~= seq![]);
        },
    }
    keep_distinct(out)
}

} // verus!
