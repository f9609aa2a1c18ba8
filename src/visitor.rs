//! The whole transform: analysis, rewriting, extraction, lowering and assembly
//! of one module.
use vstd::prelude::*;
use crate::analyze::{
    inject_names, inject_set, inject_set_from_object_lit, injects_view, prop_set,
    prop_set_from_object_lit, Inject, InjectView,
};
use crate::ast::{Expr, Module, ModuleItem, Prop, PropName};
use crate::model::{item_view, props_view, strings_view, ExprView, ItemView, PropNameView, PropView};
use crate::options::{apply_members, empty_options, OptionsComponent};
use crate::receiver::{rw_props, Receiver, ReceiverView};
use crate::text::{copy_string, is_word, word};
use crate::transform::{composition_of, CompositionComponent, TransformError};
use crate::write::{component_expr, write_composition_component};

verus! {

/// The state of one transform.
pub struct Visitor {
    pub options: OptionsComponent,
    pub composition: CompositionComponent,
    /// Declared props, where the `props` section has a recognised shape.
    pub props_set: Option<Vec<String>>,
    /// Injected bindings, in declaration order.
    pub inject_set: Vec<Inject>,
    /// Methods that stay member accesses on the context when called.
    pub special_functions: Vec<String>,
}

/// The declared props and the injected bindings.
pub struct AnalysisView {
    pub props: Option<Seq<Seq<char>>>,
    pub injects: Seq<InjectView>,
}

/// The analysis after reading one member of the exported object: the
/// `props` and `inject` members are read, a later one overriding an earlier.
pub open spec fn analyze_member(a: AnalysisView, p: PropView) -> AnalysisView {
    match p {
        PropView::KeyValue { key: PropNameView::Ident(k), value } => if k == "props"@ {
            AnalysisView { props: prop_set(value), ..a }
        } else if k == "inject"@ {
            AnalysisView { injects: inject_set(value), ..a }
        } else {
            a
        },
        _ => a,
    }
}

pub open spec fn analyze_members(a: AnalysisView, s: Seq<PropView>) -> AnalysisView
    decreases s.len(),
{
    if s.len() == 0 {
        a
    } else {
        analyze_member(analyze_members(a, s.drop_last()), s.last())
    }
}

pub open spec fn no_analysis() -> AnalysisView {
    AnalysisView { props: None, injects: seq![] }
}

/// How `this` resolves under an analysis: `$emit` is the one special function.
pub open spec fn receiver_of(a: AnalysisView) -> ReceiverView {
    ReceiverView {
        props: match a.props {
            Some(p) => p,
            None => seq![],
        },
        injects: inject_names(a.injects),
        special_functions: seq!["$emit"@],
    }
}

/// The `defineComponent(...)` expression for the members of an exported
/// object: analyse, rewrite the receiver, extract the sections, lower them and
/// assemble them.
pub open spec fn component_of(members: Seq<PropView>) -> Result<ExprView, TransformError> {
    let a = analyze_members(no_analysis(), members);
    let options = apply_members(empty_options(), rw_props(members, receiver_of(a)));
    match composition_of(options, a.injects) {
        Ok(c) => Ok(component_expr(c)),
        Err(e) => Err(e),
    }
}

pub open spec fn is_component_export(i: ItemView) -> bool {
    i matches ItemView::ExportDefault(ExprView::Object(_))
}

/// The index of the first `export default { ... }` of an object literal.
pub open spec fn component_export_index(items: Seq<ItemView>) -> Option<int>
    decreases items.len(),
{
    if items.len() == 0 {
        None
    } else {
        match component_export_index(items.drop_last()) {
            Some(i) => Some(i),
            None => if is_component_export(items.last()) {
                Some(items.len() - 1)
            } else {
                None
            },
        }
    }
}

/// The module with its exported component object replaced by the
/// Composition-API expression; a module without one is left as it is.
pub open spec fn transform_items(items: Seq<ItemView>) -> Result<Seq<ItemView>, TransformError> {
    match component_export_index(items) {
        None => Ok(items),
        Some(i) => match component_of(items[i]->ExportDefault_0->Object_0) {
            Ok(e) => Ok(items.update(i, ItemView::ExportDefault(e))),
            Err(err) => Err(err),
        },
    }
}

pub open spec fn opt_strings_view(o: Option<Vec<String>>) -> Option<Seq<Seq<char>>> {
    match o {
        Some(v) => Some(strings_view(v@)),
        None => None,
    }
}

impl Default for Visitor {
    fn default() -> (r: Visitor)
        ensures
            r.options@ == empty_options(),
            r.analysis() == no_analysis(),
            strings_view(r.special_functions@) == seq!["$emit"@],
    {
        Visitor::new()
    }
}

impl Visitor {
    pub open spec fn analysis(self) -> AnalysisView {
        AnalysisView {
            props: opt_strings_view(self.props_set),
            injects: injects_view(self.inject_set@),
        }
    }

    /// A visitor with nothing read yet and `$emit` as its one special function.
    pub fn new() -> (r: Visitor)
        ensures
            r.options@ == empty_options(),
            r.analysis() == no_analysis(),
            strings_view(r.special_functions@) == seq!["$emit"@],
    {
        let mut special_functions: Vec<String> = Vec::new();
        special_functions.push(word("$emit"));
        assert(strings_view(special_functions@) =~= seq!["$emit"@]);
        let inject_set: Vec<Inject> = Vec::new();
        assert(injects_view(inject_set@) =~= seq![]);
        Visitor {
            options: OptionsComponent::new(),
            composition: CompositionComponent::new(),
            props_set: None,
            inject_set,
            special_functions,
        }
    }

    /// Reads the declared props and the injected bindings of the exported object.
    pub fn preprocess_default_export(&mut self, object: &Vec<Prop>)
        ensures
            final(self).analysis() == analyze_members(old(self).analysis(), props_view(object@)),
            final(self).options == old(self).options,
            final(self).composition == old(self).composition,
            final(self).special_functions == old(self).special_functions,
    {
        let ghost start = self.analysis();
        let ghost pv = props_view(object@);
        let mut i: usize = 0;
        while i < object.len()
            invariant
                pv == props_view(object@),
                start == old(self).analysis(),
                i <= object@.len(),
                self.analysis() == analyze_members(start, pv.take(i as int)),
                self.options == old(self).options,
                self.composition == old(self).composition,
                self.special_functions == old(self).special_functions,
            decreases object@.len() - i,
        {
            proof {
                assert(pv.take(i + 1).drop_last() =~= pv.take(i as int));
            }
            match &object[i] {
                Prop::KeyValue { key: PropName::Ident(k), value } => {
                    if is_word(k, "props") {
                        self.props_set = prop_set_from_object_lit(value);
                    } else if is_word(k, "inject") {
                        self.inject_set = inject_set_from_object_lit(value);
                    }
                },
                _ => {},
            }
            i = i + 1;
        }
        assert(pv.take(object@.len() as int) =~= pv);
    }

    /// The receiver rewriter for what has been read.
    pub fn receiver(&self) -> (r: Receiver)
        ensures
            r@ == (ReceiverView {
                props: receiver_of(self.analysis()).props,
                injects: receiver_of(self.analysis()).injects,
                special_functions: strings_view(self.special_functions@),
            }),
    {
        let props = match &self.props_set {
            Some(p) => crate::copy::copy_strings(p),
            None => Vec::new(),
        };
        assert(strings_view(props@) =~= receiver_of(self.analysis()).props);
        let mut injects: Vec<String> = Vec::new();
        let mut i: usize = 0;
        while i < self.inject_set.len()
            invariant
                i <= self.inject_set@.len(),
                injects@.len() == i,
                forall|j: int|
                    0 <= j < i ==> (#[trigger] injects@[j])@ == self.inject_set@[j].name@,
            decreases self.inject_set@.len() - i,
        {
            injects.push(copy_string(&self.inject_set[i].name));
            i = i + 1;
        }
        assert(strings_view(injects@) =~= receiver_of(self.analysis()).injects);
        let special_functions = crate::copy::copy_strings(&self.special_functions);
        Receiver { props, injects, special_functions }
    }
}

fn component_export_index_of(module: &Module) -> (r: Option<usize>)
    ensures
        match r {
            Some(i) => {
                &&& component_export_index(module@) == Some(i as int)
                &&& i < module.body@.len()
                &&& module.body@[i as int] matches ModuleItem::ExportDefault(Expr::Object(_))
            },
            None => component_export_index(module@) is None,
        },
{
    let ghost iv = module@;
    let mut i: usize = 0;
    while i < module.body.len()
        invariant
            iv == module@,
            iv.len() == module.body@.len(),
            i <= module.body@.len(),
            component_export_index(iv.take(i as int)) is None,
        decreases module.body@.len() - i,
    {
        proof {
            assert(iv.take(i + 1).drop_last() =~= iv.take(i as int));
            assert(iv[i as int] == item_view(module.body@[i as int]));
        }
        match &module.body[i] {
            ModuleItem::ExportDefault(Expr::Object(_)) => {
                proof {
                    lemma_index_of_prefix(iv, i as int + 1);
                }
                return Some(i);
            },
            _ => {},
        }
        i = i + 1;
    }
    assert(iv.take(module.body@.len() as int) =~= iv);
    None
}

proof fn lemma_index_of_prefix(items: Seq<ItemView>, k: int)
    requires
        0 <= k <= items.len(),
        component_export_index(items.take(k)) is Some,
    ensures
        component_export_index(items) == component_export_index(items.take(k)),
    decreases items.len(),
{
    if items.len() > k {
        assert(items.drop_last().take(k) =~= items.take(k));
        lemma_index_of_prefix(items.drop_last(), k);
    } else {
        assert(items.take(k) =~= items);
    }
}

/// Converts the component that the module exports by default, if it exports
/// an object literal; leaves every other item as it is.
pub fn visit_module(module: Module) -> (r: Result<Module, TransformError>)
    ensures
        match r {
            Ok(m) => transform_items(module@) == Ok::<Seq<ItemView>, TransformError>(m@),
            Err(e) => transform_items(module@) == Err::<Seq<ItemView>, TransformError>(e),
        },
{
    let index = match component_export_index_of(&module) {
        None => {
            return Ok(module);
        },
        Some(i) => i,
    };
    let new_expr = match &module.body[index] {
        ModuleItem::ExportDefault(Expr::Object(members)) => {
            proof {
                assert(module@[index as int] == item_view(module.body@[index as int]));
            }
            match convert_component(members) {
                Ok(e) => e,
                Err(err) => {
                    return Err(err);
                },
            }
        },
        _ => {
            return Ok(module);
        },
    };
    let mut module = module;
    let ghost before = module@;
    module.body.set(index, ModuleItem::ExportDefault(new_expr));
    assert(module@ =~= before.update(index as int, ItemView::ExportDefault(new_expr@)));
    Ok(module)
}

/// The Composition-API expression for the members of an exported object.
pub fn convert_component(members: &Vec<Prop>) -> (r: Result<Expr, TransformError>)
    ensures
        match r {
            Ok(e) => component_of(props_view(members@)) == Ok::<ExprView, TransformError>(e@),
            Err(err) => component_of(props_view(members@)) == Err::<ExprView, TransformError>(err),
        },
{
    let mut visitor = Visitor::new();
    visitor.preprocess_default_export(members);
    let receiver = visitor.receiver();
    assert(receiver@ == receiver_of(visitor.analysis()));
    let rewritten = receiver.rewrite_props(members);
    visitor.process_default_export(&rewritten);
    match visitor.transform_component() {
        Ok(_) => Ok(write_composition_component(&visitor.composition)),
        Err(e) => Err(e),
    }
}

proof fn lemma_no_component_export(items: Seq<ItemView>)
    requires
        forall|i: int| 0 <= i < items.len() ==> !is_component_export(#[trigger] items[i]),
    ensures
        component_export_index(items) is None,
    decreases items.len(),
{
    if items.len() > 0 {
        lemma_no_component_export(items.drop_last());
    }
}

/// A module without a default export is returned unchanged.
pub proof fn lemma_no_default_export_unchanged(items: Seq<ItemView>)
    requires
        forall|i: int| 0 <= i < items.len() ==> !(#[trigger] items[i] is ExportDefault),
    ensures
        transform_items(items) == Ok::<Seq<ItemView>, TransformError>(items),
{
    lemma_no_component_export(items);
}

/// A module whose default export is already a call (such as
/// `defineComponent(...)`) rather than an object literal is returned unchanged.
pub proof fn lemma_converted_module_unchanged(items: Seq<ItemView>)
    requires
        forall|i: int|
            0 <= i < items.len() && #[trigger] items[i] is ExportDefault
                ==> items[i]->ExportDefault_0 is Call,
    ensures
        transform_items(items) == Ok::<Seq<ItemView>, TransformError>(items),
{
    lemma_no_component_export(items);
}

proof fn lemma_index_is_component(items: Seq<ItemView>)
    requires
        component_export_index(items) is Some,
    ensures
        0 <= component_export_index(items)->Some_0 < items.len(),
        is_component_export(items[component_export_index(items)->Some_0]),
    decreases items.len(),
{
    if component_export_index(items.drop_last()) is Some {
        lemma_index_is_component(items.drop_last());
    }
}

/// Converting is idempotent on a module with at most one default export: the
/// converted module is returned unchanged by a second run.
pub proof fn lemma_transform_idempotent(items: Seq<ItemView>)
    requires
        forall|i: int, j: int|
            0 <= i < items.len() && 0 <= j < items.len() && #[trigger] items[i] is ExportDefault
                && #[trigger] items[j] is ExportDefault ==> i == j,
        transform_items(items) is Ok,
    ensures
        transform_items(transform_items(items)->Ok_0) == transform_items(items),
{
    let out = transform_items(items)->Ok_0;
    match component_export_index(items) {
        None => {},
        Some(k) => {
            lemma_index_is_component(items);
            assert forall|i: int| 0 <= i < out.len() implies !is_component_export(
                #[trigger] out[i],
            ) by {
                if i != k && is_component_export(out[i]) {
                    assert(items[i] is ExportDefault);
                    assert(items[k] is ExportDefault);
                }
            }
            lemma_no_component_export(out);
        },
    }
}

} // verus!
