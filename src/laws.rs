use vstd::prelude::*;
use crate::pattern::{
    ObjectPatProp, Pat, VarDeclarator, array_elems_wf, is_rest_elem, object_props_wf,
};
use crate::ts_type::{PropertyModel, TypeModel};
use crate::variable::{
    alias_type, array_elem_entries, array_entries, declarator_entries,
    effective_top_type, first_property_type, first_site_type, object_entries,
    object_prop_entries, opt_model, pat_type_ann, property_type, site_annotation, site_type,
};

verus! {

proof fn lemma_object_step(props: Seq<ObjectPatProp>, top: Option<TypeModel>, i: int)
    requires
        0 <= i < props.len(),
    ensures
        object_entries(props.take(i + 1), top) == object_entries(props.take(i), top)
            + object_prop_entries(props[i], top),
{
    assert(props.take(i + 1).drop_last() =~= props.take(i));
}

proof fn lemma_array_step(elems: Seq<Option<Pat>>, top: Option<TypeModel>, i: int)
    requires
        0 <= i < elems.len(),
    ensures
        array_entries(elems.take(i + 1), top) == array_entries(elems.take(i), top)
            + array_elem_entries(elems[i], i, top),
{
    assert(elems.take(i + 1).drop_last() =~= elems.take(i));
}

/// The entries of the first `n` properties of an object pattern are the first entries of
/// the whole pattern, in the same order.
pub proof fn object_entries_follow_source_order(
    props: Seq<ObjectPatProp>,
    top: Option<TypeModel>,
    n: int,
)
    requires
        0 <= n <= props.len(),
    ensures
        object_entries(props.take(n), top).is_prefix_of(object_entries(props, top)),
    decreases props.len(),
{
    if n == props.len() {
        assert(props.take(n) =~= props);
    } else {
        object_entries_follow_source_order(props.drop_last(), top, n);
        assert(props.drop_last().take(n) =~= props.take(n));
    }
}

/// The entries of the first `n` elements of an array pattern are the first entries of
/// the whole pattern, in the same order.
pub proof fn array_entries_follow_source_order(
    elems: Seq<Option<Pat>>,
    top: Option<TypeModel>,
    n: int,
)
    requires
        0 <= n <= elems.len(),
    ensures
        array_entries(elems.take(n), top).is_prefix_of(array_entries(elems, top)),
    decreases elems.len(),
{
    if n == elems.len() {
        assert(elems.take(n) =~= elems);
    } else {
        array_entries_follow_source_order(elems.drop_last(), top, n);
        assert(elems.drop_last().take(n) =~= elems.take(n));
    }
}

proof fn lemma_object_position(props: Seq<ObjectPatProp>, top: Option<TypeModel>, i: int)
    requires
        0 <= i < props.len(),
    ensures
        ({
            let k = object_entries(props.take(i), top).len() as int;
            let m = object_prop_entries(props[i], top).len() as int;
            k + m <= object_entries(props, top).len() && object_entries(props, top).subrange(
                k,
                k + m,
            ) == object_prop_entries(props[i], top)
        }),
{
    lemma_object_step(props, top, i);
    object_entries_follow_source_order(props, top, i + 1);
    let k = object_entries(props.take(i), top).len() as int;
    let m = object_prop_entries(props[i], top).len() as int;
    let whole = object_entries(props, top);
    let pre = object_entries(props.take(i + 1), top);
    assert(pre =~= whole.subrange(0, pre.len() as int));
    assert(pre.len() == k + m);
    assert(k + m <= whole.len());
    assert forall|x: int| 0 <= x < m implies #[trigger] whole.subrange(k, k + m)[x] == object_prop_entries(props[i], top)[x] by {
        assert(whole.subrange(k, k + m)[x] == whole[k + x]);
        assert(whole[k + x] == pre[k + x]);
        assert(pre[k + x] == (object_entries(props.take(i), top) + object_prop_entries(props[i], top))[k + x]);
    }
    assert(whole.subrange(k, k + m) =~= object_prop_entries(props[i], top));
}

proof fn lemma_array_position(elems: Seq<Option<Pat>>, top: Option<TypeModel>, i: int)
    requires
        0 <= i < elems.len(),
    ensures
        ({
            let k = array_entries(elems.take(i), top).len() as int;
            let m = array_elem_entries(elems[i], i, top).len() as int;
            k + m <= array_entries(elems, top).len() && array_entries(elems, top).subrange(
                k,
                k + m,
            ) == array_elem_entries(elems[i], i, top)
        }),
{
    lemma_array_step(elems, top, i);
    array_entries_follow_source_order(elems, top, i + 1);
    let k = array_entries(elems.take(i), top).len() as int;
    let m = array_elem_entries(elems[i], i, top).len() as int;
    let whole = array_entries(elems, top);
    let pre = array_entries(elems.take(i + 1), top);
    assert(pre =~= whole.subrange(0, pre.len() as int));
    assert(pre.len() == k + m);
    assert(k + m <= whole.len());
    assert forall|x: int| 0 <= x < m implies #[trigger] whole.subrange(k, k + m)[x] == array_elem_entries(elems[i], i, top)[x] by {
        assert(whole.subrange(k, k + m)[x] == whole[k + x]);
        assert(whole[k + x] == pre[k + x]);
        assert(pre[k + x] == (array_entries(elems.take(i), top) + array_elem_entries(elems[i], i, top))[k + x]);
    }
    assert(whole.subrange(k, k + m) =~= array_elem_entries(elems[i], i, top));
}

proof fn lemma_object_count(props: Seq<ObjectPatProp>, top: Option<TypeModel>, n: int)
    requires
        0 <= n <= props.len(),
        forall|j: int| 0 <= j < n ==> !(#[trigger] props[j] is Rest),
    ensures
        object_entries(props.take(n), top).len() == n,
    decreases n,
{
    if n == 0 {
        assert(props.take(0) =~= Seq::<ObjectPatProp>::empty());
    } else {
        lemma_object_count(props, top, n - 1);
        lemma_object_step(props, top, n - 1);
    }
}

proof fn lemma_object_index(props: Seq<ObjectPatProp>, top: Option<TypeModel>, i: int)
    requires
        object_props_wf(props),
        0 <= i < props.len(),
        !(props[i] is Rest),
    ensures
        i < object_entries(props, top).len(),
        object_entries(props, top)[i] == object_prop_entries(props[i], top)[0],
{
    lemma_object_count(props, top, i);
    lemma_object_position(props, top, i);
    assert(object_entries(props, top).subrange(i, i + 1)[0] == object_entries(props, top)[i]);
}

/// A rest property that binds a name is the last property, and its entry is the last
/// entry of the pattern.
pub proof fn object_rest_entry_is_last(props: Seq<ObjectPatProp>, top: Option<TypeModel>, i: int)
    requires
        object_props_wf(props),
        0 <= i < props.len(),
        props[i] matches ObjectPatProp::Rest(r) && *r.arg is Ident,
    ensures
        i == props.len() - 1,
        object_entries(props, top).len() > 0,
        object_entries(props, top).last() == object_prop_entries(props[i], top)[0],
{
    assert(props.drop_last().push(props.last()) =~= props);
}

/// A rest element that binds a name is the last element, and its entry is the last
/// entry of the pattern.
pub proof fn array_rest_entry_is_last(elems: Seq<Option<Pat>>, top: Option<TypeModel>, i: int)
    requires
        array_elems_wf(elems),
        0 <= i < elems.len(),
        elems[i] matches Some(Pat::Rest(r)) && *r.arg is Ident,
    ensures
        i == elems.len() - 1,
        array_entries(elems, top).len() > 0,
        array_entries(elems, top).last() == array_elem_entries(elems[i], i, top)[0],
{
    assert(is_rest_elem(elems[i]));
}

/// An annotation on the pattern itself is the declarator's type, whatever the initializer.
pub proof fn own_annotation_takes_precedence(d: VarDeclarator)
    requires
        pat_type_ann(d.name) is Some,
    ensures
        effective_top_type(d) == pat_type_ann(d.name),
{
}

/// `x = y`, with `x` unannotated and `y` declared first with an annotation `T`, gives `x`
/// the type `T`.
pub proof fn alias_inherits_annotation(d: VarDeclarator)
    requires
        d.name matches Pat::Ident(id) && id.type_ann is None,
        d.init matches Some(crate::pattern::Expr::Ident(r)) && r.decls@.len() > 0
            && site_annotation(r.decls@[0]) is Some,
    ensures
        declarator_entries(d).len() == 1,
        declarator_entries(d)[0] == (
            d.name->Ident_0.sym@,
            opt_model(site_annotation(d.init->Some_0->Ident_0.decls@[0])),
        ),
{
    let sites = d.init->Some_0->Ident_0.decls@;
    assert(site_type(sites[0]) == site_annotation(sites[0]));
    assert(first_site_type(sites) == site_annotation(sites[0]));
    assert(alias_type(d.init) == site_annotation(sites[0]));
}

proof fn lemma_first_property(props: Seq<PropertyModel>, name: Seq<char>, j: int)
    requires
        0 <= j < props.len(),
        props[j].name == name,
        forall|k: int| 0 <= k < j ==> (#[trigger] props[k]).name != name,
    ensures
        first_property_type(props, name) == props[j].ts_type,
    decreases j,
{
    if j > 0 {
        lemma_first_property(props.drop_first(), name, j - 1);
    }
}

/// Under a type-literal top type, the shorthand property at position `i` takes the type of
/// the first literal property of its name.
pub proof fn shorthand_takes_literal_property_type(
    props: Seq<ObjectPatProp>,
    lits: Seq<PropertyModel>,
    i: int,
    j: int,
)
    requires
        object_props_wf(props),
        0 <= i < props.len(),
        props[i] is Assign,
        0 <= j < lits.len(),
        lits[j].name == props[i]->Assign_0.key@,
        forall|k: int| 0 <= k < j ==> (#[trigger] lits[k]).name != props[i]->Assign_0.key@,
    ensures
        object_entries(props, Some(TypeModel::TypeLiteral(lits)))[i] == (
            props[i]->Assign_0.key@,
            lits[j].ts_type,
        ),
{
    lemma_object_index(props, Some(TypeModel::TypeLiteral(lits)), i);
    lemma_first_property(lits, props[i]->Assign_0.key@, j);
}

/// Under an array top type `E[]`, every entry but a rest element's has type `E`, and an
/// unannotated rest element has type `E[]`.
pub proof fn array_type_projection(elems: Seq<Option<Pat>>, e: TypeModel)
    requires
        array_elems_wf(elems),
    ensures
        ({
            let top = Some(TypeModel::Array(Box::new(e)));
            let out = array_entries(elems, top);
            &&& forall|k: int|
                0 <= k < out.len() ==> (#[trigger] out[k]).1 == Some(e) || (k == out.len() - 1
                    && is_rest_elem(elems.last()))
            &&& (elems.len() > 0 && (elems.last() matches Some(Pat::Rest(r)) && *r.arg is Ident
                && r.type_ann is None)) ==> out.last().1 == top
        }),
    decreases elems.len(),
{
    let top = Some(TypeModel::Array(Box::new(e)));
    if elems.len() > 0 {
        let init = elems.drop_last();
        assert(array_elems_wf(init));
        array_type_projection(init, e);
        let out = array_entries(elems, top);
        let head = array_entries(init, top);
        assert forall|k: int| 0 <= k < out.len() implies (#[trigger] out[k]).1 == Some(e) || (k
            == out.len() - 1 && is_rest_elem(elems.last())) by {
            if k < head.len() {
                assert(out[k] == head[k]);
                if k == head.len() - 1 && is_rest_elem(init.last()) {
                    assert(is_rest_elem(elems[elems.len() - 2]));
                }
            }
        }
    }
}

/// Under a tuple top type, the identifier at position `i` takes the tuple's type at `i`,
/// and no type where the tuple is shorter; holes before it take no entry.
pub proof fn tuple_slot_projection(elems: Seq<Option<Pat>>, ts: Seq<TypeModel>, i: int)
    requires
        0 <= i < elems.len(),
        elems[i] matches Some(Pat::Ident(_)),
    ensures
        ({
            let top = Some(TypeModel::Tuple(ts));
            let k = array_entries(elems.take(i), top).len() as int;
            &&& k < array_entries(elems, top).len()
            &&& array_entries(elems, top)[k] == (
                elems[i]->Some_0->Ident_0.sym@,
                if i < ts.len() {
                    Some(ts[i])
                } else {
                    None
                },
            )
        }),
{
    let top = Some(TypeModel::Tuple(ts));
    lemma_array_position(elems, top, i);
    let k = array_entries(elems.take(i), top).len() as int;
    assert(array_entries(elems, top).subrange(k, k + 1)[0] == array_entries(elems, top)[k]);
}

/// `{ a: b }` emits under the name `b` and takes the type the top type has under `a`.
pub proof fn key_value_emits_under_value_name(
    props: Seq<ObjectPatProp>,
    top: Option<TypeModel>,
    i: int,
)
    requires
        object_props_wf(props),
        0 <= i < props.len(),
        props[i] matches ObjectPatProp::KeyValue(kv) && *kv.value is Ident,
    ensures
        object_entries(props, top)[i] == (
            props[i]->KeyValue_0.value->Ident_0.sym@,
            property_type(top, props[i]->KeyValue_0.key@),
        ),
{
    lemma_object_index(props, top, i);
}

} // verus!
