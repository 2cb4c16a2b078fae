use vstd::prelude::*;
use crate::pattern::{
    ArrayPat, DeclSite, Expr, ObjectPat, ObjectPatProp, Pat, RestPat, VarDecl, VarDeclKind,
    VarDeclarator, array_elems_wf, declarator_wf, object_props_wf,
};
use crate::ts_type::{PropertyModel, TypeDef, TypeModel};

verus! {

/// What the documentation records of one binding.
#[derive(Debug, PartialEq, Eq)]
pub struct VariableDef {
    pub ts_type: Option<TypeDef>,
    pub kind: VarDeclKind,
}

/// One emitted binding, as a value: its name and its type.
pub type EntryModel = (Seq<char>, Option<TypeModel>);

pub open spec fn opt_model(t: Option<TypeDef>) -> Option<TypeModel> {
    match t {
        Some(t) => Some(t.model()),
        None => None,
    }
}

pub open spec fn entries_model(v: Seq<(String, VariableDef)>) -> Seq<EntryModel> {
    Seq::new(v.len(), |i: int| (v[i].0@, opt_model(v[i].1.ts_type)))
}

/// The annotation written on the pattern itself.
pub open spec fn pat_type_ann(p: Pat) -> Option<TypeDef> {
    match p {
        Pat::Ident(id) => id.type_ann,
        Pat::Object(o) => o.type_ann,
        Pat::Array(a) => a.type_ann,
        _ => None,
    }
}

/// The annotation of a declaration site that is a declarator binding one annotated identifier.
pub open spec fn site_annotation(site: DeclSite) -> Option<TypeDef> {
    match site.var_declarator {
        Some(Pat::Ident(id)) => id.type_ann,
        _ => None,
    }
}

/// What one declaration site tells of its symbol's type.
pub open spec fn site_type(site: DeclSite) -> Option<TypeDef> {
    if site_annotation(site) is Some {
        site_annotation(site)
    } else {
        site.inferred
    }
}

/// The first declaration site, in order, that tells a type.
pub open spec fn first_site_type(sites: Seq<DeclSite>) -> Option<TypeDef>
    decreases sites.len(),
{
    if sites.len() == 0 {
        None
    } else if site_type(sites[0]) is Some {
        site_type(sites[0])
    } else {
        first_site_type(sites.drop_first())
    }
}

/// The type an initializer that names another binding passes on.
pub open spec fn alias_type(init: Option<Expr>) -> Option<TypeDef> {
    match init {
        Some(Expr::Ident(r)) => first_site_type(r.decls@),
        _ => None,
    }
}

/// The type of the whole declarator: its own annotation, else the aliased binding's,
/// else the literal shape of its initializer.
pub open spec fn effective_top_type(d: VarDeclarator) -> Option<TypeDef> {
    if pat_type_ann(d.name) is Some {
        pat_type_ann(d.name)
    } else if alias_type(d.init) is Some {
        alias_type(d.init)
    } else {
        d.inferred
    }
}

/// The type of the first property named `name`.
pub open spec fn first_property_type(props: Seq<PropertyModel>, name: Seq<char>) -> Option<TypeModel>
    decreases props.len(),
{
    if props.len() == 0 {
        None
    } else if props[0].name == name {
        props[0].ts_type
    } else {
        first_property_type(props.drop_first(), name)
    }
}

/// What an object pattern reads of the top type under the key `name`.
pub open spec fn property_type(top: Option<TypeModel>, name: Seq<char>) -> Option<TypeModel> {
    match top {
        Some(TypeModel::TypeLiteral(props)) => first_property_type(props, name),
        _ => None,
    }
}

/// The entries one property of an object pattern emits.
pub open spec fn object_prop_entries(p: ObjectPatProp, top: Option<TypeModel>) -> Seq<EntryModel> {
    match p {
        ObjectPatProp::KeyValue(kv) => match *kv.value {
            Pat::Ident(id) => seq![(id.sym@, property_type(top, kv.key@))],
            _ => seq![(kv.key@, None)],
        },
        ObjectPatProp::Assign(a) => seq![(a.key@, property_type(top, a.key@))],
        ObjectPatProp::Rest(r) => match *r.arg {
            Pat::Ident(id) => seq![(id.sym@, opt_model(r.type_ann))],
            _ => seq![],
        },
    }
}

pub open spec fn object_entries(props: Seq<ObjectPatProp>, top: Option<TypeModel>) -> Seq<EntryModel>
    decreases props.len(),
{
    if props.len() == 0 {
        seq![]
    } else {
        object_entries(props.drop_last(), top) + object_prop_entries(props.last(), top)
    }
}

/// What an array pattern reads of the top type at position `i`.
pub open spec fn element_type(top: Option<TypeModel>, i: int) -> Option<TypeModel> {
    match top {
        Some(TypeModel::Array(e)) => Some(*e),
        Some(TypeModel::Tuple(ts)) => if 0 <= i < ts.len() {
            Some(ts[i])
        } else {
            None
        },
        _ => None,
    }
}

/// The type of a rest element: its own annotation, else the whole top type where that
/// is an array.
pub open spec fn rest_elem_type(r: RestPat, top: Option<TypeModel>) -> Option<TypeModel> {
    if r.type_ann is Some {
        opt_model(r.type_ann)
    } else if top matches Some(TypeModel::Array(_)) {
        top
    } else {
        None
    }
}

/// The entries the element at position `i` of an array pattern emits.
pub open spec fn array_elem_entries(e: Option<Pat>, i: int, top: Option<TypeModel>) -> Seq<EntryModel> {
    match e {
        Some(Pat::Ident(id)) => seq![(id.sym@, element_type(top, i))],
        Some(Pat::Rest(r)) => match *r.arg {
            Pat::Ident(id) => seq![(id.sym@, rest_elem_type(r, top))],
            _ => seq![],
        },
        _ => seq![],
    }
}

pub open spec fn array_entries(elems: Seq<Option<Pat>>, top: Option<TypeModel>) -> Seq<EntryModel>
    decreases elems.len(),
{
    if elems.len() == 0 {
        seq![]
    } else {
        array_entries(elems.drop_last(), top) + array_elem_entries(
            elems.last(),
            elems.len() - 1,
            top,
        )
    }
}

/// The bindings a declarator introduces, in source order.
pub open spec fn declarator_entries(d: VarDeclarator) -> Seq<EntryModel> {
    let top = opt_model(effective_top_type(d));
    match d.name {
        Pat::Ident(id) => seq![(id.sym@, top)],
        Pat::Object(o) => object_entries(o.props@, top),
        Pat::Array(a) => array_entries(a.elems@, top),
        _ => seq![],
    }
}

fn copy_type(t: &Option<TypeDef>) -> (r: Option<TypeDef>)
    ensures
        opt_model(r) == opt_model(*t),
{
    match t {
        Some(t) => Some(t.duplicate()),
        None => None,
    }
}

/// The pattern's own annotation, where it is an identifier, object or array pattern.
pub fn pattern_type_ann(p: &Pat) -> (r: Option<TypeDef>)
    ensures
        opt_model(r) == opt_model(pat_type_ann(*p)),
{
    match p {
        Pat::Ident(id) => copy_type(&id.type_ann),
        Pat::Object(o) => copy_type(&o.type_ann),
        Pat::Array(a) => copy_type(&a.type_ann),
        _ => None,
    }
}

fn site_type_of(site: &DeclSite) -> (r: Option<TypeDef>)
    ensures
        opt_model(r) == opt_model(site_type(*site)),
{
    if let Some(Pat::Ident(id)) = &site.var_declarator {
        if id.type_ann.is_some() {
            return copy_type(&id.type_ann);
        }
    }
    copy_type(&site.inferred)
}

proof fn lemma_first_site_skip(sites: Seq<DeclSite>, i: int)
    requires
        0 <= i < sites.len(),
        site_type(sites[i]) is None,
    ensures
        first_site_type(sites.subrange(i, sites.len() as int)) == first_site_type(
            sites.subrange(i + 1, sites.len() as int),
        ),
{
    assert(sites.subrange(i, sites.len() as int).drop_first() =~= sites.subrange(
        i + 1,
        sites.len() as int,
    ));
}

/// The type the first telling declaration site gives, in the sites' order.
pub fn alias_type_of(sites: &Vec<DeclSite>) -> (r: Option<TypeDef>)
    ensures
        opt_model(r) == opt_model(first_site_type(sites@)),
{
    let mut i: usize = 0;
    assert(sites@.subrange(0, sites@.len() as int) =~= sites@);
    while i < sites.len()
        invariant
            i <= sites@.len(),
            first_site_type(sites@) == first_site_type(sites@.subrange(i as int, sites@.len() as int)),
        decreases sites@.len() - i,
    {
        let t = site_type_of(&sites[i]);
        if t.is_some() {
            assert(sites@.subrange(i as int, sites@.len() as int)[0] == sites@[i as int]);
            return t;
        }
        proof {
            lemma_first_site_skip(sites@, i as int);
        }
        i = i + 1;
    }
    None
}

/// The type of the whole declarator: its pattern's annotation, else the type of the
/// binding its initializer names, else the literal shape of the initializer.
pub fn resolve_top_type(d: &VarDeclarator) -> (r: Option<TypeDef>)
    ensures
        opt_model(r) == opt_model(effective_top_type(*d)),
{
    let own = pattern_type_ann(&d.name);
    if own.is_some() {
        return own;
    }
    if let Some(Expr::Ident(ident)) = &d.init {
        let aliased = alias_type_of(&ident.decls);
        if aliased.is_some() {
            return aliased;
        }
    }
    copy_type(&d.inferred)
}

proof fn lemma_first_property_skip(props: Seq<PropertyModel>, name: Seq<char>, i: int)
    requires
        0 <= i < props.len(),
        props[i].name != name,
    ensures
        first_property_type(props.subrange(i, props.len() as int), name) == first_property_type(
            props.subrange(i + 1, props.len() as int),
            name,
        ),
{
    assert(props.subrange(i, props.len() as int).drop_first() =~= props.subrange(
        i + 1,
        props.len() as int,
    ));
}

/// The type under `name` in a type-literal top type.
pub fn property_type_of(top: &Option<TypeDef>, name: &String) -> (r: Option<TypeDef>)
    ensures
        opt_model(r) == property_type(opt_model(*top), name@),
{
    if let Some(TypeDef::TypeLiteral(props)) = top {
        let ghost models = top->Some_0.model()->TypeLiteral_0;
        let mut i: usize = 0;
        assert(models.subrange(0, models.len() as int) =~= models);
        while i < props.len()
            invariant
                *top == Some(TypeDef::TypeLiteral(*props)),
                models == top->Some_0.model()->TypeLiteral_0,
                i <= props@.len(),
                models.len() == props@.len(),
                forall|j: int| 0 <= j < props@.len() ==> #[trigger] models[j] == props@[j].model(),
                property_type(opt_model(*top), name@) == first_property_type(
                    models.subrange(i as int, models.len() as int),
                    name@,
                ),
            decreases props@.len() - i,
        {
            if props[i].name == *name {
                assert(models.subrange(i as int, models.len() as int)[0] == models[i as int]);
                return copy_type(&props[i].ts_type);
            }
            proof {
                lemma_first_property_skip(models, name@, i as int);
            }
            i = i + 1;
        }
        None
    } else {
        None
    }
}

/// The type at position `i` of an array or tuple top type.
pub fn element_type_of(top: &Option<TypeDef>, i: usize) -> (r: Option<TypeDef>)
    ensures
        opt_model(r) == element_type(opt_model(*top), i as int),
{
    match top {
        Some(TypeDef::Array(e)) => Some(e.duplicate()),
        Some(TypeDef::Tuple(ts)) => {
            if i < ts.len() {
                Some(ts[i].duplicate())
            } else {
                None
            }
        },
        _ => None,
    }
}

/// The bindings of an object pattern, in source order, typed from the top type.
pub fn object_pattern_entries(obj: &ObjectPat, top: &Option<TypeDef>, kind: VarDeclKind) -> (r: Vec<
    (String, VariableDef),
>)
    requires
        object_props_wf(obj.props@),
    ensures
        entries_model(r@) == object_entries(obj.props@, opt_model(*top)),
        forall|i: int| 0 <= i < r@.len() ==> #[trigger] r@[i].1.kind == kind,
{
    let mut items: Vec<(String, VariableDef)> = Vec::new();
    let mut i: usize = 0;
    while i < obj.props.len()
        invariant
            i <= obj.props@.len(),
            entries_model(items@) == object_entries(obj.props@.take(i as int), opt_model(*top)),
            forall|j: int| 0 <= j < items@.len() ==> #[trigger] items@[j].1.kind == kind,
        decreases obj.props@.len() - i,
    {
        let ghost before = items@;
        proof {
            assert(obj.props@.take(i as int + 1).drop_last() =~= obj.props@.take(i as int));
        }
        match &obj.props[i] {
            ObjectPatProp::KeyValue(kv) => match &*kv.value {
                Pat::Ident(id) => {
                    let ts_type = property_type_of(top, &kv.key);
                    items.push((id.sym.clone(), VariableDef { ts_type, kind }));
                },
                _ => {
                    items.push((kv.key.clone(), VariableDef { ts_type: None, kind }));
                },
            },
            ObjectPatProp::Assign(a) => {
                let ts_type = property_type_of(top, &a.key);
                items.push((a.key.clone(), VariableDef { ts_type, kind }));
            },
            ObjectPatProp::Rest(rest) => {
                if let Pat::Ident(id) = &*rest.arg {
                    let ts_type = copy_type(&rest.type_ann);
                    items.push((id.sym.clone(), VariableDef { ts_type, kind }));
                }
            },
        }
        assert(entries_model(items@) =~= entries_model(before) + object_prop_entries(
            obj.props@[i as int],
            opt_model(*top),
        ));
        i = i + 1;
    }
    assert(obj.props@.take(obj.props@.len() as int) =~= obj.props@);
    items
}

/// The bindings of an array pattern, in source order, typed from the top type.
pub fn array_pattern_entries(arr: &ArrayPat, top: &Option<TypeDef>, kind: VarDeclKind) -> (r: Vec<
    (String, VariableDef),
>)
    requires
        array_elems_wf(arr.elems@),
    ensures
        entries_model(r@) == array_entries(arr.elems@, opt_model(*top)),
        forall|i: int| 0 <= i < r@.len() ==> #[trigger] r@[i].1.kind == kind,
{
    let mut items: Vec<(String, VariableDef)> = Vec::new();
    let mut i: usize = 0;
    while i < arr.elems.len()
        invariant
            i <= arr.elems@.len(),
            entries_model(items@) == array_entries(arr.elems@.take(i as int), opt_model(*top)),
            forall|j: int| 0 <= j < items@.len() ==> #[trigger] items@[j].1.kind == kind,
        decreases arr.elems@.len() - i,
    {
        let ghost before = items@;
        proof {
            assert(arr.elems@.take(i as int + 1).drop_last() =~= arr.elems@.take(i as int));
        }
        match &arr.elems[i] {
            Some(Pat::Ident(id)) => {
                let ts_type = element_type_of(top, i);
                items.push((id.sym.clone(), VariableDef { ts_type, kind }));
            },
            Some(Pat::Rest(rest)) => {
                if let Pat::Ident(id) = &*rest.arg {
                    let ts_type = if rest.type_ann.is_some() {
                        copy_type(&rest.type_ann)
                    } else if let Some(TypeDef::Array(_)) = top {
                        copy_type(top)
                    } else {
                        None
                    };
                    items.push((id.sym.clone(), VariableDef { ts_type, kind }));
                }
            },
            _ => {},
        }
        assert(entries_model(items@) =~= entries_model(before) + array_elem_entries(
            arr.elems@[i as int],
            i as int,
            opt_model(*top),
        ));
        i = i + 1;
    }
    assert(arr.elems@.take(arr.elems@.len() as int) =~= arr.elems@);
    items
}

/// The bindings one declarator introduces, each with the declaration's kind and the type
/// projected for it, in source order.
pub fn get_docs_for_var_declarator(var_decl: &VarDecl, var_declarator: &VarDeclarator) -> (r: Vec<
    (String, VariableDef),
>)
    requires
        declarator_wf(*var_declarator),
    ensures
        entries_model(r@) == declarator_entries(*var_declarator),
        forall|i: int| 0 <= i < r@.len() ==> #[trigger] r@[i].1.kind == var_decl.kind,
{
    let kind = var_decl.kind;
    let top = resolve_top_type(var_declarator);
    match &var_declarator.name {
        Pat::Ident(id) => {
            let mut items: Vec<(String, VariableDef)> = Vec::new();
            items.push((id.sym.clone(), VariableDef { ts_type: top, kind }));
            assert(entries_model(items@) =~= declarator_entries(*var_declarator));
            items
        },
        Pat::Object(obj) => object_pattern_entries(obj, &top, kind),
        Pat::Array(arr) => array_pattern_entries(arr, &top, kind),
        _ => Vec::new(),
    }
}

} // verus!
