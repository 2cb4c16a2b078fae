use vstd::prelude::*;
use crate::ts_type::TypeDef;

verus! {

/// The keyword of a variable declaration.
#[derive(Clone, Copy, Debug, PartialEq, Eq, Structural)]
pub enum VarDeclKind {
    Var,
    Let,
    /// The immutable kind.
    Const,
}

/// A variable declaration statement, as far as its declarators read it.
#[derive(Debug, PartialEq, Eq)]
pub struct VarDecl {
    pub kind: VarDeclKind,
}

/// The left-hand side of a declarator, with annotations already resolved to types.
#[derive(Debug, PartialEq, Eq)]
pub enum Pat {
    Ident(BindingIdent),
    Object(ObjectPat),
    Array(ArrayPat),
    Rest(RestPat),
    /// Any other pattern (an assignment default, an expression): it binds nothing here.
    Other,
}

#[derive(Debug, PartialEq, Eq)]
pub struct BindingIdent {
    pub sym: String,
    pub type_ann: Option<TypeDef>,
}

#[derive(Debug, PartialEq, Eq)]
pub struct ObjectPat {
    pub props: Vec<ObjectPatProp>,
    pub type_ann: Option<TypeDef>,
}

#[derive(Debug, PartialEq, Eq)]
pub struct ArrayPat {
    /// `None` is a hole.
    pub elems: Vec<Option<Pat>>,
    pub type_ann: Option<TypeDef>,
}

#[derive(Debug, PartialEq, Eq)]
pub struct RestPat {
    pub arg: Box<Pat>,
    pub type_ann: Option<TypeDef>,
}

#[derive(Debug, PartialEq, Eq)]
pub enum ObjectPatProp {
    /// `key: value`, with the key as text.
    KeyValue(KeyValuePatProp),
    /// The shorthand `key`.
    Assign(AssignPatProp),
    Rest(RestPat),
}

#[derive(Debug, PartialEq, Eq)]
pub struct KeyValuePatProp {
    pub key: String,
    pub value: Box<Pat>,
}

#[derive(Debug, PartialEq, Eq)]
pub struct AssignPatProp {
    pub key: String,
}

/// A declaration site of a symbol.
#[derive(Debug, PartialEq, Eq)]
pub struct DeclSite {
    /// The binding pattern, where the site is a variable declarator.
    pub var_declarator: Option<Pat>,
    /// What literal-shape inference gave for that declarator, under the site's own kind.
    pub inferred: Option<TypeDef>,
}

/// An initializer expression.
#[derive(Debug, PartialEq, Eq)]
pub enum Expr {
    /// A bare identifier, with the declaration sites of the symbol it resolves to
    /// (none where it does not resolve).
    Ident(IdentRef),
    Other,
}

#[derive(Debug, PartialEq, Eq)]
pub struct IdentRef {
    pub sym: String,
    pub decls: Vec<DeclSite>,
}

#[derive(Debug, PartialEq, Eq)]
pub struct VarDeclarator {
    pub name: Pat,
    pub init: Option<Expr>,
    /// What literal-shape inference gave for this declarator, under its declaration's kind.
    pub inferred: Option<TypeDef>,
}

/// A rest property stands only in last place.
pub open spec fn object_props_wf(props: Seq<ObjectPatProp>) -> bool {
    forall|i: int| 0 <= i < props.len() - 1 ==> !(#[trigger] props[i] is Rest)
}

pub open spec fn is_rest_elem(e: Option<Pat>) -> bool {
    e matches Some(Pat::Rest(_))
}

/// A rest element stands only in last place.
pub open spec fn array_elems_wf(elems: Seq<Option<Pat>>) -> bool {
    forall|i: int| 0 <= i < elems.len() - 1 ==> !is_rest_elem(#[trigger] elems[i])
}

pub open spec fn declarator_wf(d: VarDeclarator) -> bool {
    match d.name {
        Pat::Object(o) => object_props_wf(o.props@),
        Pat::Array(a) => array_elems_wf(a.elems@),
        _ => true,
    }
}

} // verus!
