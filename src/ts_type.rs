use vstd::prelude::*;

verus! {

broadcast use vstd::std_specs::vec::group_vec_axioms;

/// The mathematical value of a `TypeDef`.
pub enum TypeModel {
    Named(Seq<char>),
    Array(Box<TypeModel>),
    Tuple(Seq<TypeModel>),
    TypeLiteral(Seq<PropertyModel>),
}

/// The mathematical value of a `LiteralProperty`.
pub struct PropertyModel {
    pub name: Seq<char>,
    pub ts_type: Option<TypeModel>,
}

/// A resolved type, seen through the shape that destructuring reads.
#[derive(Debug, PartialEq, Eq)]
pub enum TypeDef {
    /// Any type whose inner structure is not projected (a keyword, a reference, a union...),
    /// kept by its text.
    Named(String),
    /// `E[]`, with its element type.
    Array(Box<TypeDef>),
    /// `[T0, T1, ...]`, with its element types in order.
    Tuple(Vec<TypeDef>),
    /// `{ a: A; b: B }`, with its properties in order.
    TypeLiteral(Vec<LiteralProperty>),
}

/// One property of a type literal; its type is absent where the literal left it out.
#[derive(Debug, PartialEq, Eq)]
pub struct LiteralProperty {
    pub name: String,
    pub ts_type: Option<TypeDef>,
}

/// Stands outside the index range of a model sequence, where nothing reads it.
pub open spec fn default_model() -> TypeModel {
    TypeModel::Named(Seq::empty())
}

/// Stands outside the index range of a model sequence, where nothing reads it.
pub open spec fn no_property() -> PropertyModel {
    PropertyModel { name: Seq::empty(), ts_type: None }
}

impl TypeDef {
    pub open spec fn model(&self) -> TypeModel
        decreases self,
    {
        match self {
            TypeDef::Named(s) => TypeModel::Named(s@),
            TypeDef::Array(e) => TypeModel::Array(Box::new(e.model())),
            TypeDef::Tuple(v) => TypeModel::Tuple(
                Seq::new(v@.len(), |i: int| if 0 <= i < v@.len() { v@[i].model() } else { default_model() }),
            ),
            TypeDef::TypeLiteral(v) => TypeModel::TypeLiteral(
                Seq::new(v@.len(), |i: int| if 0 <= i < v@.len() { v@[i].model() } else { no_property() }),
            ),
        }
    }
}

impl LiteralProperty {
    pub open spec fn model(&self) -> PropertyModel
        decreases self,
    {
        PropertyModel {
            name: self.name@,
            ts_type: match self.ts_type {
                Some(t) => Some(t.model()),
                None => None,
            },
        }
    }
}

impl TypeDef {
    /// An owned copy with the same model.
    pub fn duplicate(&self) -> (r: TypeDef)
        ensures
            r.model() == self.model(),
        decreases self,
    {
        match self {
            TypeDef::Named(s) => {
                TypeDef::Named(s.clone())
            },
            TypeDef::Array(e) => TypeDef::Array(Box::new(e.duplicate())),
            TypeDef::Tuple(v) => {
                let mut out: Vec<TypeDef> = Vec::new();
                let mut i: usize = 0;
                while i < v.len()
                    invariant
                        *self == TypeDef::Tuple(*v),
                        i <= v@.len(),
                        out@.len() == i,
                        forall|j: int| 0 <= j < i ==> #[trigger] out@[j].model() == v@[j].model(),
                    decreases v@.len() - i,
                {
                    proof {
                        assert(decreases_to!(*self => self->Tuple_0));
                        assert(decreases_to!(*v => v@));
                    }
                    out.push(v[i].duplicate());
                    i = i + 1;
                }
                let ghost o = out@;
                let r = TypeDef::Tuple(out);
                assert(r.model()->Tuple_0.len() == v@.len());
                assert(self.model()->Tuple_0.len() == v@.len());
                assert(forall|k: int| 0 <= k < v@.len() ==> r.model()->Tuple_0[k] == o[k].model());
                assert(forall|k: int| 0 <= k < v@.len() ==> self.model()->Tuple_0[k] == v@[k].model());
                assert(r.model()->Tuple_0 =~= self.model()->Tuple_0);
                r
            },
            TypeDef::TypeLiteral(v) => {
                let mut out: Vec<LiteralProperty> = Vec::new();
                let mut i: usize = 0;
                while i < v.len()
                    invariant
                        *self == TypeDef::TypeLiteral(*v),
                        i <= v@.len(),
                        out@.len() == i,
                        forall|j: int| 0 <= j < i ==> #[trigger] out@[j].model() == v@[j].model(),
                    decreases v@.len() - i,
                {
                    proof {
                        assert(decreases_to!(*self => self->TypeLiteral_0));
                        assert(decreases_to!(*v => v@));
                    }
                    out.push(v[i].duplicate());
                    i = i + 1;
                }
                let ghost o = out@;
                let r = TypeDef::TypeLiteral(out);
                assert(r.model()->TypeLiteral_0.len() == v@.len());
                assert(self.model()->TypeLiteral_0.len() == v@.len());
                assert(forall|k: int| 0 <= k < v@.len() ==> r.model()->TypeLiteral_0[k] == o[k].model());
                assert(forall|k: int| 0 <= k < v@.len() ==> self.model()->TypeLiteral_0[k] == v@[k].model());
                assert(r.model()->TypeLiteral_0 =~= self.model()->TypeLiteral_0);
                r
            },
        }
    }
}

impl LiteralProperty {
    /// An owned copy with the same model.
    pub fn duplicate(&self) -> (r: LiteralProperty)
        ensures
            r.model() == self.model(),
        decreases self,
    {
        let ts_type = match &self.ts_type {
            Some(t) => Some(t.duplicate()),
            None => None,
        };
        LiteralProperty { name: self.name.clone(), ts_type }
    }
}

} // verus!
