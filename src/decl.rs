//! Turning a type's declaration into its schema: the registration step.
use vstd::prelude::*;
use crate::schema::{Data, Field, FieldId, FieldKey, Fields, Type, Variant, Variants};

verus! {

/// One declared field: its name, if the declaration gives one, and the registry
/// key of its type.
pub struct FieldDecl {
    /// Name of the field; `None` for a positional field.
    pub name: Option<String>,
    /// Registry key of the field's type.
    pub ty: usize,
}

/// One declared variant of a tagged union.
pub struct VariantDecl {
    /// Name of the variant.
    pub name: String,
    /// Its fields, in declaration order.
    pub fields: Vec<FieldDecl>,
}

/// The body of a type declaration.
pub enum DeclData {
    /// A product type with these fields (none for a unit struct).
    Struct(Vec<FieldDecl>),
    /// A tagged union with these variants.
    Enum(Vec<VariantDecl>),
}

/// A type declaration: its name and its body.
pub struct TypeDecl {
    /// Name of the type.
    pub ident: String,
    /// What the type holds.
    pub data: DeclData,
}

/// All fields are named, or all are positional, as a declaration always has them.
pub open spec fn homogeneous(ds: Seq<FieldDecl>) -> bool {
    (forall|i: int| 0 <= i < ds.len() ==> (#[trigger] ds[i]).name is Some) || (forall|i: int|
        0 <= i < ds.len() ==> (#[trigger] ds[i]).name is None)
}

/// `f` is the shape that the field declarations `ds` describe: the same number of
/// fields in the same order with the same types, identified by name when the
/// declaration names them and by position otherwise; no fields gives `Unit`.
pub open spec fn describes(f: Fields, ds: Seq<FieldDecl>) -> bool {
    &&& f.list().len() == ds.len()
    &&& ds.len() == 0 ==> f is Unit
    &&& ds.len() > 0 && ds[0].name is Some ==> f is Named
    &&& ds.len() > 0 && ds[0].name is None ==> f is Indexed
    &&& forall|i: int| 0 <= i < ds.len() ==> (#[trigger] f.list()[i]).ty == ds[i].ty
    &&& forall|i: int|
        0 <= i < ds.len() ==> (#[trigger] f.list()[i]).id@ == match ds[i].name {
            Some(s) => FieldKey::Named(s@),
            None => FieldKey::Index(i as usize),
        }
}

/// No two named fields of `ds` share a name.
pub open spec fn names_distinct(ds: Seq<FieldDecl>) -> bool {
    forall|i: int, j: int|
        0 <= i < ds.len() && 0 <= j < ds.len() && i != j && (#[trigger] ds[i]).name is Some
            && (#[trigger] ds[j]).name is Some ==> ds[i].name->Some_0@ != ds[j].name->Some_0@
}

/// The schema shape of a list of declared fields.
pub fn create_meta_fields(ds: &Vec<FieldDecl>) -> (r: Fields)
    requires
        homogeneous(ds@),
    ensures
        describes(r, ds@),
        names_distinct(ds@) ==> r.wf(),
{
    let n = ds.len();
    if n == 0 {
        return Fields::Unit;
    }
    let named = ds[0].name.is_some();
    let mut out: Vec<Field> = Vec::new();
    let mut i: usize = 0;
    while i < n
        invariant
            n == ds@.len(),
            0 <= i <= n,
            homogeneous(ds@),
            named == ds@[0].name is Some,
            out@.len() == i,
            forall|k: int| 0 <= k < i ==> (#[trigger] out@[k]).ty == ds@[k].ty,
            forall|k: int|
                0 <= k < i ==> (#[trigger] out@[k]).id@ == match ds@[k].name {
                    Some(s) => FieldKey::Named(s@),
                    None => FieldKey::Index(k as usize),
                },
        decreases n - i,
    {
        let id = match &ds[i].name {
            Some(s) => FieldId::Named(s.clone()),
            None => FieldId::Index(i),
        };
        out.push(Field { id, ty: ds[i].ty });
        i = i + 1;
    }
    let r = if named {
        Fields::Named(out)
    } else {
        Fields::Indexed(out)
    };
    proof {
        assert(r.list() == out@);
        if named {
            assert(ds@[0].name is Some);
            assert forall|k: int| 0 <= k < n implies (#[trigger] ds@[k]).name is Some by {
                if ds@[k].name is None {
                    assert(!(ds@[0].name is None));
                }
            }
        } else {
            assert forall|k: int| 0 <= k < n implies (#[trigger] ds@[k]).name is None by {
                if ds@[k].name is Some {
                    assert(!(ds@[0].name is Some));
                }
            }
        }
        if names_distinct(ds@) {
            assert forall|a: int, b: int|
                0 <= a < r.list().len() && 0 <= b < r.list().len() && a != b
                    implies (#[trigger] r.list()[a]).id@ != (#[trigger] r.list()[b]).id@ by {
                assert(ds@[a].name is Some <==> ds@[b].name is Some);
            }
        }
    }
    r
}

/// The variants of a declared tagged union, numbered in declaration order.
pub fn create_meta_variants(ds: &Vec<VariantDecl>) -> (r: Variants)
    requires
        forall|i: int| 0 <= i < ds@.len() ==> homogeneous((#[trigger] ds@[i]).fields@),
    ensures
        r.variants@.len() == ds@.len(),
        forall|i: int|
            0 <= i < ds@.len() ==> {
                &&& (#[trigger] r.variants@[i]).ident@ == ds@[i].name@
                &&& r.variants@[i].discriminator == i
                &&& describes(r.variants@[i].fields, ds@[i].fields@)
                &&& names_distinct(ds@[i].fields@) ==> r.variants@[i].fields.wf()
            },
{
    let n = ds.len();
    let mut out: Vec<Variant> = Vec::new();
    let mut i: usize = 0;
    while i < n
        invariant
            n == ds@.len(),
            0 <= i <= n,
            forall|k: int| 0 <= k < ds@.len() ==> homogeneous((#[trigger] ds@[k]).fields@),
            out@.len() == i,
            forall|k: int|
                0 <= k < i ==> {
                    &&& (#[trigger] out@[k]).ident@ == ds@[k].name@
                    &&& out@[k].discriminator == k
                    &&& describes(out@[k].fields, ds@[k].fields@)
                    &&& names_distinct(ds@[k].fields@) ==> out@[k].fields.wf()
                },
        decreases n - i,
    {
        let fields = create_meta_fields(&ds[i].fields);
        out.push(Variant { ident: ds[i].name.clone(), fields, discriminator: i });
        i = i + 1;
    }
    Variants { variants: out }
}

impl TypeDecl {
    /// Field names are distinct within each field list, variant names are
    /// distinct, and every field type key is below `n`.
    pub open spec fn well_declared(&self, n: nat) -> bool {
        match self.data {
            DeclData::Struct(ds) => names_distinct(ds@) && forall|i: int|
                0 <= i < ds@.len() ==> (#[trigger] ds@[i]).ty < n,
            DeclData::Enum(vs) => {
                &&& forall|i: int, j: int|
                    0 <= i < vs@.len() && 0 <= j < vs@.len() && i != j
                        ==> (#[trigger] vs@[i]).name@ != (#[trigger] vs@[j]).name@
                &&& forall|i: int| 0 <= i < vs@.len() ==> names_distinct((#[trigger] vs@[i]).fields@)
                &&& forall|i: int, k: int|
                    0 <= i < vs@.len() && 0 <= k < vs@[i].fields@.len() ==> (#[trigger] vs@[i].fields@[k]).ty
                        < n
            },
        }
    }

    /// The schema of the declared type.
    pub fn to_type(&self) -> (r: Type)
        requires
            self.data matches DeclData::Struct(ds) ==> homogeneous(ds@),
            self.data matches DeclData::Enum(vs) ==> forall|i: int|
                0 <= i < vs@.len() ==> homogeneous((#[trigger] vs@[i]).fields@),
        ensures
            r.ident@ == self.ident@,
            self.data matches DeclData::Struct(ds) ==> (r.data matches Data::Struct(f) && describes(f, ds@)),
            self.data matches DeclData::Enum(vs) ==> (r.data matches Data::Enum(rv) && rv.variants@.len()
                == vs@.len() && forall|i: int|
                0 <= i < vs@.len() ==> {
                    &&& (#[trigger] rv.variants@[i]).ident@ == vs@[i].name@
                    &&& rv.variants@[i].discriminator == i
                    &&& describes(rv.variants@[i].fields, vs@[i].fields@)
                }),
            forall|n: nat| #[trigger] self.well_declared(n) ==> r.wf(n),
    {
        let data = match &self.data {
            DeclData::Struct(ds) => Data::Struct(create_meta_fields(ds)),
            DeclData::Enum(vs) => Data::Enum(create_meta_variants(vs)),
        };
        let r = Type { ident: self.ident.clone(), data };
        proof {
            assert forall|n: nat| #[trigger] self.well_declared(n) implies r.wf(n) by {
                match &self.data {
                    DeclData::Struct(ds) => {
                        let f = r.data->Struct_0;
                        assert forall|i: int| 0 <= i < f.list().len() implies (#[trigger] f.list()[i]).ty < n by {
                            assert(ds@[i].ty < n);
                        }
                    },
                    DeclData::Enum(vs) => {
                        let rv = r.data->Enum_0;
                        assert forall|i: int| 0 <= i < rv.variants@.len() implies (#[trigger] rv.variants@[i]).fields.refs_below(n) by {
                            let f = rv.variants@[i].fields;
                            assert(describes(f, vs@[i].fields@));
                            assert forall|k: int| 0 <= k < f.list().len() implies (#[trigger] f.list()[k]).ty < n by {
                                assert(vs@[i].fields@[k].ty < n);
                            }
                        }
                        assert forall|i: int, j: int|
                            0 <= i < rv.variants@.len() && 0 <= j < rv.variants@.len() && i != j
                                implies (#[trigger] rv.variants@[i]).ident@ != (#[trigger] rv.variants@[j]).ident@ by {
                            assert(vs@[i].name@ != vs@[j].name@);
                        }
                        assert forall|i: int| 0 <= i < rv.variants@.len() implies (#[trigger] rv.variants@[i]).fields.wf() by {
                            assert(names_distinct(vs@[i].fields@));
                        }
                    },
                }
            }
        }
        r
    }
}

} // verus!
