//! The passive description of how a type's data is shaped.
use vstd::prelude::*;

verus! {

/// The mathematical form of a [`FieldId`]: a position or a name.
pub enum FieldKey {
    /// Position of a field in a tuple-like shape.
    Index(usize),
    /// Name of a field in a struct-like shape.
    Named(Seq<char>),
}

/// Identifier of a field inside a type: its position or its name.
#[derive(Debug, Clone)]
pub enum FieldId {
    /// Position of the field in a tuple-like shape.
    Index(usize),
    /// Name of the field in a struct-like shape.
    Named(String),
}

impl View for FieldId {
    type V = FieldKey;

    open spec fn view(&self) -> FieldKey {
        match self {
            FieldId::Index(i) => FieldKey::Index(*i),
            FieldId::Named(s) => FieldKey::Named(s@),
        }
    }
}

impl FieldId {
    /// Exact comparison of two identifiers: index with index, name with name.
    pub fn same(&self, other: &FieldId) -> (r: bool)
        ensures
            r == (self@ == other@),
    {
        match (self, other) {
            (FieldId::Index(a), FieldId::Index(b)) => *a == *b,
            (FieldId::Named(a), FieldId::Named(b)) => a.eq(b),
            _ => false,
        }
    }

    /// The name of a named identifier.
    pub fn as_named(&self) -> (r: &str)
        requires
            self is Named,
        ensures
            FieldKey::Named(r@) == self@,
    {
        match self {
            FieldId::Named(s) => s.as_str(),
            FieldId::Index(_) => "",
        }
    }

    /// The position of an indexed identifier.
    pub fn as_indexed(&self) -> (r: usize)
        requires
            self is Index,
        ensures
            FieldKey::Index(r) == self@,
    {
        match self {
            FieldId::Index(i) => *i,
            FieldId::Named(_) => 0,
        }
    }

    /// The identifier of the field at position `i`.
    pub fn from_index(i: usize) -> (r: FieldId)
        ensures
            r@ == FieldKey::Index(i),
    {
        FieldId::Index(i)
    }

    /// The identifier of the field named `s`.
    pub fn from_name(s: &str) -> (r: FieldId)
        ensures
            r@ == FieldKey::Named(s@),
    {
        FieldId::Named(s.to_string())
    }
}

impl PartialEq for FieldId {
    fn eq(&self, other: &FieldId) -> (r: bool) {
        self.same(other)
    }
}

impl From<usize> for FieldId {
    fn from(i: usize) -> (r: FieldId) {
        FieldId::Index(i)
    }
}

impl vstd::std_specs::convert::FromSpecImpl<usize> for FieldId {
    open spec fn obeys_from_spec() -> bool {
        true
    }

    open spec fn from_spec(i: usize) -> FieldId {
        FieldId::Index(i)
    }
}

impl Eq for FieldId {

}

impl vstd::std_specs::cmp::PartialEqSpecImpl for FieldId {
    open spec fn obeys_eq_spec() -> bool {
        true
    }

    open spec fn eq_spec(&self, other: &FieldId) -> bool {
        self@ == other@
    }
}

/// A field of a type: its identifier and the registry key of its type.
#[derive(Debug, Clone, PartialEq, Eq)]
pub struct Field {
    /// Identifier of the field inside its type.
    pub id: FieldId,
    /// Key, in the registry, of the schema of the field's type.
    pub ty: usize,
}

/// The fields of a product shape or of a variant.
#[derive(Debug, Clone, PartialEq, Eq)]
pub enum Fields {
    /// Fields with names, in declaration order.
    Named(Vec<Field>),
    /// Fields reached by position, in declaration order.
    Indexed(Vec<Field>),
    /// No fields at all.
    Unit,
}

impl Fields {
    /// The fields in declaration order (none for `Unit`).
    pub open spec fn list(&self) -> Seq<Field> {
        match self {
            Fields::Named(v) => v@,
            Fields::Indexed(v) => v@,
            Fields::Unit => Seq::empty(),
        }
    }

    /// Named fields carry names, indexed fields carry their own position, and no
    /// two fields share an identifier.
    pub open spec fn wf(&self) -> bool {
        &&& match self {
            Fields::Named(v) => forall|i: int| 0 <= i < v@.len() ==> (#[trigger] v@[i]).id is Named,
            Fields::Indexed(v) => forall|i: int|
                0 <= i < v@.len() ==> (#[trigger] v@[i]).id@ == FieldKey::Index(i as usize),
            Fields::Unit => true,
        }
        &&& forall|i: int, j: int|
            0 <= i < self.list().len() && 0 <= j < self.list().len() && i != j
                ==> (#[trigger] self.list()[i]).id@ != (#[trigger] self.list()[j]).id@
    }

    /// Every field refers to a type key below `n`.
    pub open spec fn refs_below(&self, n: nat) -> bool {
        forall|i: int| 0 <= i < self.list().len() ==> (#[trigger] self.list()[i]).ty < n
    }

    /// Number of fields.
    pub fn len(&self) -> (r: usize)
        ensures
            r == self.list().len(),
    {
        match self {
            Fields::Named(v) => v.len(),
            Fields::Indexed(v) => v.len(),
            Fields::Unit => 0,
        }
    }
}

/// Position of the field with identifier `key` in `fs`, or -1 when there is none.
pub open spec fn slot_of(fs: Seq<Field>, key: FieldKey) -> int {
    if exists|j: int| 0 <= j < fs.len() && (#[trigger] fs[j]).id@ == key {
        choose|j: int| 0 <= j < fs.len() && (#[trigger] fs[j]).id@ == key
    } else {
        -1
    }
}

/// One variant of a tagged union.
#[derive(Debug, Clone, PartialEq, Eq)]
pub struct Variant {
    /// Name of the variant, exactly as declared.
    pub ident: String,
    /// Fields of the variant.
    pub fields: Fields,
    /// Zero-based position of the variant in its declaration.
    pub discriminator: usize,
}

/// The variants of a tagged union, in declaration order.
#[derive(Debug, Clone, PartialEq, Eq)]
pub struct Variants {
    /// The variants.
    pub variants: Vec<Variant>,
}

impl Variants {
    /// Each variant is well formed, holds its own position as discriminator, and no
    /// two variants share a name.
    pub open spec fn wf(&self) -> bool {
        &&& forall|i: int| 0 <= i < self.variants@.len() ==> (#[trigger] self.variants@[i]).fields.wf()
        &&& forall|i: int|
            0 <= i < self.variants@.len() ==> (#[trigger] self.variants@[i]).discriminator == i
        &&& forall|i: int, j: int|
            0 <= i < self.variants@.len() && 0 <= j < self.variants@.len() && i != j
                ==> (#[trigger] self.variants@[i]).ident@ != (#[trigger] self.variants@[j]).ident@
    }

    /// Every field of every variant refers to a type key below `n`.
    pub open spec fn refs_below(&self, n: nat) -> bool {
        forall|i: int| 0 <= i < self.variants@.len() ==> (#[trigger] self.variants@[i]).fields.refs_below(n)
    }
}

/// Position of the variant named `name`, or -1 when there is none.
pub open spec fn variant_slot(vs: Seq<Variant>, name: Seq<char>) -> int {
    if exists|j: int| 0 <= j < vs.len() && (#[trigger] vs[j]).ident@ == name {
        choose|j: int| 0 <= j < vs.len() && (#[trigger] vs[j]).ident@ == name
    } else {
        -1
    }
}

/// What a type holds.
#[derive(Debug, Clone, PartialEq, Eq)]
pub enum Data {
    /// A built-in scalar or string: no fields, never constructed by reflection.
    Primitive,
    /// A product type with named or indexed fields (or none).
    Struct(Fields),
    /// A tagged union.
    Enum(Variants),
    /// A user-defined type without fields.
    Unit,
}

/// The schema of a type: its name and the shape of its data.
#[derive(Debug, Clone, PartialEq, Eq)]
pub struct Type {
    /// Type name, exactly as declared.
    pub ident: String,
    /// Shape of the type's data.
    pub data: Data,
}

impl Type {
    /// The shape is internally consistent and every field type key is below `n`.
    pub open spec fn wf(&self, n: nat) -> bool {
        match self.data {
            Data::Struct(fs) => fs.wf() && fs.refs_below(n),
            Data::Enum(vs) => vs.wf() && vs.refs_below(n),
            _ => true,
        }
    }
}

} // verus!
