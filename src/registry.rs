//! The registry of schemas and the reflection operations over it.
use vstd::prelude::*;
use crate::errors::{FieldAccessError, RuntimeConstructError};
use crate::schema::{slot_of, variant_slot, Data, Field, FieldId, FieldKey, Fields, Type, Variants};
use crate::value::{
    Unsizeable, UnsizeableMut, Value, F32_TYPE, I128_TYPE, I16_TYPE, I32_TYPE, I64_TYPE, I8_TYPE,
    ISIZE_TYPE, PRIMITIVE_COUNT, STRING_TYPE, U128_TYPE, U16_TYPE, U32_TYPE, U64_TYPE, U8_TYPE,
    USIZE_TYPE,
};

verus! {

/// Argument `i` does not carry the type of field `i`.
pub open spec fn mismatch(fs: Seq<Field>, args: Seq<Value>, i: int) -> bool {
    args[i].key() != fs[i].ty
}

/// There are enough arguments and each of the first ones carries its field's type.
pub open spec fn args_fit(fs: Seq<Field>, args: Seq<Value>) -> bool {
    &&& args.len() >= fs.len()
    &&& forall|i: int| 0 <= i < fs.len() ==> !#[trigger] mismatch(fs, args, i)
}

/// The first position whose argument does not carry its field's type.
pub open spec fn first_mismatch(fs: Seq<Field>, args: Seq<Value>) -> int {
    choose|i: int|
        0 <= i < fs.len() && mismatch(fs, args, i) && forall|k: int|
            0 <= k < i ==> !#[trigger] mismatch(fs, args, k)
}

/// The first mismatching position is the one before which every argument fits.
pub proof fn lemma_first_mismatch_is(fs: Seq<Field>, args: Seq<Value>, i: int)
    requires
        0 <= i < fs.len(),
        mismatch(fs, args, i),
        forall|k: int| 0 <= k < i ==> !#[trigger] mismatch(fs, args, k),
    ensures
        first_mismatch(fs, args) == i,
{
    let j = first_mismatch(fs, args);
    assert(0 <= j < fs.len() && mismatch(fs, args, j) && forall|k: int|
        0 <= k < j ==> !#[trigger] mismatch(fs, args, k));
    if j < i {
        assert(!mismatch(fs, args, j));
    }
    if j > i {
        assert(!mismatch(fs, args, i));
    }
}

/// The name under which built-in key `k` is registered.
pub open spec fn primitive_name(k: int) -> Seq<char> {
    if k == U8_TYPE {
        "u8"@
    } else if k == U16_TYPE {
        "u16"@
    } else if k == U32_TYPE {
        "u32"@
    } else if k == U64_TYPE {
        "u64"@
    } else if k == U128_TYPE {
        "u128"@
    } else if k == I8_TYPE {
        "i8"@
    } else if k == I16_TYPE {
        "i16"@
    } else if k == I32_TYPE {
        "i32"@
    } else if k == I64_TYPE {
        "i64"@
    } else if k == I128_TYPE {
        "i128"@
    } else if k == USIZE_TYPE {
        "usize"@
    } else if k == ISIZE_TYPE {
        "isize"@
    } else if k == STRING_TYPE {
        "String"@
    } else if k == F32_TYPE {
        "f32"@
    } else {
        "f64"@
    }
}

/// A table of schemas; a type's runtime identity is its position here.
///
/// The built-in types take the first `PRIMITIVE_COUNT` positions.
pub struct Registry {
    types: Vec<Type>,
}

impl View for Registry {
    type V = Seq<Type>;

    closed spec fn view(&self) -> Seq<Type> {
        self.types@
    }
}

impl Registry {
    /// The built-ins come first and every schema is well formed and refers only
    /// to registered types.
    pub open spec fn wf(&self) -> bool {
        &&& self@.len() >= PRIMITIVE_COUNT
        &&& forall|k: int| 0 <= k < PRIMITIVE_COUNT ==> (#[trigger] self@[k]).data is Primitive
        &&& forall|k: int| 0 <= k < self@.len() ==> (#[trigger] self@[k]).wf(self@.len())
    }

    /// The fields of the shape that `v` currently has: the product's fields, or
    /// those of its active variant.
    pub open spec fn shape_of(&self, v: Value) -> Fields {
        match v {
            Value::Struct { ty, .. } => match self@[ty as int].data {
                Data::Struct(fs) => fs,
                _ => Fields::Unit,
            },
            Value::Enum { ty, variant, .. } => match self@[ty as int].data {
                Data::Enum(vs) => vs.variants@[variant as int].fields,
                _ => Fields::Unit,
            },
            _ => Fields::Unit,
        }
    }

    /// `v`'s stored fields match the shape its schema gives it.
    pub open spec fn fits(&self, v: Value) -> bool {
        match v {
            Value::Struct { ty, fields } => ty < self@.len() && match self@[ty as int].data {
                Data::Struct(fs) => fields@.len() == fs.list().len(),
                Data::Unit => fields@.len() == 0,
                _ => false,
            },
            Value::Enum { ty, variant, fields } => ty < self@.len() && match self@[ty as int].data {
                Data::Enum(vs) => variant < vs.variants@.len() && fields@.len()
                    == vs.variants@[variant as int].fields.list().len(),
                _ => false,
            },
            _ => true,
        }
    }

    /// Position, among `v`'s stored fields, of the field with identifier `key`
    /// (-1 when the shape has none).
    pub open spec fn slot(&self, v: Value, key: FieldKey) -> int {
        slot_of(self.shape_of(v).list(), key)
    }

    /// The error of building from `args` when they do not fit `fs`.
    pub open spec fn take_error(&self, fs: Seq<Field>, args: Seq<Value>) -> RuntimeConstructError {
        if args.len() < fs.len() {
            RuntimeConstructError::NotEnoughArgs
        } else {
            let i = first_mismatch(fs, args);
            RuntimeConstructError::UnexpectedType {
                index: i as usize,
                expected: self@[fs[i].ty as int].ident,
            }
        }
    }

    /// Takes, in declaration order, one argument per field of `fs`; arguments past
    /// the last field are dropped.
    fn take_fields(&self, fs: &Vec<Field>, args: Vec<Value>) -> (r: Result<Vec<Value>, RuntimeConstructError>)
        requires
            self.wf(),
            forall|i: int| 0 <= i < fs@.len() ==> (#[trigger] fs@[i]).ty < self@.len(),
        ensures
            r is Ok <==> args_fit(fs@, args@),
            r matches Ok(vals) ==> vals@ == args@.take(fs@.len() as int),
            r matches Err(e) ==> e == self.take_error(fs@, args@),
    {
        let n = fs.len();
        if args.len() < n {
            return Err(RuntimeConstructError::NotEnoughArgs);
        }
        let mut i: usize = 0;
        while i < n
            invariant
                n == fs@.len(),
                n <= args@.len(),
                0 <= i <= n,
                forall|k: int| 0 <= k < fs@.len() ==> (#[trigger] fs@[k]).ty < self@.len(),
                forall|k: int| 0 <= k < i ==> !#[trigger] mismatch(fs@, args@, k),
            decreases n - i,
        {
            if args[i].type_key() != fs[i].ty {
                proof {
                    lemma_first_mismatch_is(fs@, args@, i as int);
                }
                let expected = self.types[fs[i].ty].ident.clone();
                return Err(RuntimeConstructError::UnexpectedType { index: i, expected });
            }
            i = i + 1;
        }
        let mut args = args;
        args.truncate(n);
        Ok(args)
    }

    /// Builds a value of the product type `ty` from one argument per field, in
    /// declaration order. Arguments past the last field are ignored.
    pub fn construct_struct(&self, ty: usize, args: Vec<Value>) -> (r: Result<Value, RuntimeConstructError>)
        requires
            self.wf(),
            ty < self@.len(),
        ensures
            self@[ty as int].data is Primitive ==> r == Err::<Value, _>(RuntimeConstructError::Primitive),
            self@[ty as int].data is Enum ==> r == Err::<Value, _>(RuntimeConstructError::NotStruct),
            self@[ty as int].data is Unit ==> (r matches Ok(Value::Struct { ty: t, fields }) && t == ty
                && fields@.len() == 0),
            self@[ty as int].data matches Data::Struct(fs) ==> {
                &&& r is Ok <==> args_fit(fs.list(), args@)
                &&& r matches Ok(v) ==> (v matches Value::Struct { ty: t, fields } && t == ty
                    && fields@ == args@.take(fs.list().len() as int))
                &&& r matches Err(e) ==> e == self.take_error(fs.list(), args@)
            },
            r matches Ok(v) ==> self.fits(v),
    {
        match &self.types[ty].data {
            Data::Primitive => Err(RuntimeConstructError::Primitive),
            Data::Enum(_) => Err(RuntimeConstructError::NotStruct),
            Data::Unit => Ok(Value::Struct { ty, fields: Vec::new() }),
            Data::Struct(Fields::Unit) => {
                let ghost fs = self@[ty as int].data->Struct_0;
                assert(args@.take(0) =~= Seq::<Value>::empty());
                Ok(Value::Struct { ty, fields: Vec::new() })
            }
            Data::Struct(Fields::Named(fs)) | Data::Struct(Fields::Indexed(fs)) => {
                proof {
                    let f = self@[ty as int].data->Struct_0;
                    assert(f.list() == fs@);
                    assert(self@[ty as int].wf(self@.len()));
                    assert forall|i: int| 0 <= i < fs@.len() implies (#[trigger] fs@[i]).ty < self@.len() by {
                        assert(f.list()[i] == fs@[i]);
                    }
                }
                match self.take_fields(fs, args) {
                    Ok(fields) => Ok(Value::Struct { ty, fields }),
                    Err(e) => Err(e),
                }
            }
        }
    }

    /// Position of the variant named `name` in `vs`, if there is one.
    fn find_variant(vs: &Variants, name: &String) -> (r: Option<usize>)
        requires
            vs.wf(),
        ensures
            r matches Some(j) ==> j == variant_slot(vs.variants@, name@),
            r is None ==> variant_slot(vs.variants@, name@) == -1,
    {
        let n = vs.variants.len();
        let mut i: usize = 0;
        while i < n
            invariant
                n == vs.variants@.len(),
                vs.wf(),
                0 <= i <= n,
                forall|k: int| 0 <= k < i ==> (#[trigger] vs.variants@[k]).ident@ != name@,
            decreases n - i,
        {
            if vs.variants[i].ident.eq(name) {
                proof {
                    assert(vs.variants@[i as int].ident@ == name@);
                    let j = variant_slot(vs.variants@, name@);
                    assert(0 <= j < n && vs.variants@[j].ident@ == name@);
                    if j != i {
                        assert(vs.variants@[j].ident@ != vs.variants@[i as int].ident@);
                    }
                }
                return Some(i);
            }
            i = i + 1;
        }
        None
    }

    /// Builds variant `variant` of the tagged union `ty` from one argument per
    /// field of that variant, in declaration order. Arguments past the last field
    /// are ignored.
    pub fn construct_enum(&self, ty: usize, variant: &str, args: Vec<Value>) -> (r: Result<Value, RuntimeConstructError>)
        requires
            self.wf(),
            ty < self@.len(),
        ensures
            self@[ty as int].data is Primitive ==> r == Err::<Value, _>(RuntimeConstructError::Primitive),
            self@[ty as int].data is Struct || self@[ty as int].data is Unit
                ==> r == Err::<Value, _>(RuntimeConstructError::NotEnum),
            self@[ty as int].data matches Data::Enum(vs) ==> {
                let j = variant_slot(vs.variants@, variant@);
                let fs = vs.variants@[j].fields.list();
                &&& j < 0 ==> r == Err::<Value, _>(RuntimeConstructError::InvalidVariant)
                &&& j >= 0 ==> (r is Ok <==> args_fit(fs, args@))
                &&& j >= 0 ==> (r matches Ok(v) ==> (v matches Value::Enum { ty: t, variant: w, fields }
                    && t == ty && w == j && fields@ == args@.take(fs.len() as int)))
                &&& j >= 0 ==> (r matches Err(e) ==> e == self.take_error(fs, args@))
            },
            r matches Ok(v) ==> self.fits(v),
    {
        match &self.types[ty].data {
            Data::Primitive => Err(RuntimeConstructError::Primitive),
            Data::Struct(_) | Data::Unit => Err(RuntimeConstructError::NotEnum),
            Data::Enum(vs) => {
                proof {
                    assert(self@[ty as int].wf(self@.len()));
                }
                let name = variant.to_owned();
                match Self::find_variant(vs, &name) {
                    None => Err(RuntimeConstructError::InvalidVariant),
                    Some(j) => {
                        proof {
                            assert(vs.variants@[j as int].fields.refs_below(self@.len()));
                        }
                        match &vs.variants[j].fields {
                            Fields::Unit => {
                                assert(args@.take(0) =~= Seq::<Value>::empty());
                                Ok(Value::Enum { ty, variant: j, fields: Vec::new() })
                            }
                            Fields::Named(fs) | Fields::Indexed(fs) => {
                                proof {
                                    let f = vs.variants@[j as int].fields;
                                    assert(f.list() == fs@);
                                    assert forall|i: int| 0 <= i < fs@.len() implies (#[trigger] fs@[i]).ty < self@.len() by {
                                        assert(f.list()[i] == fs@[i]);
                                    }
                                }
                                match self.take_fields(fs, args) {
                                    Ok(fields) => Ok(Value::Enum { ty, variant: j, fields }),
                                    Err(e) => Err(e),
                                }
                            }
                        }
                    }
                }
            }
        }
    }

    /// The fields of `v`'s current shape, or `None` when it has none.
    fn field_list<'r>(&'r self, v: &Value) -> (r: Option<&'r Vec<Field>>)
        requires
            self.wf(),
            self.fits(*v),
        ensures
            r is None <==> self.shape_of(*v) is Unit,
            r matches Some(l) ==> l@ == self.shape_of(*v).list(),
            self.shape_of(*v).wf(),
            self.shape_of(*v).list().len() == v.children().len(),
    {
        let ghost n = self@.len();
        let fs: &Fields = match v {
            Value::Struct { ty, .. } => {
                assert(self@[*ty as int].wf(n));
                match &self.types[*ty].data {
                    Data::Struct(fs) => fs,
                    _ => return None,
                }
            }
            Value::Enum { ty, variant, .. } => {
                assert(self@[*ty as int].wf(n));
                match &self.types[*ty].data {
                    Data::Enum(vs) => {
                        assert(vs.variants@[*variant as int].fields.wf());
                        &vs.variants[*variant].fields
                    }
                    _ => return None,
                }
            }
            _ => return None,
        };
        match fs {
            Fields::Named(l) | Fields::Indexed(l) => Some(l),
            Fields::Unit => None,
        }
    }

    /// Position of the field with identifier `id` in `list`, if there is one.
    fn find_slot(list: &Vec<Field>, id: &FieldId) -> (r: Option<usize>)
        requires
            forall|i: int, j: int|
                0 <= i < list@.len() && 0 <= j < list@.len() && i != j
                    ==> (#[trigger] list@[i]).id@ != (#[trigger] list@[j]).id@,
        ensures
            r matches Some(j) ==> j == slot_of(list@, id@),
            r is None ==> slot_of(list@, id@) == -1,
    {
        let n = list.len();
        let mut i: usize = 0;
        while i < n
            invariant
                n == list@.len(),
                0 <= i <= n,
                forall|a: int, b: int|
                    0 <= a < list@.len() && 0 <= b < list@.len() && a != b
                        ==> (#[trigger] list@[a]).id@ != (#[trigger] list@[b]).id@,
                forall|k: int| 0 <= k < i ==> (#[trigger] list@[k]).id@ != id@,
            decreases n - i,
        {
            if list[i].id.same(id) {
                proof {
                    let j = slot_of(list@, id@);
                    assert(list@[i as int].id@ == id@);
                    assert(0 <= j < n && list@[j].id@ == id@);
                    if j != i {
                        assert(list@[j].id@ != list@[i as int].id@);
                    }
                }
                return Some(i);
            }
            i = i + 1;
        }
        None
    }

    /// Borrows the field `id` of `v`. For a tagged union only the fields of the
    /// active variant can be reached.
    pub fn field<'a>(&self, v: &'a Value, id: &FieldId) -> (r: Result<Unsizeable<'a>, FieldAccessError>)
        requires
            self.wf(),
            self.fits(*v),
        ensures
            self.shape_of(*v) is Unit ==> r matches Err(FieldAccessError::Unit),
            !(self.shape_of(*v) is Unit) && self.slot(*v, id@) < 0
                ==> r matches Err(FieldAccessError::NotFound),
            !(self.shape_of(*v) is Unit) && self.slot(*v, id@) >= 0 ==> (r matches Ok(h)
                && *h.target == v.children()[self.slot(*v, id@)]),
    {
        match self.field_list(v) {
            None => Err(FieldAccessError::Unit),
            Some(list) => {
                assert(self.shape_of(*v).wf());
                assert(list@ == self.shape_of(*v).list());
                match Self::find_slot(list, id) {
                    None => Err(FieldAccessError::NotFound),
                    Some(j) => Ok(Unsizeable::new(v.child(j))),
                }
            }
        }
    }

    /// Borrows the field `id` of `v` exclusively; what is written through the
    /// handle becomes that field of `v`, and nothing else of `v` changes.
    pub fn field_mut<'a>(&self, v: &'a mut Value, id: &FieldId) -> (r: Result<UnsizeableMut<'a>, FieldAccessError>)
        requires
            self.wf(),
            self.fits(*old(v)),
        ensures
            self.shape_of(*old(v)) is Unit ==> r matches Err(FieldAccessError::Unit),
            !(self.shape_of(*old(v)) is Unit) && self.slot(*old(v), id@) < 0
                ==> r matches Err(FieldAccessError::NotFound),
            !(self.shape_of(*old(v)) is Unit) && self.slot(*old(v), id@) >= 0 ==> r is Ok,
            r matches Ok(h) ==> {
                let j = self.slot(*old(v), id@);
                &&& 0 <= j < old(v).children().len()
                &&& *h.target == old(v).children()[j]
                &&& old(v).same_frame(&*final(v))
                &&& final(v).children() == old(v).children().update(j, *final(h.target))
            },
            r is Err ==> *final(v) == *old(v),
    {
        match self.field_list(v) {
            None => Err(FieldAccessError::Unit),
            Some(list) => {
                assert(self.shape_of(*v).wf());
                assert(list@ == self.shape_of(*v).list());
                match Self::find_slot(list, id) {
                    None => Err(FieldAccessError::NotFound),
                    Some(j) => Ok(UnsizeableMut::new(v.child_mut(j))),
                }
            }
        }
    }

    /// A registry that holds the built-in types alone, at their fixed keys.
    pub fn new() -> (r: Registry)
        ensures
            r.wf(),
            r@.len() == PRIMITIVE_COUNT,
            forall|k: int| 0 <= k < PRIMITIVE_COUNT ==> (#[trigger] r@[k]).ident@ == primitive_name(k),
    {
        let mut types: Vec<Type> = Vec::new();
        types.push(Type { ident: "u8".to_string(), data: Data::Primitive });
        types.push(Type { ident: "u16".to_string(), data: Data::Primitive });
        types.push(Type { ident: "u32".to_string(), data: Data::Primitive });
        types.push(Type { ident: "u64".to_string(), data: Data::Primitive });
        types.push(Type { ident: "u128".to_string(), data: Data::Primitive });
        types.push(Type { ident: "i8".to_string(), data: Data::Primitive });
        types.push(Type { ident: "i16".to_string(), data: Data::Primitive });
        types.push(Type { ident: "i32".to_string(), data: Data::Primitive });
        types.push(Type { ident: "i64".to_string(), data: Data::Primitive });
        types.push(Type { ident: "i128".to_string(), data: Data::Primitive });
        types.push(Type { ident: "usize".to_string(), data: Data::Primitive });
        types.push(Type { ident: "isize".to_string(), data: Data::Primitive });
        types.push(Type { ident: "String".to_string(), data: Data::Primitive });
        types.push(Type { ident: "f32".to_string(), data: Data::Primitive });
        types.push(Type { ident: "f64".to_string(), data: Data::Primitive });
        proof {
            reveal_strlit("u8");
            reveal_strlit("u16");
            reveal_strlit("u32");
            reveal_strlit("u64");
            reveal_strlit("u128");
            reveal_strlit("i8");
            reveal_strlit("i16");
            reveal_strlit("i32");
            reveal_strlit("i64");
            reveal_strlit("i128");
            reveal_strlit("usize");
            reveal_strlit("isize");
            reveal_strlit("String");
            reveal_strlit("f32");
            reveal_strlit("f64");
        }
        let r = Registry { types };
        assert forall|k: int| 0 <= k < r@.len() implies (#[trigger] r@[k]).data is Primitive by {}
        r
    }

    /// Adds the schema `t` under the next free key and returns that key. The
    /// schema may refer to itself through that key.
    pub fn register(&mut self, t: Type) -> (key: usize)
        requires
            old(self).wf(),
            t.wf(old(self)@.len() + 1),
            old(self)@.len() < usize::MAX,
        ensures
            key == old(self)@.len(),
            final(self)@ == old(self)@.push(t),
            final(self).wf(),
    {
        let key = self.types.len();
        let ghost before = self@;
        self.types.push(t);
        proof {
            let n = self@.len();
            assert forall|k: int| 0 <= k < n implies (#[trigger] self@[k]).wf(n) by {
                if k < before.len() {
                    assert(before[k].wf(before.len()));
                    Self::lemma_wf_grows(before[k], before.len(), n);
                }
            }
        }
        key
    }

    proof fn lemma_wf_grows(t: Type, n: nat, m: nat)
        requires
            t.wf(n),
            n <= m,
        ensures
            t.wf(m),
    {
        match t.data {
            Data::Enum(vs) => {
                assert forall|i: int| 0 <= i < vs.variants@.len() implies (#[trigger] vs.variants@[i]).fields.refs_below(m) by {
                    assert(vs.variants@[i].fields.refs_below(n));
                }
            }
            _ => {}
        }
    }

    /// Whether `v`'s stored fields match the shape its schema gives it, so that
    /// its fields may be borrowed.
    pub fn conforms(&self, v: &Value) -> (r: bool)
        ensures
            r == self.fits(*v),
    {
        match v {
            Value::Struct { ty, fields } => {
                if *ty >= self.types.len() {
                    return false;
                }
                match &self.types[*ty].data {
                    Data::Struct(fs) => fields.len() == fs.len(),
                    Data::Unit => fields.len() == 0,
                    _ => false,
                }
            }
            Value::Enum { ty, variant, fields } => {
                if *ty >= self.types.len() {
                    return false;
                }
                match &self.types[*ty].data {
                    Data::Enum(vs) => *variant < vs.variants.len() && fields.len()
                        == vs.variants[*variant].fields.len(),
                    _ => false,
                }
            }
            _ => true,
        }
    }

    /// Number of registered types.
    pub fn len(&self) -> (r: usize)
        ensures
            r == self@.len(),
    {
        self.types.len()
    }

    /// The schema registered under `ty`.
    pub fn schema(&self, ty: usize) -> (r: &Type)
        requires
            ty < self@.len(),
        ensures
            *r == self@[ty as int],
    {
        &self.types[ty]
    }

    /// The schema of the type of `v`.
    pub fn get_dynamic(&self, v: &Value) -> (r: &Type)
        requires
            self.wf(),
            self.fits(*v),
        ensures
            *r == self@[v.key() as int],
    {
        &self.types[v.type_key()]
    }
}

} // verus!
