//! Owned type-erased values and the borrowed handles that reach into them.
use vstd::prelude::*;

verus! {

/// Registry key of `u8`.
pub const U8_TYPE: usize = 0;
/// Registry key of `u16`.
pub const U16_TYPE: usize = 1;
/// Registry key of `u32`.
pub const U32_TYPE: usize = 2;
/// Registry key of `u64`.
pub const U64_TYPE: usize = 3;
/// Registry key of `u128`.
pub const U128_TYPE: usize = 4;
/// Registry key of `i8`.
pub const I8_TYPE: usize = 5;
/// Registry key of `i16`.
pub const I16_TYPE: usize = 6;
/// Registry key of `i32`.
pub const I32_TYPE: usize = 7;
/// Registry key of `i64`.
pub const I64_TYPE: usize = 8;
/// Registry key of `i128`.
pub const I128_TYPE: usize = 9;
/// Registry key of `usize`.
pub const USIZE_TYPE: usize = 10;
/// Registry key of `isize`.
pub const ISIZE_TYPE: usize = 11;
/// Registry key of `String`.
pub const STRING_TYPE: usize = 12;
/// Registry key of `f32`.
pub const F32_TYPE: usize = 13;
/// Registry key of `f64`.
pub const F64_TYPE: usize = 14;
/// Number of built-in types; user types get keys from here on.
pub const PRIMITIVE_COUNT: usize = 15;

/// An owned value whose concrete type is known only through its runtime key.
///
/// Floating-point numbers travel as their IEEE-754 bit patterns.
#[derive(Debug, PartialEq)]
pub enum Value {
    /// A `u8`.
    U8(u8),
    /// A `u16`.
    U16(u16),
    /// A `u32`.
    U32(u32),
    /// A `u64`.
    U64(u64),
    /// A `u128`.
    U128(u128),
    /// An `i8`.
    I8(i8),
    /// An `i16`.
    I16(i16),
    /// An `i32`.
    I32(i32),
    /// An `i64`.
    I64(i64),
    /// An `i128`.
    I128(i128),
    /// A `usize`.
    Usize(usize),
    /// An `isize`.
    Isize(isize),
    /// A `String`.
    Str(String),
    /// An `f32`, as its bits.
    F32Bits(u32),
    /// An `f64`, as its bits.
    F64Bits(u64),
    /// A product value of the registered type `ty`, its fields in declaration order.
    Struct { ty: usize, fields: Vec<Value> },
    /// Variant number `variant` of the registered tagged union `ty`.
    Enum { ty: usize, variant: usize, fields: Vec<Value> },
}

impl Value {
    /// The runtime type identity of the value: its key in the registry.
    pub open spec fn key(&self) -> usize {
        match self {
            Value::U8(_) => U8_TYPE,
            Value::U16(_) => U16_TYPE,
            Value::U32(_) => U32_TYPE,
            Value::U64(_) => U64_TYPE,
            Value::U128(_) => U128_TYPE,
            Value::I8(_) => I8_TYPE,
            Value::I16(_) => I16_TYPE,
            Value::I32(_) => I32_TYPE,
            Value::I64(_) => I64_TYPE,
            Value::I128(_) => I128_TYPE,
            Value::Usize(_) => USIZE_TYPE,
            Value::Isize(_) => ISIZE_TYPE,
            Value::Str(_) => STRING_TYPE,
            Value::F32Bits(_) => F32_TYPE,
            Value::F64Bits(_) => F64_TYPE,
            Value::Struct { ty, .. } => *ty,
            Value::Enum { ty, .. } => *ty,
        }
    }

    /// The stored fields of a product or variant value (none for a built-in).
    pub open spec fn children(&self) -> Seq<Value> {
        match self {
            Value::Struct { fields, .. } => fields@,
            Value::Enum { fields, .. } => fields@,
            _ => Seq::empty(),
        }
    }

    /// `self` and `other` are the same kind of value with the same type, the same
    /// active variant and the same number of stored fields.
    pub open spec fn same_frame(&self, other: &Value) -> bool {
        match (self, other) {
            (Value::Struct { ty: a, fields: fa }, Value::Struct { ty: b, fields: fb }) => a == b
                && fa@.len() == fb@.len(),
            (Value::Enum { ty: a, variant: va, fields: fa }, Value::Enum { ty: b, variant: vb, fields: fb }) => a == b
                && va == vb && fa@.len() == fb@.len(),
            _ => self == other,
        }
    }

    /// Borrows stored field `j`.
    pub fn child(&self, j: usize) -> (r: &Value)
        requires
            j < self.children().len(),
        ensures
            *r == self.children()[j as int],
    {
        match self {
            Value::Struct { fields, .. } => &fields[j],
            Value::Enum { fields, .. } => &fields[j],
            _ => self,
        }
    }

    /// Borrows stored field `j` exclusively; what is written through the result
    /// becomes field `j` of `self`.
    pub fn child_mut(&mut self, j: usize) -> (r: &mut Value)
        requires
            j < old(self).children().len(),
        ensures
            *r == old(self).children()[j as int],
            old(self).same_frame(&*final(self)),
            final(self).children() == old(self).children().update(j as int, *final(r)),
    {
        match self {
            Value::Struct { fields, .. } => &mut fields[j],
            Value::Enum { fields, .. } => &mut fields[j],
            _ => self,
        }
    }

    /// The runtime type identity of the value.
    pub fn type_key(&self) -> (r: usize)
        ensures
            r == self.key(),
    {
        match self {
            Value::U8(_) => U8_TYPE,
            Value::U16(_) => U16_TYPE,
            Value::U32(_) => U32_TYPE,
            Value::U64(_) => U64_TYPE,
            Value::U128(_) => U128_TYPE,
            Value::I8(_) => I8_TYPE,
            Value::I16(_) => I16_TYPE,
            Value::I32(_) => I32_TYPE,
            Value::I64(_) => I64_TYPE,
            Value::I128(_) => I128_TYPE,
            Value::Usize(_) => USIZE_TYPE,
            Value::Isize(_) => ISIZE_TYPE,
            Value::Str(_) => STRING_TYPE,
            Value::F32Bits(_) => F32_TYPE,
            Value::F64Bits(_) => F64_TYPE,
            Value::Struct { ty, .. } => *ty,
            Value::Enum { ty, .. } => *ty,
        }
    }
}

/// A shared borrow of a field together with its runtime type identity; the
/// typed way to reach the field is `downcast_ref`, which names the expected key.
pub struct Unsizeable<'a> {
    /// The borrowed field.
    pub target: &'a Value,
}

impl<'a> Unsizeable<'a> {
    /// Wraps a borrowed value.
    pub fn new(target: &'a Value) -> (r: Unsizeable<'a>)
        ensures
            r.target == target,
    {
        Unsizeable { target }
    }

    /// The runtime type identity of the borrowed field.
    pub fn target_id(&self) -> (r: usize)
        ensures
            r == self.target.key(),
    {
        self.target.type_key()
    }

    /// The borrowed field, if and only if `ty` is its type's key.
    pub fn downcast_ref(&self, ty: usize) -> (r: Option<&'a Value>)
        ensures
            r is Some <==> ty == self.target.key(),
            r matches Some(v) ==> v == self.target,
    {
        if ty == self.target.type_key() {
            Some(self.target)
        } else {
            None
        }
    }
}

/// An exclusive borrow of a field together with its runtime type identity; the
/// typed way to reach the field is `downcast_mut`, which names the expected key.
pub struct UnsizeableMut<'a> {
    /// The borrowed field.
    pub target: &'a mut Value,
}

impl<'a> UnsizeableMut<'a> {
    /// Wraps an exclusively borrowed value.
    pub fn new(target: &'a mut Value) -> (r: UnsizeableMut<'a>)
        ensures
            *r.target == *old(target),
            *final(target) == *final(r.target),
    {
        UnsizeableMut { target }
    }

    /// The runtime type identity of the borrowed field.
    pub fn target_id(&self) -> (r: usize)
        ensures
            r == old(self.target).key(),
    {
        self.target.type_key()
    }

    /// The borrowed field, if and only if `ty` is its type's key; writes through
    /// the result reach the field's owner.
    pub fn downcast_mut(self, ty: usize) -> (r: Option<&'a mut Value>)
        ensures
            r is Some <==> ty == old(self.target).key(),
            r matches Some(m) ==> *m == *old(self.target) && *final(m) == *final(self.target),
    {
        if ty == self.target.type_key() {
            Some(self.target)
        } else {
            None
        }
    }
}

} // verus!
