//! Properties that relate several operations of the protocol.
use vstd::prelude::*;
use crate::registry::{args_fit, Registry};
use crate::schema::{Data, FieldKey, Type};
use crate::value::Value;

verus! {

/// Two different identifiers that both name a field of `v` name different
/// stored fields, so borrows taken through them never alias.
pub proof fn lemma_distinct_ids_distinct_storage(reg: &Registry, v: Value, a: FieldKey, b: FieldKey)
    requires
        reg.wf(),
        reg.fits(v),
        reg.slot(v, a) >= 0,
        reg.slot(v, b) >= 0,
        a != b,
    ensures
        reg.slot(v, a) != reg.slot(v, b),
        reg.slot(v, a) < v.children().len(),
        reg.slot(v, b) < v.children().len(),
{
    let fs = reg.shape_of(v).list();
    lemma_slot_in_shape(reg, v, a);
    lemma_slot_in_shape(reg, v, b);
    assert(fs[reg.slot(v, a)].id@ == a);
    assert(fs[reg.slot(v, b)].id@ == b);
}

/// A found slot lies among `v`'s stored fields and holds the field named `key`.
pub proof fn lemma_slot_in_shape(reg: &Registry, v: Value, key: FieldKey)
    requires
        reg.wf(),
        reg.fits(v),
        reg.slot(v, key) >= 0,
    ensures
        reg.slot(v, key) < reg.shape_of(v).list().len(),
        reg.shape_of(v).list().len() == v.children().len(),
        reg.shape_of(v).list()[reg.slot(v, key)].id@ == key,
{
    let fs = reg.shape_of(v).list();
    assert(exists|j: int| 0 <= j < fs.len() && (#[trigger] fs[j]).id@ == key);
    lemma_shape_matches_storage(reg, v);
}

/// The shape a fitting value has lists exactly as many fields as it stores, and
/// no identifier twice.
pub proof fn lemma_shape_matches_storage(reg: &Registry, v: Value)
    requires
        reg.wf(),
        reg.fits(v),
    ensures
        reg.shape_of(v).list().len() == v.children().len(),
        reg.shape_of(v).wf(),
{
    match v {
        Value::Struct { ty, .. } => {
            assert(reg@[ty as int].wf(reg@.len()));
        },
        Value::Enum { ty, variant, .. } => {
            assert(reg@[ty as int].wf(reg@.len()));
            let vs = reg@[ty as int].data->Enum_0;
            assert(vs.variants@[variant as int].fields.wf());
        },
        _ => {},
    }
}

/// A product built from arguments that fit its fields hands each argument back
/// through the identifier of the field it filled.
pub proof fn lemma_construct_then_read(reg: &Registry, ty: usize, args: Seq<Value>, v: Value)
    requires
        reg.wf(),
        ty < reg@.len(),
        reg@[ty as int].data is Struct,
        args_fit(reg@[ty as int].data->Struct_0.list(), args),
        v matches Value::Struct { ty: t, fields } && t == ty
            && fields@ == args.take(reg@[ty as int].data->Struct_0.list().len() as int),
    ensures
        reg.fits(v),
        forall|i: int|
            0 <= i < reg@[ty as int].data->Struct_0.list().len() ==> {
                let key = (#[trigger] reg@[ty as int].data->Struct_0.list()[i]).id@;
                &&& reg.slot(v, key) == i
                &&& v.children()[i] == args[i]
            },
{
    let fs = reg@[ty as int].data->Struct_0.list();
    assert(reg@[ty as int].wf(reg@.len()));
    assert forall|i: int| 0 <= i < fs.len() implies reg.slot(v, (#[trigger] fs[i]).id@) == i by {
        let key = fs[i].id@;
        assert(reg.shape_of(v).list() == fs);
        assert(exists|j: int| 0 <= j < fs.len() && (#[trigger] fs[j]).id@ == key);
        let j = reg.slot(v, key);
        assert(0 <= j < fs.len() && fs[j].id@ == key);
        if j != i {
            assert(fs[j].id@ != fs[i].id@);
        }
    }
}

/// After a write of `w` through the field `key` of `before`, reading `key` from
/// the result finds `w`, every other field is unchanged, and the value still
/// fits its schema.
pub proof fn lemma_write_then_read(reg: &Registry, before: Value, after: Value, key: FieldKey, w: Value)
    requires
        reg.wf(),
        reg.fits(before),
        reg.slot(before, key) >= 0,
        before.same_frame(&after),
        after.children() == before.children().update(reg.slot(before, key), w),
    ensures
        reg.fits(after),
        reg.slot(after, key) == reg.slot(before, key),
        after.children()[reg.slot(after, key)] == w,
        forall|j: int|
            0 <= j < after.children().len() && j != reg.slot(after, key)
                ==> #[trigger] after.children()[j] == before.children()[j],
{
    lemma_slot_in_shape(reg, before, key);
    assert(reg.shape_of(after) == reg.shape_of(before));
}

/// Registering a new type leaves the schema of every earlier key as it was, so
/// asking for a type's schema always gives the same answer.
pub proof fn lemma_schema_stable(before: &Registry, after: &Registry, t: Type, ty: usize)
    requires
        after@ == before@.push(t),
        ty < before@.len(),
    ensures
        after@[ty as int] == before@[ty as int],
{
}

/// A unit shape takes any list of arguments: none is needed and extra ones are
/// ignored.
pub proof fn lemma_unit_takes_any_args(reg: &Registry, ty: usize, args: Seq<Value>)
    requires
        ty < reg@.len(),
        reg@[ty as int].data matches Data::Struct(fs) && fs.list().len() == 0,
    ensures
        args_fit(reg@[ty as int].data->Struct_0.list(), args),
        args.take(0) == Seq::<Value>::empty(),
{
    assert(args.take(0) =~= Seq::<Value>::empty());
}

} // verus!
