use reflectix::decl::{DeclData, FieldDecl, TypeDecl, VariantDecl};
use reflectix::errors::{FieldAccessError, RuntimeConstructError};
use reflectix::registry::Registry;
use reflectix::schema::{Data, FieldId, Fields, Type};
use reflectix::value::{
    Value, F64_TYPE, I32_TYPE, PRIMITIVE_COUNT, STRING_TYPE, U32_TYPE, U8_TYPE,
};

fn named(name: &str, ty: usize) -> FieldDecl {
    FieldDecl { name: Some(name.to_string()), ty }
}

fn positional(ty: usize) -> FieldDecl {
    FieldDecl { name: None, ty }
}

fn register_struct(reg: &mut Registry, ident: &str, fields: Vec<FieldDecl>) -> usize {
    let decl = TypeDecl { ident: ident.to_string(), data: DeclData::Struct(fields) };
    reg.register(decl.to_type())
}

fn register_shape(reg: &mut Registry) -> usize {
    let decl = TypeDecl {
        ident: "Shape".to_string(),
        data: DeclData::Enum(vec![
            VariantDecl { name: "Circle".to_string(), fields: vec![positional(F64_TYPE)] },
            VariantDecl { name: "Square".to_string(), fields: vec![named("side", F64_TYPE)] },
            VariantDecl { name: "Empty".to_string(), fields: vec![] },
        ]),
    };
    reg.register(decl.to_type())
}

fn modify_field_of_erased(reg: &Registry, obj: &mut Value) {
    let field = reg.field_mut(obj, &FieldId::from_name("x")).unwrap();
    let ref_field = field.downcast_mut(I32_TYPE).unwrap();
    *ref_field = Value::I32(42);
}

#[test]
fn test_name() {
    let mut reg = Registry::new();
    let k = register_struct(&mut reg, "Test", vec![named("a", I32_TYPE), named("b", U32_TYPE)]);
    assert_eq!(reg.schema(k).ident, "Test");
}

#[test]
fn test_erased_mutation() {
    let mut reg = Registry::new();
    let k = register_struct(&mut reg, "Foo", vec![named("x", I32_TYPE), named("y", I32_TYPE)]);
    let mut foo = reg.construct_struct(k, vec![Value::I32(0), Value::I32(0)]).unwrap();
    modify_field_of_erased(&reg, &mut foo);
    let x = reg.field(&foo, &FieldId::from_name("x")).unwrap();
    assert_eq!(x.downcast_ref(I32_TYPE), Some(&Value::I32(42)));
}

#[test]
fn schema_lists_fields_in_declaration_order() {
    let mut reg = Registry::new();
    let k = register_struct(
        &mut reg,
        "Triple",
        vec![named("first", U8_TYPE), named("second", STRING_TYPE), named("third", I32_TYPE)],
    );
    match &reg.schema(k).data {
        Data::Struct(Fields::Named(fs)) => {
            assert_eq!(fs.len(), 3);
            assert_eq!(fs[0].id, FieldId::Named("first".to_string()));
            assert_eq!(fs[1].id, FieldId::Named("second".to_string()));
            assert_eq!(fs[2].id, FieldId::Named("third".to_string()));
            assert_eq!(fs[1].ty, STRING_TYPE);
        }
        other => panic!("unexpected shape {:?}", other),
    }
    let t = register_struct(&mut reg, "Tuple", vec![positional(I32_TYPE), positional(U8_TYPE)]);
    match &reg.schema(t).data {
        Data::Struct(Fields::Indexed(fs)) => {
            assert_eq!(fs.len(), 2);
            assert_eq!(fs[0].id, FieldId::Index(0));
            assert_eq!(fs[1].id, FieldId::Index(1));
            assert_eq!(fs[1].ty, U8_TYPE);
        }
        other => panic!("unexpected shape {:?}", other),
    }
    let u = register_struct(&mut reg, "Nothing", vec![]);
    assert_eq!(reg.schema(u).data, Data::Struct(Fields::Unit));
}

#[test]
fn variants_are_numbered_in_declaration_order() {
    let mut reg = Registry::new();
    let k = register_shape(&mut reg);
    match &reg.schema(k).data {
        Data::Enum(vs) => {
            assert_eq!(vs.variants.len(), 3);
            assert_eq!(vs.variants[0].ident, "Circle");
            assert_eq!(vs.variants[1].discriminator, 1);
            assert_eq!(vs.variants[2].fields, Fields::Unit);
        }
        other => panic!("unexpected shape {:?}", other),
    }
}

#[test]
fn distinct_fields_do_not_alias() {
    let mut reg = Registry::new();
    let k = register_struct(&mut reg, "Pair", vec![named("a", I32_TYPE), named("b", I32_TYPE)]);
    let mut v = reg.construct_struct(k, vec![Value::I32(1), Value::I32(2)]).unwrap();
    {
        let h = reg.field_mut(&mut v, &FieldId::from_name("a")).unwrap();
        *h.downcast_mut(I32_TYPE).unwrap() = Value::I32(10);
    }
    let a = reg.field(&v, &FieldId::from_name("a")).unwrap();
    let b = reg.field(&v, &FieldId::from_name("b")).unwrap();
    assert_eq!(a.target, &Value::I32(10));
    assert_eq!(b.target, &Value::I32(2));
}

#[test]
fn construct_then_read_round_trip() {
    let mut reg = Registry::new();
    let k = register_struct(
        &mut reg,
        "Record",
        vec![named("id", U32_TYPE), named("name", STRING_TYPE), named("score", I32_TYPE)],
    );
    let v = reg
        .construct_struct(k, vec![Value::U32(7), Value::Str("ada".to_string()), Value::I32(-3)])
        .unwrap();
    assert_eq!(reg.get_dynamic(&v).ident, "Record");
    let id = reg.field(&v, &FieldId::from_name("id")).unwrap();
    let name = reg.field(&v, &FieldId::from_name("name")).unwrap();
    let score = reg.field(&v, &FieldId::from_name("score")).unwrap();
    assert_eq!(id.downcast_ref(U32_TYPE), Some(&Value::U32(7)));
    assert_eq!(name.downcast_ref(STRING_TYPE), Some(&Value::Str("ada".to_string())));
    assert_eq!(score.downcast_ref(I32_TYPE), Some(&Value::I32(-3)));
}

#[test]
fn schema_is_the_same_every_time() {
    let mut reg = Registry::new();
    let k = register_struct(&mut reg, "Pair", vec![named("a", I32_TYPE), named("b", I32_TYPE)]);
    let first: Type = reg.schema(k).clone();
    register_struct(&mut reg, "Later", vec![positional(U8_TYPE)]);
    assert_eq!(reg.schema(k), &first);
    assert_eq!(reg.schema(k), reg.schema(k));
    assert_eq!(reg.schema(I32_TYPE).ident, "i32");
    assert_eq!(reg.len(), PRIMITIVE_COUNT + 2);
}

#[test]
fn unit_takes_zero_or_extra_arguments() {
    let mut reg = Registry::new();
    let k = register_struct(&mut reg, "Marker", vec![]);
    let v = reg.construct_struct(k, vec![]).unwrap();
    assert!(matches!(v, Value::Struct { ty, ref fields } if ty == k && fields.is_empty()));
    let w = reg.construct_struct(k, vec![Value::I32(5)]).unwrap();
    assert!(matches!(w, Value::Struct { ty, ref fields } if ty == k && fields.is_empty()));
    assert_eq!(reg.field(&v, &FieldId::Index(0)).err(), Some(FieldAccessError::Unit));
}

#[test]
fn unit_data_is_constructible() {
    let mut reg = Registry::new();
    let k = reg.register(Type { ident: "Unit".to_string(), data: Data::Unit });
    let v = reg.construct_struct(k, vec![]).unwrap();
    assert!(matches!(v, Value::Struct { ty, ref fields } if ty == k && fields.is_empty()));
    assert_eq!(
        reg.construct_enum(k, "A", vec![]).err(),
        Some(RuntimeConstructError::NotEnum)
    );
}

#[test]
fn extra_arguments_after_the_last_field_are_ignored() {
    let mut reg = Registry::new();
    let k = register_struct(&mut reg, "One", vec![positional(I32_TYPE)]);
    let v = reg.construct_struct(k, vec![Value::I32(4), Value::U8(9)]).unwrap();
    assert_eq!(v, Value::Struct { ty: k, fields: vec![Value::I32(4)] });
}

#[test]
fn pair_scenario() {
    let mut reg = Registry::new();
    let k = register_struct(&mut reg, "Pair", vec![named("a", I32_TYPE), named("b", I32_TYPE)]);
    assert_eq!(reg.schema(k).ident, "Pair");
    let v = reg.construct_struct(k, vec![Value::I32(1), Value::I32(2)]).unwrap();
    let a = reg.field(&v, &FieldId::from_name("a")).unwrap();
    assert_eq!(a.target_id(), I32_TYPE);
    assert_eq!(a.downcast_ref(I32_TYPE), Some(&Value::I32(1)));
}

#[test]
fn shape_active_variant_scenario() {
    let mut reg = Registry::new();
    let k = register_shape(&mut reg);
    let circle = reg.construct_enum(k, "Circle", vec![Value::F64Bits(2.0f64.to_bits())]).unwrap();
    let r = reg.field(&circle, &FieldId::Index(0)).unwrap();
    match r.downcast_ref(F64_TYPE) {
        Some(Value::F64Bits(bits)) => assert_eq!(f64::from_bits(*bits), 2.0),
        other => panic!("unexpected {:?}", other),
    }
    assert_eq!(
        reg.field(&circle, &FieldId::from_name("side")).err(),
        Some(FieldAccessError::NotFound)
    );
    let empty = reg.construct_enum(k, "Empty", vec![]).unwrap();
    assert_eq!(reg.field(&empty, &FieldId::Index(0)).err(), Some(FieldAccessError::Unit));
}

#[test]
fn shape_construct_variant_scenario() {
    let mut reg = Registry::new();
    let k = register_shape(&mut reg);
    let square = reg.construct_enum(k, "Square", vec![Value::F64Bits(3.0f64.to_bits())]).unwrap();
    assert_eq!(
        square,
        Value::Enum { ty: k, variant: 1, fields: vec![Value::F64Bits(3.0f64.to_bits())] }
    );
    let side = reg.field(&square, &FieldId::from_name("side")).unwrap();
    assert_eq!(side.downcast_ref(F64_TYPE), Some(&Value::F64Bits(3.0f64.to_bits())));
    assert_eq!(
        reg.construct_enum(k, "Triangle", vec![]).err(),
        Some(RuntimeConstructError::InvalidVariant)
    );
}

#[test]
fn primitive_scenario() {
    let reg = Registry::new();
    assert_eq!(
        reg.construct_struct(I32_TYPE, vec![Value::I32(1)]).err(),
        Some(RuntimeConstructError::Primitive)
    );
    assert_eq!(reg.construct_struct(I32_TYPE, vec![]).err(), Some(RuntimeConstructError::Primitive));
    assert_eq!(
        reg.construct_enum(I32_TYPE, "A", vec![]).err(),
        Some(RuntimeConstructError::Primitive)
    );
    let n = Value::I32(5);
    assert_eq!(reg.field(&n, &FieldId::Index(0)).err(), Some(FieldAccessError::Unit));
    assert_eq!(reg.get_dynamic(&n).data, Data::Primitive);
}

#[test]
fn mutation_scenario() {
    let mut reg = Registry::new();
    let k = register_struct(&mut reg, "Point", vec![named("x", I32_TYPE), named("y", I32_TYPE)]);
    let mut p = reg.construct_struct(k, vec![Value::I32(3), Value::I32(4)]).unwrap();
    let h = reg.field_mut(&mut p, &FieldId::from_name("x")).unwrap();
    assert_eq!(h.target_id(), I32_TYPE);
    *h.downcast_mut(I32_TYPE).unwrap() = Value::I32(-8);
    let x = reg.field(&p, &FieldId::from_name("x")).unwrap();
    assert_eq!(x.downcast_ref(I32_TYPE), Some(&Value::I32(-8)));
    let y = reg.field(&p, &FieldId::from_name("y")).unwrap();
    assert_eq!(y.downcast_ref(I32_TYPE), Some(&Value::I32(4)));
}

#[test]
fn wrong_type_downcast_is_refused() {
    let mut reg = Registry::new();
    let k = register_struct(&mut reg, "Pair", vec![named("a", I32_TYPE), named("b", I32_TYPE)]);
    let mut v = reg.construct_struct(k, vec![Value::I32(1), Value::I32(2)]).unwrap();
    let a = reg.field(&v, &FieldId::from_name("a")).unwrap();
    assert_eq!(a.downcast_ref(U8_TYPE), None);
    let m = reg.field_mut(&mut v, &FieldId::from_name("b")).unwrap();
    assert!(m.downcast_mut(STRING_TYPE).is_none());
}

#[test]
fn field_errors() {
    let mut reg = Registry::new();
    let k = register_struct(&mut reg, "Pair", vec![named("a", I32_TYPE), named("b", I32_TYPE)]);
    let mut v = reg.construct_struct(k, vec![Value::I32(1), Value::I32(2)]).unwrap();
    assert_eq!(reg.field(&v, &FieldId::from_name("c")).err(), Some(FieldAccessError::NotFound));
    assert_eq!(reg.field(&v, &FieldId::Index(0)).err(), Some(FieldAccessError::NotFound));
    assert_eq!(
        reg.field_mut(&mut v, &FieldId::from_name("zz")).err(),
        Some(FieldAccessError::NotFound)
    );
    let t = register_struct(&mut reg, "Tuple", vec![positional(I32_TYPE), positional(U8_TYPE)]);
    let tv = reg.construct_struct(t, vec![Value::I32(1), Value::U8(2)]).unwrap();
    let second = reg.field(&tv, &FieldId::from_index(1)).unwrap();
    assert_eq!(second.downcast_ref(U8_TYPE), Some(&Value::U8(2)));
    assert_eq!(reg.field(&tv, &FieldId::Index(2)).err(), Some(FieldAccessError::NotFound));
}

#[test]
fn construct_errors() {
    let mut reg = Registry::new();
    let k = register_struct(&mut reg, "Pair", vec![named("a", I32_TYPE), named("b", U8_TYPE)]);
    assert_eq!(
        reg.construct_struct(k, vec![Value::I32(1)]).err(),
        Some(RuntimeConstructError::NotEnoughArgs)
    );
    assert_eq!(
        reg.construct_struct(k, vec![Value::I32(1), Value::I32(2)]).err(),
        Some(RuntimeConstructError::UnexpectedType { index: 1, expected: "u8".to_string() })
    );
    assert_eq!(
        reg.construct_struct(k, vec![Value::U8(1), Value::I32(2)]).err(),
        Some(RuntimeConstructError::UnexpectedType { index: 0, expected: "i32".to_string() })
    );
    assert_eq!(
        reg.construct_enum(k, "Pair", vec![]).err(),
        Some(RuntimeConstructError::NotEnum)
    );
    let s = register_shape(&mut reg);
    assert_eq!(reg.construct_struct(s, vec![]).err(), Some(RuntimeConstructError::NotStruct));
    assert_eq!(
        reg.construct_enum(s, "Circle", vec![]).err(),
        Some(RuntimeConstructError::NotEnoughArgs)
    );
    assert_eq!(
        reg.construct_enum(s, "Circle", vec![Value::I32(1)]).err(),
        Some(RuntimeConstructError::UnexpectedType { index: 0, expected: "f64".to_string() })
    );
}

#[test]
fn nested_product_fields() {
    let mut reg = Registry::new();
    let inner = register_struct(&mut reg, "Inner", vec![positional(I32_TYPE)]);
    let outer = register_struct(&mut reg, "Outer", vec![named("inner", inner)]);
    let i = reg.construct_struct(inner, vec![Value::I32(9)]).unwrap();
    let o = reg.construct_struct(outer, vec![i]).unwrap();
    let h = reg.field(&o, &FieldId::from_name("inner")).unwrap();
    let got = h.downcast_ref(inner).unwrap();
    assert!(reg.conforms(got));
    let deep = reg.field(got, &FieldId::Index(0)).unwrap();
    assert_eq!(deep.target, &Value::I32(9));
    assert_eq!(
        reg.construct_struct(outer, vec![Value::I32(9)]).err(),
        Some(RuntimeConstructError::UnexpectedType { index: 0, expected: "Inner".to_string() })
    );
}

#[test]
fn conformance_check() {
    let mut reg = Registry::new();
    let k = register_struct(&mut reg, "Pair", vec![named("a", I32_TYPE), named("b", I32_TYPE)]);
    let s = register_shape(&mut reg);
    assert!(reg.conforms(&Value::I32(3)));
    assert!(reg.conforms(&Value::Struct { ty: k, fields: vec![Value::I32(1), Value::I32(2)] }));
    assert!(!reg.conforms(&Value::Struct { ty: k, fields: vec![Value::I32(1)] }));
    assert!(!reg.conforms(&Value::Struct { ty: 999, fields: vec![] }));
    assert!(!reg.conforms(&Value::Struct { ty: I32_TYPE, fields: vec![] }));
    assert!(!reg.conforms(&Value::Enum { ty: k, variant: 0, fields: vec![] }));
    assert!(reg.conforms(&Value::Enum { ty: s, variant: 2, fields: vec![] }));
    assert!(!reg.conforms(&Value::Enum { ty: s, variant: 3, fields: vec![] }));
}

#[test]
fn field_id_conversions() {
    let i: FieldId = 3usize.into();
    assert_eq!(i, FieldId::Index(3));
    assert_eq!(i.as_indexed(), 3);
    let n = FieldId::from_name("x");
    assert_eq!(n.as_named(), "x");
    assert!(n.same(&FieldId::Named("x".to_string())));
    assert!(!n.same(&FieldId::Index(0)));
    assert_ne!(FieldId::Index(0), FieldId::Index(1));
}

#[test]
fn builtin_names() {
    let reg = Registry::new();
    assert_eq!(reg.len(), PRIMITIVE_COUNT);
    assert_eq!(reg.schema(U8_TYPE).ident, "u8");
    assert_eq!(reg.schema(STRING_TYPE).ident, "String");
    assert_eq!(reg.schema(F64_TYPE).ident, "f64");
    assert_eq!(reg.get_dynamic(&Value::Str("s".to_string())).ident, "String");
}
