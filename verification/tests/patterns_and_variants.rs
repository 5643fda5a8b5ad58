use gobject::serde_cairo::matrix::Matrix;
use gobject::serde_cairo::path_segment::PathSegment;
use gobject::serde_cairo::pattern::{
    self, ColorStop, Gradient, LinearGradient, Mesh, MeshCorner, MeshPatch, Pattern, RadialGradient,
    SolidPattern,
};
use gobject::serde_cairo::{gradient, linear_gradient, mesh, radial_gradient, solid_pattern};
use gobject::serde_variant::{self, GVariant, ParsedType, VariantType};
use gobject::value::{DeError, SerError, Value};

fn identity() -> Matrix {
    Matrix { xx: 1.0f64.to_bits(), yx: 0, xy: 0, yy: 1.0f64.to_bits(), x0: 0, y0: 0 }
}

fn stop(o: f64) -> ColorStop {
    ColorStop { offset: o.to_bits(), red: 1.0f64.to_bits(), green: 0, blue: 0, alpha: 1.0f64.to_bits() }
}

fn linear() -> LinearGradient {
    LinearGradient {
        extend: 3,
        filter: 1,
        matrix: identity(),
        x0: 0,
        y0: 0,
        x1: 10.0f64.to_bits(),
        y1: 0,
        stops: vec![stop(0.0), stop(1.0)],
    }
}

#[test]
fn solid_pattern_round_trip() {
    let p = SolidPattern { red: 0, green: 0.5f64.to_bits(), blue: 1.0f64.to_bits(), alpha: 1.0f64.to_bits() };
    let v = solid_pattern::serialize(&p);
    match &v {
        Value::NewtypeVariant { name, index, variant, .. } => {
            assert_eq!((name.as_str(), *index, variant.as_str()), ("cairo::Pattern", 0, "Solid"));
        }
        _ => panic!("a pattern is written as a variant of cairo::Pattern"),
    }
    assert_eq!(solid_pattern::deserialize(&v).ok(), Some(p));
    assert_eq!(
        linear_gradient::deserialize(&v).err(),
        Some(DeError::Custom { message: "wrong pattern type".to_string() })
    );
}

#[test]
fn linear_gradient_round_trip() {
    let l = linear();
    let v = linear_gradient::serialize(&l).unwrap();
    assert_eq!(linear_gradient::deserialize(&v).ok(), Some(l.clone()));
    assert!(matches!(gradient::deserialize(&v), Ok(Gradient::Linear(_))));
    assert!(matches!(pattern::deserialize(&v), Ok(Pattern::Linear(_))));
}

#[test]
fn radial_gradient_round_trip() {
    let r = RadialGradient {
        extend: 0,
        filter: 5,
        matrix: identity(),
        x0: 0,
        y0: 0,
        r0: 1.0f64.to_bits(),
        x1: 0,
        y1: 0,
        r1: 2.0f64.to_bits(),
        stops: vec![stop(0.5)],
    };
    let v = radial_gradient::serialize(&r).unwrap();
    assert_eq!(radial_gradient::deserialize(&v).ok(), Some(r.clone()));
    assert!(matches!(gradient::serialize(&Gradient::Radial(r)), Ok(_)));
}

#[test]
fn unknown_modes_are_refused() {
    let mut l = linear();
    l.extend = 7;
    assert_eq!(linear_gradient::serialize(&l).err(), Some(SerError::Custom { message: "Unknown PatternExtend".to_string() }));
    let mut l = linear();
    l.filter = 9;
    assert_eq!(linear_gradient::serialize(&l).err(), Some(SerError::Custom { message: "Unknown PatternFilter".to_string() }));
    assert_eq!(
        pattern::serialize(&Pattern::Unsupported { pattern_type: 1 }).err(),
        Some(SerError::Custom { message: "unsupported pattern type Self::Surface".to_string() })
    );
}

#[test]
fn mesh_drops_close_path_when_read() {
    let corner = MeshCorner { x: 0, y: 0, red: 0, green: 0, blue: 0, alpha: 1.0f64.to_bits() };
    let m = Mesh {
        extend: 1,
        filter: 2,
        matrix: identity(),
        patches: vec![MeshPatch {
            corners: vec![corner; 4],
            path: vec![PathSegment::MoveTo { x: 0, y: 0 }, PathSegment::LineTo { x: 1.0f64.to_bits(), y: 0 }, PathSegment::ClosePath],
        }],
    };
    let v = mesh::serialize(&m).unwrap();
    let back = mesh::deserialize(&v).ok().unwrap();
    assert_eq!(back.patches[0].corners, m.patches[0].corners);
    assert_eq!(back.patches[0].path, m.patches[0].path[..2].to_vec());
    assert_eq!((back.extend, back.filter), (1, 2));
}

#[test]
fn unknown_pattern_variant() {
    let v = Value::NewtypeVariant {
        name: "cairo::Pattern".to_string(),
        index: 1,
        variant: "Surface".to_string(),
        value: Box::new(Value::Unit),
    };
    assert_eq!(pattern::deserialize(&v).err(), Some(DeError::UnknownVariant { variant: "Surface".to_string() }));
}

#[test]
fn variant_serialization() {
    let g = GVariant::Tuple(vec![GVariant::Int32(7), GVariant::Str("hi".to_string())]);
    let v = serde_variant::serialize(&g).unwrap();
    let (tag, payload) = serde_variant::deserialize(&v).unwrap();
    assert_eq!(tag, "(is)");
    match payload {
        Value::Tuple(items) => {
            assert_eq!(items.len(), 2);
            assert_eq!(
                items[0],
                Value::TupleStruct { name: "glib::Variant".to_string(), fields: vec![Value::Str("i".to_string()), Value::I32(7)] }
            );
        }
        _ => panic!("a tuple is written as a tuple"),
    }
}

#[test]
fn variant_containers() {
    let bytes = GVariant::Array { elem: VariantType::Byte, items: vec![GVariant::Byte(1), GVariant::Byte(2)] };
    let v = serde_variant::serialize(&bytes).unwrap();
    assert_eq!(v, Value::TupleStruct { name: "glib::Variant".to_string(), fields: vec![Value::Str("ay".to_string()), Value::Bytes(vec![1, 2])] });
    let none = GVariant::Maybe { elem: VariantType::Int32, value: None };
    let v = serde_variant::serialize(&none).unwrap();
    assert_eq!(v, Value::TupleStruct { name: "glib::Variant".to_string(), fields: vec![Value::Str("mi".to_string()), Value::Null] });
    let unit = GVariant::Tuple(vec![]);
    let v = serde_variant::serialize(&unit).unwrap();
    assert_eq!(v, Value::TupleStruct { name: "glib::Variant".to_string(), fields: vec![Value::Str("()".to_string()), Value::Unit] });
}

#[test]
fn variant_unsupported_values() {
    assert_eq!(serde_variant::serialize(&GVariant::Handle(3)).err(), Some(SerError::Custom { message: "HANDLE values not supported".to_string() }));
    let entry = GVariant::DictEntry(Box::new(GVariant::Str("k".to_string())), Box::new(GVariant::Int32(1)));
    assert_eq!(serde_variant::serialize(&entry).err(), Some(SerError::Custom { message: "DICT_ENTRY values not supported".to_string() }));
}

#[test]
fn variant_reading() {
    assert!(matches!(serde_variant::read_payload(&VariantType::Int32, &Value::I32(5)), Ok(GVariant::Int32(5))));
    assert!(matches!(serde_variant::read_payload(&VariantType::ObjectPath, &Value::Str("/org/a".to_string())), Ok(GVariant::ObjectPath(_))));
    assert!(matches!(serde_variant::read_payload(&VariantType::ObjectPath, &Value::Str("org//a".to_string())), Err(DeError::InvalidValue)));
    let arr = VariantType::Array(Box::new(VariantType::Int32));
    let read = serde_variant::read_payload(&arr, &Value::List(vec![Value::I32(1), Value::I32(2)]));
    assert!(matches!(read, Ok(GVariant::Array { ref items, .. }) if items.len() == 2));
    assert_eq!(
        serde_variant::read_payload(&arr, &Value::List(vec![Value::Bool(true)])).err(),
        Some(DeError::Custom { message: "Type mismatch: Expected 'i' got 'b'".to_string() })
    );
    assert_eq!(
        serde_variant::read_payload(&VariantType::Handle, &Value::I32(1)).err(),
        Some(DeError::Custom { message: "HANDLE values not supported".to_string() })
    );
    assert_eq!(serde_variant::deserialize(&Value::Tuple(vec![])).err(), Some(DeError::InvalidLength { len: 0 }));
    assert_eq!(serde_variant::deserialize(&Value::Tuple(vec![Value::Str("i".to_string())])).err(), Some(DeError::InvalidLength { len: 1 }));
    assert_eq!(
        serde_variant::value_type(ParsedType::Indefinite).err(),
        Some(DeError::Custom { message: "Type must be definite".to_string() })
    );
    assert!(serde_variant::is_object_path("/"));
    assert!(!serde_variant::is_object_path("/a/"));
}

#[test]
fn readable_types() {
    assert!(serde_variant::is_readable_type(&VariantType::Tuple(vec![VariantType::Int32, VariantType::Str])));
    assert!(!serde_variant::is_readable_type(&VariantType::Array(Box::new(VariantType::Signature))));
    assert!(!serde_variant::is_readable_type(&VariantType::Maybe(Box::new(VariantType::Variant))));
    assert!(serde_variant::is_readable_type(&VariantType::Handle));
}

#[test]
fn read_variant_chains_the_parsed_type() {
    assert!(matches!(serde_variant::read_variant(ParsedType::Definite(VariantType::Int32), &Value::I32(5)), Ok(Some(GVariant::Int32(5)))));
    assert!(matches!(serde_variant::read_variant(ParsedType::Definite(VariantType::Variant), &Value::I32(5)), Ok(None)));
    assert_eq!(
        serde_variant::read_variant(ParsedType::Indefinite, &Value::I32(5)).err(),
        Some(DeError::Custom { message: "Type must be definite".to_string() })
    );
    assert_eq!(
        serde_variant::read_variant(ParsedType::Invalid { message: "bad".to_string() }, &Value::Unit).err(),
        Some(DeError::Custom { message: "bad".to_string() })
    );
    assert!(serde_variant::read_variant(ParsedType::Definite(VariantType::Handle), &Value::I32(5)).is_err());
}
