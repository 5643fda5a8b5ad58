use gobject::serde_glib::enum_::{EnumClass, EnumValue};
use gobject::serde_glib::{bytes, date, enum_, flags, gstring, time_span, uri};
use gobject::value::{DeError, SerError, Value};

fn newtype(name: &str, inner: Value) -> Value {
    Value::NewtypeStruct { name: name.to_string(), value: Box::new(inner) }
}

fn class() -> EnumClass {
    EnumClass {
        values: vec![
            EnumValue { value: 0, name: "GTK_ALIGN_FILL".to_string(), nick: "fill".to_string() },
            EnumValue { value: 1, name: "GTK_ALIGN_START".to_string(), nick: "start".to_string() },
            EnumValue { value: 3, name: "GTK_ALIGN_CENTER".to_string(), nick: "center".to_string() },
        ],
    }
}

#[test]
fn date_round_trip() {
    let v = date::serialize(738000);
    assert_eq!(v, newtype("glib::Date", Value::U32(738000)));
    assert_eq!(date::deserialize(&v), Ok(738000));
}

#[test]
fn date_zero_is_invalid() {
    let v = newtype("glib::Date", Value::U32(0));
    assert_eq!(date::deserialize(&v), Err(DeError::Custom { message: "Invalid date".to_string() }));
}

#[test]
fn date_from_bare_integer() {
    assert_eq!(date::deserialize(&Value::U64(1)), Ok(1));
    assert_eq!(date::deserialize(&Value::U64(0)), Err(DeError::Custom { message: "Invalid date".to_string() }));
    assert_eq!(date::deserialize(&Value::I64(-1)), Err(DeError::InvalidValue));
    assert_eq!(date::deserialize(&Value::U64(1 << 40)), Err(DeError::InvalidValue));
    assert_eq!(date::deserialize(&Value::Tuple(vec![Value::U32(5)])), Ok(5));
    assert_eq!(date::deserialize(&Value::List(vec![])), Err(DeError::InvalidLength { len: 0 }));
    assert_eq!(date::deserialize(&Value::Str("x".to_string())), Err(DeError::InvalidType));
}

#[test]
fn time_span_round_trip() {
    let v = time_span::serialize(-42);
    assert_eq!(v, newtype("glib::TimeSpan", Value::I64(-42)));
    assert_eq!(time_span::deserialize(&v), Ok(-42));
}

#[test]
fn flags_round_trip() {
    let v = flags::serialize("GParamFlags", 3);
    assert_eq!(v, newtype("GParamFlags", Value::U32(3)));
    assert_eq!(flags::deserialize(&v), Ok(3));
    assert_eq!(flags::deserialize(&newtype("GParamFlags", Value::I32(3))), Ok(3));
    assert_eq!(flags::deserialize(&Value::U64(3)), Ok(3));
    assert_eq!(flags::deserialize(&Value::List(vec![Value::U64(3)])), Ok(3));
    assert_eq!(flags::deserialize(&Value::TupleStruct { name: "GParamFlags".to_string(), fields: vec![Value::U32(3)] }), Ok(3));
    assert_eq!(flags::deserialize(&Value::List(vec![])), Err(DeError::InvalidLength { len: 0 }));
    assert_eq!(flags::deserialize(&Value::List(vec![Value::Str("x".to_string())])), Err(DeError::InvalidType));
    assert_eq!(flags::deserialize(&Value::I32(-3)), Err(DeError::InvalidValue));
    assert_eq!(time_span::deserialize(&Value::U64(7)), Ok(7));
    assert_eq!(time_span::deserialize(&Value::U64(u64::MAX)), Err(DeError::InvalidValue));
}

#[test]
fn bytes_written_as_u8_sequence() {
    let v = bytes::serialize(&[1, 2, 255]);
    assert_eq!(v, Value::List(vec![Value::U8(1), Value::U8(2), Value::U8(255)]));
    assert_eq!(bytes::serialize(&[]), Value::List(vec![]));
    assert_eq!(bytes::deserialize(&Value::Bytes(vec![1, 2, 255])), Ok(vec![1, 2, 255]));
    assert_eq!(bytes::deserialize(&Value::Str("ab".to_string())), Ok(vec![97, 98]));
    assert_eq!(bytes::deserialize(&v), Err(DeError::InvalidType));
}

#[test]
fn gstring_and_uri_round_trip() {
    let v = gstring::serialize("héllo");
    assert_eq!(gstring::deserialize(&v), Ok("héllo".to_string()));
    let u = uri::serialize("https://example.org/a?b");
    assert_eq!(uri::deserialize(&u), Ok("https://example.org/a?b".to_string()));
}

#[test]
fn enum_serializes_nick() {
    let c = class();
    let v = enum_::serialize(Some(&c), "GtkAlign", 3).unwrap();
    assert_eq!(
        v,
        Value::UnitVariant { name: "GtkAlign".to_string(), index: 3, variant: "center".to_string() }
    );
    assert_eq!(enum_::deserialize(Some(&c), "GtkAlign", &v), Ok(3));
}

#[test]
fn enum_unknown_value_is_refused() {
    let c = class();
    assert_eq!(
        enum_::serialize(Some(&c), "GtkAlign", 2),
        Err(SerError::Custom { message: "Invalid value `2` for enum `GtkAlign`".to_string() })
    );
    assert_eq!(
        enum_::serialize(Some(&c), "GtkAlign", -12),
        Err(SerError::Custom { message: "Invalid value `-12` for enum `GtkAlign`".to_string() })
    );
}

#[test]
fn enum_of_non_enum_type() {
    assert_eq!(
        enum_::serialize(None, "GObject", 0),
        Err(SerError::Custom { message: "GType `GObject` is not an enum".to_string() })
    );
    assert_eq!(
        enum_::deserialize(None, "GObject", &Value::Str("fill".to_string())),
        Err(DeError::Custom { message: "GType `GObject` is not an enum".to_string() })
    );
}

#[test]
fn enum_reads_every_identifier_form() {
    let c = class();
    assert_eq!(enum_::deserialize(Some(&c), "GtkAlign", &Value::Str("start".to_string())), Ok(1));
    assert_eq!(enum_::deserialize(Some(&c), "GtkAlign", &Value::Bytes(b"fill".to_vec())), Ok(0));
    assert_eq!(enum_::deserialize(Some(&c), "GtkAlign", &Value::U64(3)), Ok(3));
    assert_eq!(enum_::deserialize(Some(&c), "GtkAlign", &Value::U64(2)), Err(DeError::InvalidValue));
    assert_eq!(
        enum_::deserialize(Some(&c), "GtkAlign", &Value::Str("end".to_string())),
        Err(DeError::UnknownVariant { variant: "end".to_string() })
    );
    assert_eq!(enum_::deserialize(Some(&c), "GtkAlign", &Value::Bool(true)), Err(DeError::InvalidType));
}

#[test]
fn enum_class_lookups() {
    let c = class();
    assert_eq!(c.value(3), Some(2));
    assert_eq!(c.value(7), None);
    assert_eq!(c.value_by_nick("fill"), Some(0));
    assert_eq!(c.value_by_nick("FILL"), None);
}
