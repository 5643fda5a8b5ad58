use gobject::serde_cairo::path_segment::PathSegment;
use gobject::serde_cairo::rectangle_int::RectangleInt;
use gobject::serde_cairo::{path, path_segment, rectangle_int, region};
use gobject::serde_gdk4::rgba::{self, Rgba};
use gobject::serde_gdk4::{Content, ContentOptional};
use gobject::serde_gio::{icon, ListModel, ListModelOptional, ListStoreOptional, ModelItem};
use gobject::serde_graphene::point::{self, Point};
use gobject::serde_gsk4::{RenderNode, RenderNodeOptional};
use gobject::serde_gtk4::adjustment::{self, Adjustment};
use gobject::serde_gtk4::string_list;
use gobject::value::{DeError, SerError, Value};

fn f64_pair(a: f64, b: f64) -> Value {
    Value::Tuple(vec![Value::F64(a.to_bits()), Value::F64(b.to_bits())])
}

#[test]
fn graphene_point_round_trip() {
    let p = Point { x: 1.5f32.to_bits(), y: (-2.0f32).to_bits() };
    let v = point::serialize(&p);
    assert_eq!(
        v,
        Value::TupleStruct {
            name: "graphene::Point".to_string(),
            fields: vec![Value::F32(1.5f32.to_bits()), Value::F32((-2.0f32).to_bits())],
        }
    );
    assert_eq!(point::deserialize(&v), Ok(p));
}

#[test]
fn graphene_point_wrong_arity() {
    let v = Value::List(vec![Value::F32(0)]);
    assert_eq!(point::deserialize(&v), Err(DeError::InvalidType));
}

#[test]
fn gdk_rgba_round_trip() {
    let c = Rgba { red: 1.0f32.to_bits(), green: 0.5f32.to_bits(), blue: 0, alpha: 1.0f32.to_bits() };
    let v = rgba::serialize(&c);
    assert_eq!(rgba::deserialize(&v), Ok(c));
}

#[test]
fn gtk_adjustment_round_trip() {
    let a = Adjustment {
        value: 5.0f64.to_bits(),
        lower: 0,
        upper: 10.0f64.to_bits(),
        step_increment: 1.0f64.to_bits(),
        page_increment: 2.0f64.to_bits(),
        page_size: 0,
    };
    let v = adjustment::serialize(&a);
    assert_eq!(adjustment::deserialize(&v), Ok(a));
}

#[test]
fn cairo_rectangle_int_round_trip() {
    let r = RectangleInt { x: -1, y: 2, width: 30, height: 40 };
    let v = rectangle_int::serialize(&r);
    assert_eq!(rectangle_int::deserialize(&v), Ok(r));
}

#[test]
fn cairo_rectangle_int_from_self_describing_integers() {
    let v = Value::List(vec![Value::I64(-1), Value::U64(2), Value::U64(30), Value::U64(40)]);
    assert_eq!(rectangle_int::deserialize(&v), Ok(RectangleInt { x: -1, y: 2, width: 30, height: 40 }));
    let wide = Value::List(vec![Value::U64(1), Value::U64(1 << 33), Value::Bool(true), Value::U64(4)]);
    assert_eq!(rectangle_int::deserialize(&wide), Err(DeError::InvalidValue));
    let wrong = Value::List(vec![Value::U64(1), Value::Bool(true), Value::U64(1 << 33), Value::U64(4)]);
    assert_eq!(rectangle_int::deserialize(&wrong), Err(DeError::InvalidType));
    let region_json = Value::List(vec![Value::List(vec![Value::U64(1), Value::U64(2), Value::U64(3), Value::U64(4)])]);
    assert_eq!(region::deserialize(&region_json), Ok(vec![RectangleInt { x: 1, y: 2, width: 3, height: 4 }]));
}

#[test]
fn cairo_path_segments() {
    let m = PathSegment::MoveTo { x: 1.0f64.to_bits(), y: 2.0f64.to_bits() };
    let v = path_segment::serialize(&m);
    assert_eq!(
        v,
        Value::NewtypeVariant {
            name: "cairo::PathSegment".to_string(),
            index: 0,
            variant: "M".to_string(),
            value: Box::new(f64_pair(1.0, 2.0)),
        }
    );
    assert_eq!(path_segment::deserialize(&v), Ok(m));
    let z = path_segment::serialize(&PathSegment::ClosePath);
    assert_eq!(path_segment::deserialize(&z), Ok(PathSegment::ClosePath));
    let unknown = Value::UnitVariant { name: "cairo::PathSegment".to_string(), index: 9, variant: "Q".to_string() };
    assert_eq!(path_segment::deserialize(&unknown), Err(DeError::UnknownVariant { variant: "Q".to_string() }));
    let bad_z = Value::NewtypeVariant {
        name: "cairo::PathSegment".to_string(),
        index: 3,
        variant: "Z".to_string(),
        value: Box::new(f64_pair(0.0, 0.0)),
    };
    assert_eq!(path_segment::deserialize(&bad_z), Err(DeError::InvalidType));
}

#[test]
fn cairo_curve_round_trip() {
    let c = PathSegment::CurveTo {
        x1: 1.0f64.to_bits(),
        y1: 2.0f64.to_bits(),
        x2: 3.0f64.to_bits(),
        y2: 4.0f64.to_bits(),
        x3: 5.0f64.to_bits(),
        y3: 6.0f64.to_bits(),
    };
    let v = path_segment::serialize(&c);
    assert_eq!(path_segment::deserialize(&v), Ok(c));
}

#[test]
fn cairo_path_reads_bare_sequence() {
    let segs = vec![
        PathSegment::MoveTo { x: 0, y: 0 },
        PathSegment::LineTo { x: 1.0f64.to_bits(), y: 1.0f64.to_bits() },
        PathSegment::ClosePath,
    ];
    let v = path::serialize(&segs);
    match &v {
        Value::NewtypeStruct { name, value } => {
            assert_eq!(name, "cairo::Path");
            assert_eq!(path::deserialize(value), Ok(segs.clone()));
        }
        _ => panic!("path is written as a newtype struct"),
    }
    // The reader has no case for the newtype struct itself.
    assert_eq!(path::deserialize(&v), Err(DeError::InvalidType));
}

#[test]
fn cairo_region_round_trip() {
    let rects = vec![RectangleInt { x: 0, y: 0, width: 1, height: 1 }, RectangleInt { x: 5, y: 6, width: 7, height: 8 }];
    let v = region::serialize(&rects);
    assert_eq!(region::deserialize(&v), Ok(rects));
}

#[test]
fn gio_icon() {
    let v = icon::serialize(Some(". GThemedIcon edit-copy")).unwrap();
    assert_eq!(icon::deserialize(&v), Ok(". GThemedIcon edit-copy".to_string()));
    assert_eq!(icon::serialize(None), Err(SerError::Custom { message: "GIcon cannot be serialized".to_string() }));
}

#[test]
fn gio_list_model_errors() {
    let items = vec![ModelItem::Item(Value::I32(1)), ModelItem::Missing];
    assert_eq!(
        ListModel::serialize("GObject", items),
        Err(SerError::Custom { message: "Unexpected end of ListModel at index 1".to_string() })
    );
    let items = vec![ModelItem::WrongType { actual: "GtkLabel".to_string() }];
    assert_eq!(
        ListModel::serialize("GtkButton", items),
        Err(SerError::Custom {
            message: "Wrong type for ListModel index 0: Expected `GtkButton` got `GtkLabel`".to_string()
        })
    );
}

#[test]
fn gio_list_model_values() {
    let items = vec![ModelItem::Item(Value::I32(1)), ModelItem::Item(Value::I32(2))];
    assert_eq!(ListModel::serialize("GObject", items), Ok(Value::List(vec![Value::I32(1), Value::I32(2)])));
    assert_eq!(ListModelOptional::serialize("GObject", None), Ok(Value::Null));
    let some = ListModelOptional::serialize("GObject", Some(vec![])).unwrap();
    assert_eq!(some, Value::Present(Box::new(Value::List(vec![]))));
    assert_eq!(ListStoreOptional::deserialize(&Value::Null), Ok(None));
    assert_eq!(ListStoreOptional::deserialize(&some), Ok(Some(&vec![])));
    assert_eq!(ListStoreOptional::deserialize(&Value::Unit), Ok(None));
    let bare = Value::List(vec![Value::I32(1)]);
    assert_eq!(ListStoreOptional::deserialize(&bare), Ok(Some(&vec![Value::I32(1)])));
    assert_eq!(ListStoreOptional::deserialize(&Value::Bool(true)), Err(DeError::InvalidType));
}

#[test]
fn gtk_string_list() {
    let ok = string_list::serialize(&vec![Some("a".to_string()), Some("b".to_string())]).unwrap();
    assert_eq!(ok, Value::List(vec![Value::Str("a".to_string()), Value::Str("b".to_string())]));
    assert_eq!(string_list::deserialize(&ok), Ok(vec!["a".to_string(), "b".to_string()]));
    assert_eq!(
        string_list::serialize(&vec![Some("a".to_string()), None, None]),
        Err(SerError::Custom { message: "Unexpected end of StringList at index 1".to_string() })
    );
}

#[test]
fn gsk_render_node() {
    let v = RenderNode::serialize(b"ab");
    assert_eq!(
        v,
        Value::NewtypeStruct {
            name: "gsk4::RenderNode".to_string(),
            value: Box::new(Value::List(vec![Value::U8(97), Value::U8(98)])),
        }
    );
    let stored = Value::NewtypeStruct { name: "gsk4::RenderNode".to_string(), value: Box::new(Value::Bytes(b"node {}".to_vec())) };
    assert_eq!(RenderNode::deserialize(&stored), Ok(b"node {}".to_vec()));
    assert_eq!(RenderNode::deserialize(&Value::Str("node {}".to_string())), Ok(b"node {}".to_vec()));
    assert_eq!(
        RenderNode::wrong_type("GskColorNode", "GskTextureNode"),
        DeError::Custom { message: "Wrong type for RenderNode: Expected GskColorNode, got GskTextureNode".to_string() }
    );
    assert_eq!(RenderNodeOptional::serialize(None), Value::Null);
    let some = RenderNodeOptional::serialize(Some(b"x"));
    assert_eq!(some, Value::Present(Box::new(RenderNode::serialize(b"x"))));
    assert_eq!(RenderNodeOptional::deserialize(&Value::Null), Ok(None));
    assert_eq!(RenderNodeOptional::deserialize(&Value::Unit), Ok(None));
    assert_eq!(RenderNodeOptional::deserialize(&Value::Present(Box::new(Value::Bytes(b"x".to_vec())))), Ok(Some(b"x".to_vec())));
    assert_eq!(RenderNodeOptional::deserialize(&Value::Str("x".to_string())), Ok(Some(b"x".to_vec())));
}

#[test]
fn gdk_content_values() {
    assert_eq!(Content::serialize(b"ab"), Value::List(vec![Value::U8(97), Value::U8(98)]));
    assert_eq!(Content::deserialize(&Value::Bytes(b"ab".to_vec())), Ok(b"ab".to_vec()));
    assert_eq!(ContentOptional::serialize(None), Value::Null);
    assert_eq!(ContentOptional::serialize(Some(b"a")), Value::Present(Box::new(Value::List(vec![Value::U8(97)]))));
    assert_eq!(ContentOptional::deserialize(&Value::Unit), Ok(None));
    assert_eq!(ContentOptional::deserialize(&Value::Null), Ok(None));
    assert_eq!(ContentOptional::deserialize(&Value::Str("a".to_string())), Ok(Some(b"a".to_vec())));
    assert_eq!(ContentOptional::deserialize(&Value::I32(1)), Err(DeError::InvalidType));
}
