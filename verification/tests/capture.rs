use visit::Call;
use visit::Datum;
use visit::Recorder;
use visit::Shape;
use visit::TextRecorder;
use visit::Unsupported;
use visit::Visit;
use visit::Visitor;
use visit::capture;
use visit::drive;

fn assert_visit<T: Visit + ?Sized>(v: &T, expected: Datum) {
    let mut r = Recorder::new();
    v.visit(&mut r);
    assert_eq!(r.calls, vec![expected]);
}

#[test]
fn visit_simple() {
    assert_visit(&1u8, Datum::U64(1u64));
    assert_visit(&true, Datum::Bool(true));
    assert_visit(&"a string", Datum::Str("a string".to_string()));
}

#[test]
fn visit_unsupported_as_debug() {
    let mut m = serde_json::Map::new();
    m.insert("id".to_string(), serde_json::Value::from(123u64));
    m.insert("name".to_string(), serde_json::Value::from("alice"));
    let v = serde_json::Value::Object(m);

    // The value's opening serializer call is a map, so the bridge rejects
    // it and the caller delivers the debug rendering of the value instead.
    let text = format!("{:?}", v);
    let mut r = Recorder::new();
    capture(&Shape::Mapping, &text, &mut r);
    assert_eq!(r.calls, vec![Datum::Args(text)]);
}

#[test]
fn unsigned_widening() {
    assert_visit(&255u8, Datum::U64(255));
    assert_visit(&65535u16, Datum::U64(65535));
    assert_visit(&4294967295u32, Datum::U64(4294967295));
    assert_visit(&u64::MAX, Datum::U64(u64::MAX));
}

#[test]
fn signed_widening() {
    assert_visit(&-128i8, Datum::I64(-128));
    assert_visit(&-32768i16, Datum::I64(-32768));
    assert_visit(&i32::MIN, Datum::I64(-2147483648));
    assert_visit(&i64::MIN, Datum::I64(i64::MIN));
    assert_visit(&-5i8, Datum::I64(-5));
}

#[test]
fn visit_owned_text_and_bytes() {
    assert_visit(&"owned".to_string(), Datum::Str("owned".to_string()));
    assert_visit(&vec![1u8, 2, 3], Datum::Bytes(vec![1, 2, 3]));
    let bytes: &[u8] = &[9u8, 8];
    assert_visit(bytes, Datum::Bytes(vec![9, 8]));
}

#[test]
fn visit_char_recorded_as_char() {
    let mut r = Recorder::new();
    'x'.visit(&mut r);
    assert_eq!(r.calls, vec![Datum::Char('x')]);
}

#[test]
fn visit_char_text_visitor_observes_text() {
    // A visitor that does not special-case characters observes the
    // one-character string instead of the character.
    let mut t = TextRecorder::new();
    'x'.visit(&mut t);
    assert_eq!(t.calls, vec![Datum::Str("x".to_string())]);
}

#[test]
fn reference_transparency() {
    let mut direct = Recorder::new();
    5u32.visit(&mut direct);
    let mut through_ref = Recorder::new();
    let r3 = &&&5u32;
    r3.visit(&mut through_ref);
    assert_eq!(direct.calls, through_ref.calls);
    assert_eq!(through_ref.calls, vec![Datum::U64(5)]);
}

#[test]
fn reference_transparency_char() {
    let mut direct = Recorder::new();
    'x'.visit(&mut direct);
    let mut through_ref = Recorder::new();
    (&'x').visit(&mut through_ref);
    assert_eq!(direct.calls, through_ref.calls);
    assert_eq!(through_ref.calls, vec![Datum::Char('x')]);
}

#[test]
fn bridge_and_direct_capture_agree() {
    let mut direct = Recorder::new();
    1u8.visit(&mut direct);
    let mut bridged = Recorder::new();
    drive(&Shape::U8(1), &mut bridged).unwrap();
    assert_eq!(direct.calls, bridged.calls);
    assert_eq!(bridged.calls, vec![Datum::U64(1)]);
}

#[test]
fn drive_forwards_primitives() {
    let mut r = Recorder::new();
    assert_eq!(drive(&Shape::Bool(true), &mut r), Ok(()));
    assert_eq!(drive(&Shape::I8(-7), &mut r), Ok(()));
    assert_eq!(drive(&Shape::U32(70000), &mut r), Ok(()));
    assert_eq!(drive(&Shape::Char('q'), &mut r), Ok(()));
    assert_eq!(drive(&Shape::Str("hi".to_string()), &mut r), Ok(()));
    assert_eq!(drive(&Shape::Bytes(vec![0u8, 255]), &mut r), Ok(()));
    assert_eq!(
        r.calls,
        vec![
            Datum::Bool(true),
            Datum::I64(-7),
            Datum::U64(70000),
            Datum::Char('q'),
            Datum::Str("hi".to_string()),
            Datum::Bytes(vec![0, 255]),
        ]
    );
}

#[test]
fn drive_forwards_float_bits() {
    let bits = 1.5f64.to_bits();
    let mut r = Recorder::new();
    assert_eq!(drive(&Shape::F64Bits(bits), &mut r), Ok(()));
    assert_eq!(r.calls, vec![Datum::F64Bits(bits)]);
    // A 32-bit float is widened losslessly before it reaches the bridge.
    let widened = (2.5f32 as f64).to_bits();
    let mut w = Recorder::new();
    assert_eq!(drive(&Shape::F64Bits(widened), &mut w), Ok(()));
    assert_eq!(w.calls, vec![Datum::F64Bits(2.5f64.to_bits())]);
}

#[test]
fn drive_rejects_structured_shapes() {
    let shapes = vec![
        Shape::Absent,
        Shape::Unit,
        Shape::UnitStruct,
        Shape::UnitVariant,
        Shape::NewtypeStruct,
        Shape::NewtypeVariant,
        Shape::Sequence,
        Shape::Tuple,
        Shape::TupleStruct,
        Shape::TupleVariant,
        Shape::Mapping,
        Shape::Struct,
        Shape::StructVariant,
        Shape::CollectStr,
    ];
    for s in &shapes {
        let mut r = Recorder::new();
        assert_eq!(drive(s, &mut r), Err(Unsupported));
        // Zero visitor calls on rejection.
        assert!(r.calls.is_empty());
    }
}

#[test]
fn optional_present_unwraps() {
    let mut direct = Recorder::new();
    drive(&Shape::U64(7), &mut direct).unwrap();
    let mut wrapped = Recorder::new();
    drive(&Shape::Present(Box::new(Shape::U64(7))), &mut wrapped).unwrap();
    assert_eq!(direct.calls, wrapped.calls);
    assert_eq!(wrapped.calls, vec![Datum::U64(7)]);
}

#[test]
fn nested_optional_present_rejected() {
    // The unwrapping is a single level only: the inner value must itself
    // be primitive-shaped.
    let nested = Shape::Present(Box::new(Shape::Present(Box::new(Shape::I8(-3)))));
    let mut n = Recorder::new();
    assert_eq!(drive(&nested, &mut n), Err(Unsupported));
    assert!(n.calls.is_empty());
}

#[test]
fn optional_present_of_structured_rejected() {
    let mut r = Recorder::new();
    let s = Shape::Present(Box::new(Shape::Mapping));
    assert_eq!(drive(&s, &mut r), Err(Unsupported));
    assert!(r.calls.is_empty());
}

#[test]
fn capture_primitive_ignores_fallback() {
    let mut r = Recorder::new();
    capture(&Shape::Bool(false), "unused", &mut r);
    assert_eq!(r.calls, vec![Datum::Bool(false)]);
}

#[test]
fn fallback_is_deterministic() {
    let text = format!("{:?}", vec![1, 2, 3]);
    let mut r = Recorder::new();
    capture(&Shape::Sequence, &text, &mut r);
    capture(&Shape::Sequence, &text, &mut r);
    assert_eq!(
        r.calls,
        vec![Datum::Args(text.clone()), Datum::Args(text.clone())]
    );
    assert_eq!(r.calls[0], r.calls[1]);
}

#[test]
fn visitor_methods_record_each_kind() {
    let mut r = Recorder::new();
    r.visit_i64(-1);
    r.visit_u64(2);
    r.visit_f64(0.25f64.to_bits());
    r.visit_bool(true);
    r.visit_char('z');
    r.visit_str("s");
    r.visit_bytes(&[4u8]);
    r.visit_args("fallback text");
    assert_eq!(
        r.calls,
        vec![
            Datum::I64(-1),
            Datum::U64(2),
            Datum::F64Bits(0.25f64.to_bits()),
            Datum::Bool(true),
            Datum::Char('z'),
            Datum::Str("s".to_string()),
            Datum::Bytes(vec![4]),
            Datum::Args("fallback text".to_string()),
        ]
    );
}
