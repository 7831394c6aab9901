use relay_upstream::containers::{Array, NeverSkip, Object};
use relay_upstream::convert::{FromValue, SerializePayload, ToValue};
use relay_upstream::datetime::DateTime;
use relay_upstream::ids::Uuid;
use relay_upstream::json::write_value;
use relay_upstream::meta_tree::{extract_child_meta, extract_meta_tree};
use relay_upstream::value::{Annotated, FloatValue, Meta, Value};

fn payload<T: ToValue>(value: &Annotated<T>) -> String {
    let mut out = String::new();
    SerializePayload(value).serialize(&mut out);
    assert_eq!(out, value.to_json());
    out
}

#[test]
fn test_unsigned_integers() {
    assert_eq!(
        <u64 as FromValue>::from_value(Annotated::new(Value::I64(-1))),
        Annotated::from_error("expected an unsigned integer", Some(Value::I64(-1)))
    );
}

#[test]
fn test_empty_containers_skipped() {
    let helper: Object<Array<String>> = vec![("items".to_string(), Annotated::new(vec![]))];
    assert_eq!(Annotated::new(helper).to_json(), "{}");
}

#[test]
fn test_empty_containers_not_skipped_if_configured() {
    let helper: Object<NeverSkip<Array<String>>> =
        vec![("items".to_string(), Annotated::new(NeverSkip(vec![])))];
    assert_eq!(Annotated::new(helper).to_json(), r#"{"items":[]}"#);
}

#[test]
fn test_wrapper_structs_and_skip_serialization() {
    let helper: Object<Box<Array<String>>> =
        vec![("items".to_string(), Annotated::new(Box::new(vec![])))];
    assert_eq!(Annotated::new(helper).to_json(), "{}");
}

#[test]
fn test_skip_serialization_on_regular_structs() {
    let wrapper: Object<u64> = vec![("foo".to_string(), Annotated::empty())];
    let helper: Object<NeverSkip<Object<u64>>> =
        vec![("foo".to_string(), Annotated::new(NeverSkip(wrapper)))];
    assert_eq!(Annotated::new(helper).to_json(), r#"{"foo":{}}"#);
}

#[test]
fn primitives_round_trip() {
    let v = <u64 as ToValue>::to_value(Annotated::new(42u64));
    assert_eq!(v, Annotated::new(Value::U64(42)));
    assert_eq!(<u64 as FromValue>::from_value(v), Annotated::new(42u64));
    let v = <i64 as ToValue>::to_value(Annotated::new(-7i64));
    assert_eq!(<i64 as FromValue>::from_value(v), Annotated::new(-7i64));
    let v = <bool as ToValue>::to_value(Annotated::new(true));
    assert_eq!(<bool as FromValue>::from_value(v), Annotated::new(true));
    let v = <String as ToValue>::to_value(Annotated::new("hi".to_string()));
    assert_eq!(<String as FromValue>::from_value(v), Annotated::new("hi".to_string()));
}

#[test]
fn mismatched_variant_is_recorded() {
    let r = <bool as FromValue>::from_value(Annotated::new(Value::String("x".to_string())));
    assert_eq!(r, Annotated::from_error("expected a boolean", Some(Value::String("x".to_string()))));
    let r = <String as FromValue>::from_value(Annotated::new(Value::U64(3)));
    assert_eq!(r, Annotated::from_error("expected a string", Some(Value::U64(3))));
    let r = <i64 as FromValue>::from_value(Annotated::new(Value::U64(u64::MAX)));
    assert_eq!(r, Annotated::from_error("expected a signed integer", Some(Value::U64(u64::MAX))));
    let r = <Array<u64> as FromValue>::from_value(Annotated::new(Value::Bool(true)));
    assert_eq!(r, Annotated::from_error("expected array", Some(Value::Bool(true))));
    let r = <Object<u64> as FromValue>::from_value(Annotated::new(Value::U64(1)));
    assert_eq!(r, Annotated::from_error("expected object", Some(Value::U64(1))));
}

#[test]
fn earlier_errors_are_kept_in_order() {
    let mut meta = Meta::new();
    meta.add_error("first".to_string(), None);
    let r = <u64 as FromValue>::from_value(Annotated(Some(Value::Bool(false)), meta));
    assert_eq!(r.0, None);
    assert_eq!(r.1.errors.len(), 2);
    assert_eq!(r.1.errors[0].message, "first");
    assert_eq!(r.1.errors[1].message, "expected an unsigned integer");
    assert_eq!(r.1.errors[1].original_value, Some(Value::Bool(false)));
}

#[test]
fn null_reads_as_absent() {
    let r = <u64 as FromValue>::from_value(Annotated::new(Value::Null));
    assert_eq!(r, Annotated::empty());
    let r = <Array<String> as FromValue>::from_value(Annotated::new(Value::Null));
    assert_eq!(r, Annotated::empty());
    let r = <DateTime as FromValue>::from_value(Annotated::new(Value::Null));
    assert_eq!(r, Annotated::empty());
}

#[test]
fn numbers_convert_between_kinds() {
    let r = <u64 as FromValue>::from_value(Annotated::new(Value::I64(5)));
    assert_eq!(r, Annotated::new(5u64));
    let half = FloatValue::new(2, 500_000).unwrap();
    let r = <u64 as FromValue>::from_value(Annotated::new(Value::F64(half)));
    assert_eq!(r, Annotated::new(2u64));
    let r = <i64 as FromValue>::from_value(Annotated::new(Value::U64(9)));
    assert_eq!(r, Annotated::new(9i64));
}

#[test]
fn arrays_keep_order_and_element_errors() {
    let items = vec![
        Annotated::new(Value::U64(1)),
        Annotated::new(Value::String("x".to_string())),
        Annotated::new(Value::U64(3)),
    ];
    let r = <Array<u64> as FromValue>::from_value(Annotated::new(Value::Array(items)));
    let got = r.0.unwrap();
    assert_eq!(got.len(), 3);
    assert_eq!(got[0], Annotated::new(1u64));
    assert_eq!(got[1], Annotated::from_error("expected an unsigned integer", Some(Value::String("x".to_string()))));
    assert_eq!(got[2], Annotated::new(3u64));
}

#[test]
fn objects_keep_insertion_order() {
    let entries: Object<u64> = vec![
        ("b".to_string(), Annotated::new(2)),
        ("a".to_string(), Annotated::new(1)),
    ];
    assert_eq!(payload(&Annotated::new(entries)), r#"{"b":2,"a":1}"#);
}

#[test]
fn tuple_arity_is_checked() {
    let three = Value::Array(vec![
        Annotated::new(Value::U64(1)),
        Annotated::new(Value::U64(2)),
        Annotated::new(Value::U64(3)),
    ]);
    let r = <(Annotated<u64>, Annotated<u64>) as FromValue>::from_value(Annotated::new(three));
    assert!(r.0.is_none());
    assert_eq!(r.1.errors.len(), 1);
    assert_eq!(r.1.errors[0].message, "expected tuple");
    let two = Value::Array(vec![Annotated::new(Value::U64(1)), Annotated::new(Value::U64(2))]);
    let r = <(Annotated<u64>, Annotated<u64>) as FromValue>::from_value(Annotated::new(two));
    let (a, b) = r.0.unwrap();
    assert_eq!(a, Annotated::new(1u64));
    assert_eq!(b, Annotated::new(2u64));
    let pair = Annotated::new((Annotated::new(1u64), Annotated::<u64>::empty()));
    assert_eq!(payload(&pair), "[1,null]");
}

#[test]
fn absent_value_is_null() {
    assert_eq!(payload(&Annotated::<u64>::empty()), "null");
    let list: Array<u64> = vec![Annotated::new(1), Annotated::empty()];
    assert_eq!(payload(&Annotated::new(list)), "[1,null]");
}

#[test]
fn datetime_parses_and_writes_seconds() {
    let epoch = <DateTime as FromValue>::from_value(Annotated::new(Value::String(
        "1970-01-01T00:00:00Z".to_string(),
    )));
    let epoch = epoch.0.unwrap();
    assert_eq!(epoch.timestamp(), 0);
    assert_eq!(epoch.subsec_nanos(), 0);
    assert_eq!(payload(&Annotated::new(epoch)), "0.0");

    let f = FloatValue::new(1000, 500_000).unwrap();
    let dt = <DateTime as FromValue>::from_value(Annotated::new(Value::F64(f))).0.unwrap();
    assert_eq!(dt.timestamp(), 1000);
    assert_eq!(dt.subsec_micros(), 500_000);
    assert_eq!(payload(&Annotated::new(dt)), "1000.5");
    let back = <DateTime as ToValue>::to_value(Annotated::new(dt));
    assert_eq!(back, Annotated::new(Value::F64(f)));
}

#[test]
fn datetime_accepts_naive_and_integer_forms() {
    let dt = <DateTime as FromValue>::from_value(Annotated::new(Value::String(
        "2012-12-12T12:12:12".to_string(),
    )));
    assert_eq!(dt.0.unwrap().timestamp(), 1355314332);
    let dt = <DateTime as FromValue>::from_value(Annotated::new(Value::I64(-5)));
    assert_eq!(dt.0.unwrap().timestamp(), -5);
    let dt = <DateTime as FromValue>::from_value(Annotated::new(Value::U64(60)));
    assert_eq!(dt.0.unwrap().timestamp(), 60);
}

#[test]
fn datetime_rejects_garbage() {
    let r = <DateTime as FromValue>::from_value(Annotated::new(Value::String("foo".to_string())));
    assert!(r.0.is_none());
    assert_eq!(r.1.errors.len(), 1);
    assert!(!r.1.errors[0].message.is_empty());
    assert_eq!(r.1.errors[0].original_value, Some(Value::String("foo".to_string())));
    let r = <DateTime as FromValue>::from_value(Annotated::new(Value::Bool(true)));
    assert_eq!(r, Annotated::from_error("expected timestamp", Some(Value::Bool(true))));
}

#[test]
fn negative_fractional_seconds() {
    let f = FloatValue::new(-2, 500_000).unwrap();
    let mut out = String::new();
    write_value(&Value::F64(f), &mut out);
    assert_eq!(out, "-1.5");
}

#[test]
fn uuid_reads_and_writes_text() {
    let text = "67e55044-10b1-426f-9247-bb680e5fe0c8";
    let r = <Uuid as FromValue>::from_value(Annotated::new(Value::String(text.to_string())));
    let id = r.0.unwrap();
    assert_eq!(id.value, 0x67e5504410b1426f9247bb680e5fe0c8u128);
    assert_eq!(<Uuid as ToValue>::to_value(Annotated::new(id)), Annotated::new(Value::String(text.to_string())));
    let bad = <Uuid as FromValue>::from_value(Annotated::new(Value::String("nope".to_string())));
    assert_eq!(bad, Annotated::from_error("expected a uuid", Some(Value::String("nope".to_string()))));
}

#[test]
fn strings_are_escaped() {
    let mut out = String::new();
    write_value(&Value::String("a\"b\\c\nd\u{1}".to_string()), &mut out);
    assert_eq!(out, "\"a\\\"b\\\\c\\nd\\u0001\"");
}

#[test]
fn values_write_as_json() {
    let v = Value::Object(vec![
        ("n".to_string(), Annotated::new(Value::Null)),
        ("b".to_string(), Annotated::new(Value::Bool(false))),
        ("i".to_string(), Annotated::new(Value::I64(i64::MIN))),
        ("a".to_string(), Annotated::new(Value::Array(vec![]))),
        ("m".to_string(), Annotated::empty()),
    ]);
    let mut out = String::new();
    write_value(&v, &mut out);
    assert_eq!(out, r#"{"n":null,"b":false,"i":-9223372036854775808,"a":[],"m":null}"#);
}

#[test]
fn meta_tree_keys_match_payload() {
    let mut bad = Meta::new();
    bad.add_error("broken".to_string(), None);
    let items = Value::Array(vec![
        Annotated::new(Value::U64(1)),
        Annotated(Some(Value::U64(2)), bad),
    ]);
    let children = extract_child_meta(items);
    assert_eq!(children.len(), 1);
    assert_eq!(children[0].0, "1");
    assert_eq!(children[0].1.meta.errors[0].message, "broken");

    let mut note = Meta::new();
    note.add_error("odd".to_string(), None);
    let nested = Value::Object(vec![
        ("plain".to_string(), Annotated::new(Value::Bool(true))),
        (
            "inner".to_string(),
            Annotated::new(Value::Array(vec![Annotated(None, note)])),
        ),
    ]);
    let tree = extract_meta_tree(Annotated::new(nested));
    assert!(tree.meta.is_empty());
    assert_eq!(tree.children.len(), 1);
    assert_eq!(tree.children[0].0, "inner");
    assert_eq!(tree.children[0].1.children[0].0, "0");
    assert!(!tree.is_empty());

    let quiet = extract_meta_tree(Annotated::new(Value::Array(vec![Annotated::new(Value::Null)])));
    assert!(quiet.is_empty());
}
