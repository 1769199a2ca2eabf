use dyn_serde::error::ErrorSource;
use dyn_serde::ser::{InplaceSerializeError, InplaceSerializer, SerializeError};
use serde::ser::{SerializeMap, SerializeSeq, Serializer};
use serde_json::Value;

/// A toy backend: the serializer is a prefix, every builder collects parts
/// into a `Vec<String>`, and the output is the joined text.
type Toy = InplaceSerializer<
    String,
    String,
    String,
    Vec<String>,
    Vec<String>,
    Vec<String>,
    Vec<String>,
    Vec<String>,
    Vec<String>,
    Vec<String>,
>;

fn push(part: &str) -> impl FnOnce(Vec<String>) -> (Vec<String>, Result<(), String>) + '_ {
    move |mut b| {
        b.push(part.to_string());
        (b, Ok(()))
    }
}

#[test]
fn value_is_produced_once() {
    let mut s: Toy = InplaceSerializer::Serializer("n=".to_string());
    assert_eq!(s.serialize_with(|p| Ok(format!("{p}1"))), Ok(()));
    assert!(matches!(&s, InplaceSerializer::Produced(o) if o == "n=1"));
    for _ in 0..2 {
        assert_eq!(
            s.serialize_with(|_| panic!("the backend must not be called again")),
            Err(InplaceSerializeError::NotSerializer)
        );
        assert!(matches!(&s, InplaceSerializer::Produced(o) if o == "n=1"));
    }
    assert_eq!(s.into_result(Ok(())).ok(), Some("n=1".to_string()));
}

#[test]
fn sequence_builder_lifecycle() {
    let mut s: Toy = InplaceSerializer::Serializer("[".to_string());
    assert_eq!(s.begin_seq(|p| Ok(vec![p])), Ok(()));
    assert_eq!(s.serialize_with(|p| Ok(p)), Err(InplaceSerializeError::NotSerializer));
    assert_eq!(s.seq_part_with(push("a")), Ok(()));
    assert_eq!(s.seq_part_with(push("b")), Ok(()));
    assert_eq!(s.map_part_with(push("x")), Err(InplaceSerializeError::NotSerializeMap));
    assert_eq!(s.end_tuple(|b| Ok(b.concat())), Err(InplaceSerializeError::NotSerializeTuple));
    assert_eq!(s.end_seq(|b| Ok(b.concat() + "]")), Ok(()));
    assert!(matches!(&s, InplaceSerializer::Produced(o) if o == "[ab]"));
    assert_eq!(s.end_seq(|b| Ok(b.concat())), Err(InplaceSerializeError::NotSerializeSeq));
    assert_eq!(s.seq_part_with(push("c")), Err(InplaceSerializeError::NotSerializeSeq));
    assert!(matches!(&s, InplaceSerializer::Produced(o) if o == "[ab]"));
}

#[test]
fn every_builder_shape_round_trips() {
    let mut s: Toy = InplaceSerializer::Serializer("t".to_string());
    s.begin_tuple(|p| Ok(vec![p])).unwrap();
    s.tuple_part_with(push("1")).unwrap();
    s.end_tuple(|b| Ok(b.concat())).unwrap();
    assert_eq!(s.into_result(Ok(())).ok(), Some("t1".to_string()));

    let mut s: Toy = InplaceSerializer::Serializer("ts".to_string());
    s.begin_tuple_struct(|p| Ok(vec![p])).unwrap();
    s.tuple_struct_part_with(push("2")).unwrap();
    s.end_tuple_struct(|b| Ok(b.concat())).unwrap();
    assert_eq!(s.into_result(Ok(())).ok(), Some("ts2".to_string()));

    let mut s: Toy = InplaceSerializer::Serializer("tv".to_string());
    s.begin_tuple_variant(|p| Ok(vec![p])).unwrap();
    s.tuple_variant_part_with(push("3")).unwrap();
    s.end_tuple_variant(|b| Ok(b.concat())).unwrap();
    assert_eq!(s.into_result(Ok(())).ok(), Some("tv3".to_string()));

    let mut s: Toy = InplaceSerializer::Serializer("m".to_string());
    s.begin_map(|p| Ok(vec![p])).unwrap();
    s.map_part_with(push("k")).unwrap();
    s.map_part_with(push("v")).unwrap();
    s.end_map(|b| Ok(b.concat())).unwrap();
    assert_eq!(s.into_result(Ok(())).ok(), Some("mkv".to_string()));

    let mut s: Toy = InplaceSerializer::Serializer("s".to_string());
    s.begin_struct(|p| Ok(vec![p])).unwrap();
    s.struct_part_with(push("f")).unwrap();
    s.end_struct(|b| Ok(b.concat())).unwrap();
    assert_eq!(s.into_result(Ok(())).ok(), Some("sf".to_string()));

    let mut s: Toy = InplaceSerializer::Serializer("sv".to_string());
    s.begin_struct_variant(|p| Ok(vec![p])).unwrap();
    s.struct_variant_part_with(push("g")).unwrap();
    s.end_struct_variant(|b| Ok(b.concat())).unwrap();
    assert_eq!(s.into_result(Ok(())).ok(), Some("svg".to_string()));
}

#[test]
fn backend_failures_are_kept() {
    let mut s: Toy = InplaceSerializer::Serializer(String::new());
    assert_eq!(
        s.begin_struct(|_| Err("no structs".to_string())),
        Err(InplaceSerializeError::Error)
    );
    assert_eq!(s.struct_part_with(push("f")), Err(InplaceSerializeError::NotSerializeStruct));
    match s.into_result(Err(SerializeError::from_signal(InplaceSerializeError::Error))) {
        Err(ErrorSource::Backend(e)) => assert_eq!(e, "no structs"),
        _ => panic!("expected the backend's error"),
    }

    let mut s: Toy = InplaceSerializer::Serializer(String::new());
    s.begin_map(|p| Ok(vec![p])).unwrap();
    assert_eq!(
        s.map_part_with(|b| (b, Err("bad key".to_string()))),
        Err(InplaceSerializeError::Error)
    );
    assert_eq!(s.end_map(|b| Ok(b.concat())), Err(InplaceSerializeError::NotSerializeMap));
    assert!(matches!(&s, InplaceSerializer::Error(e) if e == "bad key"));
}

#[test]
fn unfinished_serialization_reports_a_signal() {
    let s: Toy = InplaceSerializer::Serializer(String::new());
    match s.into_result(Ok(())) {
        Err(ErrorSource::Adapter(e)) => {
            assert_eq!(e.signal(), Some(InplaceSerializeError::NotSerializer));
            assert_eq!(e.message(), "the in-place serializer is not ready");
        }
        _ => panic!("expected the adapter's signal"),
    }
    let s: Toy = InplaceSerializer::Empty;
    match s.into_result(Err(SerializeError::custom("custom".to_string()))) {
        Err(ErrorSource::Adapter(e)) => {
            assert_eq!(e.signal(), None);
            assert_eq!(e.message(), "custom");
        }
        _ => panic!("expected the adapter's error"),
    }
}

#[test]
fn serializer_human_readable_passes_through() {
    let mut s: Toy = InplaceSerializer::Serializer("x".to_string());
    assert!(!s.is_human_readable_with(|p| p.is_empty()));
    s.begin_seq(|p| Ok(vec![p])).unwrap();
    assert!(s.is_human_readable_with(|_| false));
}

#[test]
fn serialize_signal_messages() {
    assert_eq!(
        InplaceSerializeError::Error.message(),
        "the in-place serialization has done unsuccessfully"
    );
    assert_eq!(
        InplaceSerializeError::NotSerializeStructVariant.message(),
        "the in-place serializer is not ready to serialize the content of the struct variant"
    );
    assert_eq!(
        SerializeError::from_signal(InplaceSerializeError::NotSerializeTupleStruct).message(),
        "the in-place serializer is not ready to serialize the content of the tuple struct"
    );
}

type JsonSer<'a> = &'a mut serde_json::Serializer<&'a mut Vec<u8>>;
type JsonSlot<'a> = InplaceSerializer<
    JsonSer<'a>,
    (),
    serde_json::Error,
    <JsonSer<'a> as Serializer>::SerializeSeq,
    <JsonSer<'a> as Serializer>::SerializeTuple,
    <JsonSer<'a> as Serializer>::SerializeTupleStruct,
    <JsonSer<'a> as Serializer>::SerializeTupleVariant,
    <JsonSer<'a> as Serializer>::SerializeMap,
    <JsonSer<'a> as Serializer>::SerializeStruct,
    <JsonSer<'a> as Serializer>::SerializeStructVariant,
>;

/// `{"a":false,"b":0,"c":[null,1.5],"d":{"x":"y"}}`
fn scenario_value() -> Value {
    let mut inner = serde_json::Map::new();
    inner.insert("x".to_string(), Value::String("y".to_string()));
    let mut outer = serde_json::Map::new();
    outer.insert("a".to_string(), Value::Bool(false));
    outer.insert("b".to_string(), Value::from(0));
    outer.insert("c".to_string(), Value::Array(vec![Value::Null, Value::from(1.5)]));
    outer.insert("d".to_string(), Value::Object(inner));
    Value::Object(outer)
}

#[test]
fn json_through_the_serializer_slot() {
    let value = scenario_value();
    let direct = serde_json::to_vec(&value).unwrap();
    let mut buffer = Vec::new();
    let mut backend = serde_json::Serializer::new(&mut buffer);
    let mut slot: JsonSlot = InplaceSerializer::Serializer(&mut backend);
    slot.begin_map(|s| s.serialize_map(Some(4))).unwrap();
    slot.map_part_with(|mut m| {
        let r = m.serialize_entry("a", &false);
        (m, r)
    })
    .unwrap();
    slot.map_part_with(|mut m| {
        let r = m.serialize_entry("b", &0);
        (m, r)
    })
    .unwrap();
    slot.map_part_with(|mut m| {
        let r = m.serialize_key("c");
        (m, r)
    })
    .unwrap();
    slot.map_part_with(|mut m| {
        let r = m.serialize_value(&(None::<u8>, 1.5));
        (m, r)
    })
    .unwrap();
    slot.map_part_with(|mut m| {
        let r = m.serialize_entry("d", &value["d"]);
        (m, r)
    })
    .unwrap();
    slot.end_map(|m| SerializeMap::end(m)).unwrap();
    assert_eq!(slot.into_result(Ok(())).ok(), Some(()));
    assert_eq!(buffer, direct);
    assert_eq!(buffer, br#"{"a":false,"b":0,"c":[null,1.5],"d":{"x":"y"}}"#);
}

#[test]
fn json_sequence_through_the_slot() {
    let mut buffer = Vec::new();
    let mut backend = serde_json::Serializer::new(&mut buffer);
    let mut slot: JsonSlot = InplaceSerializer::Serializer(&mut backend);
    slot.begin_seq(|s| s.serialize_seq(None)).unwrap();
    for item in ["x", "y"] {
        slot.seq_part_with(|mut q| {
            let r = q.serialize_element(item);
            (q, r)
        })
        .unwrap();
    }
    slot.end_seq(|q| SerializeSeq::end(q)).unwrap();
    assert!(slot.into_result(Ok(())).is_ok());
    assert_eq!(buffer, br#"["x","y"]"#);
}

#[test]
fn each_builder_refuses_when_absent() {
    let mut s: Toy = InplaceSerializer::Serializer("x".to_string());
    assert_eq!(s.seq_part_with(push("p")), Err(InplaceSerializeError::NotSerializeSeq));
    assert_eq!(s.tuple_part_with(push("p")), Err(InplaceSerializeError::NotSerializeTuple));
    assert_eq!(
        s.tuple_struct_part_with(push("p")),
        Err(InplaceSerializeError::NotSerializeTupleStruct)
    );
    assert_eq!(
        s.tuple_variant_part_with(push("p")),
        Err(InplaceSerializeError::NotSerializeTupleVariant)
    );
    assert_eq!(s.map_part_with(push("p")), Err(InplaceSerializeError::NotSerializeMap));
    assert_eq!(s.struct_part_with(push("p")), Err(InplaceSerializeError::NotSerializeStruct));
    assert_eq!(
        s.struct_variant_part_with(push("p")),
        Err(InplaceSerializeError::NotSerializeStructVariant)
    );
    assert_eq!(
        s.end_struct_variant(|b| Ok(b.concat())),
        Err(InplaceSerializeError::NotSerializeStructVariant)
    );
    assert!(matches!(&s, InplaceSerializer::Serializer(p) if p == "x"));
    s.begin_tuple_variant(|p| Ok(vec![p])).unwrap();
    assert_eq!(
        s.begin_struct(|p| Ok(vec![p])),
        Err(InplaceSerializeError::NotSerializer)
    );
    assert_eq!(
        s.end_tuple_struct(|b| Ok(b.concat())),
        Err(InplaceSerializeError::NotSerializeTupleStruct)
    );
    assert!(matches!(&s, InplaceSerializer::SerializeTupleVariant(b) if b.len() == 1));
}
