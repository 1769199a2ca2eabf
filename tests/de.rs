use dyn_serde::de::{
    DeserializeError, InplaceDeserializeError, InplaceDeserializeSeed, InplaceDeserializer,
    InplaceEnumAccess, InplaceMapAccess, InplaceSeqAccess, InplaceVisitor,
};
use dyn_serde::error::ErrorSource;
use serde::Deserialize;

#[test]
fn hint_consumes_the_deserializer_once() {
    let mut de: InplaceDeserializer<u32, String> = InplaceDeserializer::Deserializer(7);
    let mut seen = 0;
    assert_eq!(
        de.deserialize_with(|d| {
            seen = d;
            Ok(())
        }),
        Ok(())
    );
    assert_eq!(seen, 7);
    assert!(matches!(de, InplaceDeserializer::Empty));
    for _ in 0..2 {
        assert_eq!(
            de.deserialize_with(|_| panic!("the backend must not be called again")),
            Err(InplaceDeserializeError::NotDeserializer)
        );
        assert!(matches!(de, InplaceDeserializer::Empty));
    }
}

#[test]
fn hint_failure_keeps_the_backend_error() {
    let mut de: InplaceDeserializer<u32, String> = InplaceDeserializer::Deserializer(7);
    assert_eq!(
        de.deserialize_with(|_| Err("bad input".to_string())),
        Err(InplaceDeserializeError::Error)
    );
    assert!(matches!(&de, InplaceDeserializer::Error(e) if e == "bad input"));
    assert_eq!(
        de.deserialize_with(|_| Ok(())),
        Err(InplaceDeserializeError::NotDeserializer)
    );
    let signal = DeserializeError::from_signal(InplaceDeserializeError::Error);
    match de.into_result(Err(signal)) {
        Err(ErrorSource::Backend(e)) => assert_eq!(e, "bad input"),
        _ => panic!("the captured error must come first"),
    }
}

#[test]
fn into_result_falls_back_to_the_signal() {
    let de: InplaceDeserializer<u32, String> = InplaceDeserializer::Empty;
    match de.into_result(Err(DeserializeError::custom("no".to_string()))) {
        Err(ErrorSource::Adapter(e)) => assert_eq!(e.message(), "no"),
        _ => panic!("expected the adapter's error"),
    }
    let de: InplaceDeserializer<u32, String> = InplaceDeserializer::Error("kept".to_string());
    assert!(de.into_result(Ok(())).is_ok());
}

#[test]
fn deserializer_human_readable_passes_through() {
    let mut de: InplaceDeserializer<bool, String> = InplaceDeserializer::Deserializer(false);
    assert!(!de.is_human_readable_with(|d| *d));
    let _ = de.deserialize_with(|_| Ok(()));
    assert!(de.is_human_readable_with(|_| false));
}

#[test]
fn visitor_produces_one_value() {
    let mut v: InplaceVisitor<u8, u32> = InplaceVisitor::Visitor(3);
    assert_eq!(v.expecting_with(|x| *x), Ok(3));
    assert!(v.visit_with(|x| Ok(x as u32 * 10)).is_ok());
    assert_eq!(
        v.expecting_with(|x| *x),
        Err("nothing (the deserialization has done successfully)")
    );
    let again = v.visit_with(|_| Ok(0)).unwrap_err();
    assert_eq!(again.signal(), Some(InplaceDeserializeError::NotVisitor));
    assert_eq!(again.message(), "the visitor is not ready");
    assert_eq!(v.into_result(Ok(())).ok(), Some(30));
}

#[test]
fn visitor_failure_empties_the_slot() {
    let mut v: InplaceVisitor<u8, u32> = InplaceVisitor::Visitor(3);
    let e = v
        .visit_with(|_| Err(DeserializeError::custom("rejected".to_string())))
        .unwrap_err();
    assert_eq!(e.message(), "rejected");
    assert_eq!(e.signal(), None);
    assert!(matches!(v, InplaceVisitor::Empty));
    assert_eq!(v.expecting_with(|x| *x), Err("nothing (the visitor is not ready)"));
    let r = v.into_result(Err(InplaceDeserializeError::Error)).unwrap_err();
    assert_eq!(r.signal(), Some(InplaceDeserializeError::Error));
    assert_eq!(r.message(), "the deserialization has done unsuccessfully");
}

#[test]
fn visitor_without_visit_reports_not_visitor() {
    let v: InplaceVisitor<u8, u32> = InplaceVisitor::Visitor(3);
    let r = v.into_result(Ok(())).unwrap_err();
    assert_eq!(r.signal(), Some(InplaceDeserializeError::NotVisitor));
}

#[test]
fn seed_results() {
    let mut seed: InplaceDeserializeSeed<u8, String> = InplaceDeserializeSeed::DeserializeSeed(1);
    assert!(seed.deserialize_with(|x| Ok(format!("v{x}"))).is_ok());
    let again = seed.deserialize_with(|_| Ok(String::new())).unwrap_err();
    assert_eq!(again.signal(), Some(InplaceDeserializeError::NotDeserializeSeed));
    assert_eq!(seed.into_result(Ok(())).ok(), Some("v1".to_string()));

    let seed: InplaceDeserializeSeed<u8, String> = InplaceDeserializeSeed::DeserializeSeed(1);
    assert_eq!(seed.into_result_option::<()>(Ok(None)).ok(), Some(None));

    let seed: InplaceDeserializeSeed<u8, String> = InplaceDeserializeSeed::Value("x".to_string());
    assert_eq!(
        seed.into_result_option(Ok(Some(()))).ok(),
        Some(Some("x".to_string()))
    );

    let seed: InplaceDeserializeSeed<u8, String> = InplaceDeserializeSeed::Empty;
    let e = seed
        .into_result_option::<()>(Err(InplaceDeserializeError::NotMapAccess))
        .unwrap_err();
    assert_eq!(e.signal(), Some(InplaceDeserializeError::NotMapAccess));
}

#[test]
fn entry_pairs_key_and_value() {
    let key: InplaceDeserializeSeed<u8, &str> = InplaceDeserializeSeed::Value("k");
    let value: InplaceDeserializeSeed<u8, i32> = InplaceDeserializeSeed::Value(-4);
    assert_eq!(
        value.into_entry(key, Ok(Some(((), ())))).ok(),
        Some(Some(("k", -4)))
    );

    let key: InplaceDeserializeSeed<u8, &str> = InplaceDeserializeSeed::DeserializeSeed(0);
    let value: InplaceDeserializeSeed<u8, i32> = InplaceDeserializeSeed::Value(-4);
    let e = value.into_entry(key, Ok(Some(((), ())))).unwrap_err();
    assert_eq!(e.signal(), Some(InplaceDeserializeError::NotDeserializeSeed));

    let key: InplaceDeserializeSeed<u8, &str> = InplaceDeserializeSeed::DeserializeSeed(0);
    let value: InplaceDeserializeSeed<u8, i32> = InplaceDeserializeSeed::DeserializeSeed(0);
    assert_eq!(value.into_entry::<u8, &str, ((), ())>(key, Ok(None)).ok(), Some(None));
}

#[test]
fn pair_with_variant() {
    let seed: InplaceDeserializeSeed<u8, &str> = InplaceDeserializeSeed::Value("A");
    assert_eq!(seed.into_pair(Ok(5u8)).ok(), Some(("A", 5)));
    let seed: InplaceDeserializeSeed<u8, &str> = InplaceDeserializeSeed::Value("A");
    let e = seed
        .into_pair::<u8>(Err(InplaceDeserializeError::Error))
        .unwrap_err();
    assert_eq!(e.signal(), Some(InplaceDeserializeError::Error));
    let seed: InplaceDeserializeSeed<u8, &str> = InplaceDeserializeSeed::Empty;
    let e = seed.into_pair(Ok(5u8)).unwrap_err();
    assert_eq!(e.signal(), Some(InplaceDeserializeError::NotDeserializeSeed));
}

/// A cursor over a list that counts how often it was asked.
struct Cursor {
    items: Vec<u32>,
    next: usize,
    asked: usize,
}

fn read(mut c: Cursor) -> (Cursor, Result<Option<u32>, String>) {
    c.asked += 1;
    let item = c.items.get(c.next).copied();
    c.next += 1;
    (c, Ok(item))
}

#[test]
fn sequence_exhaustion_repeats() {
    let cursor = Cursor { items: vec![10, 20], next: 0, asked: 0 };
    let mut seq: InplaceSeqAccess<Cursor, String> = InplaceSeqAccess::SeqAccess(cursor);
    assert_eq!(seq.size_hint_with(|c| Some(c.items.len() - c.next)), Some(2));
    assert_eq!(seq.next_with(read), Ok(Some(10)));
    assert_eq!(seq.size_hint_with(|c| Some(c.items.len() - c.next)), Some(1));
    assert_eq!(seq.next_with(read), Ok(Some(20)));
    assert_eq!(seq.next_with(read), Ok(None));
    assert!(matches!(seq, InplaceSeqAccess::Exhausted));
    for _ in 0..3 {
        assert_eq!(
            seq.next_with(|_: Cursor| -> (Cursor, Result<Option<u32>, String>) {
                panic!("an exhausted cursor must not be asked")
            }),
            Ok(None)
        );
    }
    assert_eq!(seq.size_hint_with(|_| Some(9)), None);
}

#[test]
fn sequence_failure_is_terminal() {
    let cursor = Cursor { items: vec![1], next: 0, asked: 0 };
    let mut seq: InplaceSeqAccess<Cursor, String> = InplaceSeqAccess::SeqAccess(cursor);
    assert_eq!(
        seq.next_with(|c| (c, Err::<Option<u32>, String>("broken".to_string()))),
        Err(InplaceDeserializeError::Error)
    );
    assert_eq!(seq.next_with(read), Err(InplaceDeserializeError::NotSeqAccess));
    match seq.into_result(Err(DeserializeError::from_signal(InplaceDeserializeError::Error))) {
        Err(ErrorSource::Backend(e)) => assert_eq!(e, "broken"),
        _ => panic!("expected the cursor's error"),
    }
}

#[test]
fn map_keys_values_and_exhaustion() {
    let cursor = Cursor { items: vec![1], next: 0, asked: 0 };
    let mut map: InplaceMapAccess<Cursor, String> = InplaceMapAccess::MapAccess(cursor);
    assert_eq!(map.next_with(read), Ok(Some(1)));
    assert_eq!(map.next_value_with(|c| (c, Ok::<&str, String>("one"))), Ok("one"));
    assert_eq!(map.size_hint_with(|c| Some(c.asked)), Some(1));
    assert_eq!(map.next_with(read), Ok(None));
    assert_eq!(map.next_with(read), Ok(None));
    assert_eq!(
        map.next_value_with(|c| (c, Ok::<&str, String>("late"))),
        Err(InplaceDeserializeError::NotMapAccess)
    );
    assert_eq!(map.size_hint_with(|_| Some(1)), None);
}

#[test]
fn map_value_failure_is_kept() {
    let cursor = Cursor { items: vec![], next: 0, asked: 0 };
    let mut map: InplaceMapAccess<Cursor, String> = InplaceMapAccess::MapAccess(cursor);
    assert_eq!(
        map.next_value_with(|c| (c, Err::<u8, String>("no value".to_string()))),
        Err(InplaceDeserializeError::Error)
    );
    assert_eq!(map.next_with(read), Err(InplaceDeserializeError::NotMapAccess));
    assert!(matches!(&map, InplaceMapAccess::Error(e) if e == "no value"));
}

#[test]
fn enum_is_read_in_two_phases() {
    let mut access: InplaceEnumAccess<&str, u8, String> = InplaceEnumAccess::EnumAccess("Tag");
    assert_eq!(
        access.payload_with(|_| Ok(())),
        Err(InplaceDeserializeError::NotVariantAccess)
    );
    assert!(matches!(access, InplaceEnumAccess::EnumAccess("Tag")));
    assert_eq!(access.variant_with(|name| Ok(name.len() as u8)), Ok(()));
    assert!(matches!(access, InplaceEnumAccess::VariantAccess(3)));
    assert_eq!(
        access.variant_with(|_| Ok(0)),
        Err(InplaceDeserializeError::NotEnumAccess)
    );
    let mut payload = 0;
    assert_eq!(
        access.payload_with(|v| {
            payload = v;
            Ok(())
        }),
        Ok(())
    );
    assert_eq!(payload, 3);
    assert_eq!(
        access.payload_with(|_| Ok(())),
        Err(InplaceDeserializeError::NotVariantAccess)
    );
}

#[test]
fn enum_failure_is_kept() {
    let mut access: InplaceEnumAccess<&str, u8, String> = InplaceEnumAccess::EnumAccess("Tag");
    assert_eq!(
        access.variant_with(|_| Err("unknown".to_string())),
        Err(InplaceDeserializeError::Error)
    );
    let r = access.into_result(Err(DeserializeError::from_signal(InplaceDeserializeError::Error)));
    assert!(matches!(r, Err(ErrorSource::Backend(e)) if e == "unknown"));
}

#[test]
fn deserialize_signal_messages() {
    assert_eq!(InplaceDeserializeError::Completed.message(), "the deserialization has done successfully");
    assert_eq!(InplaceDeserializeError::NotDeserializer.message(), "the deserializer is not ready");
    assert_eq!(
        InplaceDeserializeError::NotVariantAccess.message(),
        "the visitor is not ready to deserialize the contents of the enum variant"
    );
    assert_eq!(
        DeserializeError::from_signal(InplaceDeserializeError::NotSeqAccess).message(),
        "the visitor is not ready to deserialize the contents of the sequence"
    );
}

#[test]
fn json_through_the_deserializer_slot() {
    let bytes = br#"{"a":false,"b":0,"c":[null,1.5],"d":{"x":"y"}}"#;
    let direct: serde_json::Value = serde_json::from_slice(bytes).unwrap();
    let mut backend = serde_json::Deserializer::from_slice(bytes);
    let mut slot: InplaceDeserializer<_, serde_json::Error> =
        InplaceDeserializer::Deserializer(&mut backend);
    let mut out = None;
    let r = slot.deserialize_with(|d| {
        out = Some(serde_json::Value::deserialize(d)?);
        Ok(())
    });
    assert_eq!(r, Ok(()));
    assert_eq!(out, Some(direct));
}

#[test]
fn json_error_is_captured_by_the_slot() {
    let bytes = br#"{"a":"#;
    let direct = serde_json::from_slice::<serde_json::Value>(bytes).unwrap_err().to_string();
    let mut backend = serde_json::Deserializer::from_slice(bytes);
    let mut slot: InplaceDeserializer<_, serde_json::Error> =
        InplaceDeserializer::Deserializer(&mut backend);
    let r = slot.deserialize_with(|d| serde_json::Value::deserialize(d).map(|_| ()));
    assert_eq!(r, Err(InplaceDeserializeError::Error));
    match slot.into_result(Err(DeserializeError::from_signal(InplaceDeserializeError::Error))) {
        Err(ErrorSource::Backend(e)) => assert_eq!(e.to_string(), direct),
        _ => panic!("expected the backend's error"),
    }
}

#[test]
fn entry_failure_wins_over_held_values() {
    let key: InplaceDeserializeSeed<u8, &str> = InplaceDeserializeSeed::Value("k");
    let value: InplaceDeserializeSeed<u8, i32> = InplaceDeserializeSeed::Value(-4);
    let e = value
        .into_entry::<u8, &str, ((), ())>(key, Err(InplaceDeserializeError::Error))
        .unwrap_err();
    assert_eq!(e.signal(), Some(InplaceDeserializeError::Error));
}

#[test]
fn element_failure_wins_over_held_value() {
    let seed: InplaceDeserializeSeed<u8, String> = InplaceDeserializeSeed::Value("x".to_string());
    let e = seed
        .into_result_option::<()>(Err(InplaceDeserializeError::Error))
        .unwrap_err();
    assert_eq!(e.signal(), Some(InplaceDeserializeError::Error));
    let seed: InplaceDeserializeSeed<u8, String> = InplaceDeserializeSeed::DeserializeSeed(0);
    let e = seed.into_result_option(Ok(Some(()))).unwrap_err();
    assert_eq!(e.signal(), Some(InplaceDeserializeError::NotDeserializeSeed));
}
