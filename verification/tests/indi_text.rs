use rekos::indi::{IndiPerm, IndiProperty, IndiRule, IndiState};
use rekos::json::{Json, JsonMember, JsonNumber};
use rekos::text::{parse_i64, parse_u32, trim_str, u64_to_string};

fn s(x: &str) -> Json {
    Json::Str(x.to_string())
}

fn obj(members: Vec<(&str, Json)>) -> Json {
    Json::Object(
        members
            .into_iter()
            .map(|(k, v)| JsonMember { key: k.to_string(), value: v })
            .collect(),
    )
}

#[test]
fn indi_enums_from_wire() {
    assert_eq!(IndiState::from_json(&s("Ok")), IndiState::Okay);
    assert_eq!(IndiState::from_json(&s("Busy")), IndiState::Busy);
    assert_eq!(IndiPerm::from_json(&s("rw")), IndiPerm::Rw);
    assert!(IndiPerm::from_json(&s("wo")).writable());
    assert!(!IndiPerm::from_json(&s("ro")).writable());
    assert_eq!(IndiRule::from_json(&s("AnyOfMany")), IndiRule::OneOfMany);
    assert_eq!(IndiRule::from_json(&Json::Number(JsonNumber::PosInt(1))), IndiRule::AtMostOne);
}

#[test]
fn property_from_json_and_compact_merge() {
    let full = obj(vec![
        ("name", s("CCD_GAIN")),
        ("label", s("Gain")),
        ("group", s("Main")),
        ("state", s("Idle")),
        ("perm", s("rw")),
        (
            "numbers",
            Json::Array(vec![obj(vec![
                ("name", s("GAIN")),
                ("label", s("Gain")),
                ("value", Json::Number(JsonNumber::PosInt(100))),
                ("min", Json::Number(JsonNumber::PosInt(0))),
                ("max", Json::Number(JsonNumber::PosInt(500))),
            ])]),
        ),
    ]);
    let mut p = IndiProperty::from_json(&full).unwrap();
    assert_eq!(p.name, "CCD_GAIN");
    assert_eq!(p.elements.len(), 1);
    assert!(!p.is_switch());
    let compact = obj(vec![
        ("state", s("Ok")),
        (
            "numbers",
            Json::Array(vec![
                obj(vec![("name", s("GAIN")), ("value", Json::Number(JsonNumber::PosInt(250)))]),
                obj(vec![("name", s("NOPE")), ("value", Json::Number(JsonNumber::PosInt(1)))]),
            ]),
        ),
    ]);
    p.merge_compact(&compact);
    assert_eq!(p.state, IndiState::Okay);
    assert_eq!(p.elements.len(), 1);
    assert_eq!(p.elements[0].label, "Gain");
    match &p.elements[0].value {
        rekos::indi::IndiElementValue::Number { value, max, .. } => {
            assert_eq!(*value, Some(JsonNumber::PosInt(250)));
            assert_eq!(*max, Some(JsonNumber::PosInt(500)));
        }
        _ => panic!("number expected"),
    }
}

#[test]
fn integer_text() {
    assert_eq!(parse_i64("-42"), Some(-42));
    assert_eq!(parse_i64("+7"), Some(7));
    assert_eq!(parse_i64("9223372036854775808"), None);
    assert_eq!(parse_i64(" 1"), None);
    assert_eq!(parse_u32("4294967295"), Some(4294967295));
    assert_eq!(parse_u32("-1"), None);
    assert_eq!(u64_to_string(0), "0");
    assert_eq!(u64_to_string(18446744073709551615), "18446744073709551615");
    assert_eq!(trim_str("\t a b \n"), "a b");
}

