use touchpad_server::codec::{decode, decode_document, field, Button, Command, Json, ParseError};
use touchpad_server::delta::delta_from_parts;

#[test]
fn move_frame_decodes_to_relative_move() {
    let r = decode(r#"{"type":"move","data":{"x":5,"y":-3}}"#);
    assert_eq!(r, Ok(Command::MoveBy { dx: 5, dy: -3 }));
}

#[test]
fn move_with_text_coordinate_is_bad_field() {
    let r = decode(r#"{"type":"move","data":{"x":"a","y":1}}"#);
    assert_eq!(r, Err(ParseError::BadField));
}

#[test]
fn move_with_missing_coordinate_is_bad_field() {
    assert_eq!(decode(r#"{"type":"move","data":{"x":1}}"#), Err(ParseError::BadField));
    assert_eq!(decode(r#"{"type":"move","data":5}"#), Err(ParseError::BadField));
}

#[test]
fn move_without_data_is_missing_data() {
    assert_eq!(decode(r#"{"type":"move"}"#), Err(ParseError::MissingData));
    assert_eq!(decode(r#"{"type":"move","data":null}"#), Err(ParseError::MissingData));
}

#[test]
fn button_frames_decode() {
    assert_eq!(decode(r#"{"type":"left_down"}"#), Ok(Command::ButtonDown { button: Button::Left }));
    assert_eq!(decode(r#"{"type":"right_down"}"#), Ok(Command::ButtonDown { button: Button::Right }));
    assert_eq!(decode(r#"{"type":"left_up"}"#), Ok(Command::ButtonUp { button: Button::Left }));
    assert_eq!(decode(r#"{"type":"right_up"}"#), Ok(Command::ButtonUp { button: Button::Right }));
}

#[test]
fn malformed_text_is_not_parseable() {
    assert_eq!(decode("not json"), Err(ParseError::NotParseable));
    assert_eq!(decode(r#"{"type":"move""#), Err(ParseError::NotParseable));
    assert_eq!(decode(""), Err(ParseError::NotParseable));
}

#[test]
fn frame_without_string_type_is_missing_type() {
    assert_eq!(decode("{}"), Err(ParseError::MissingType));
    assert_eq!(decode(r#"{"type":null}"#), Err(ParseError::MissingType));
    assert_eq!(decode(r#"{"type":5}"#), Err(ParseError::MissingType));
    assert_eq!(decode(r#"["move"]"#), Err(ParseError::MissingType));
    assert_eq!(decode("42"), Err(ParseError::MissingType));
}

#[test]
fn unlisted_type_is_unknown() {
    assert_eq!(decode(r#"{"type":"scroll"}"#), Err(ParseError::UnknownType));
    assert_eq!(decode(r#"{"type":"Move","data":{"x":1,"y":1}}"#), Err(ParseError::UnknownType));
    assert_eq!(decode(r#"{"type":""}"#), Err(ParseError::UnknownType));
}

#[test]
fn fractional_deltas_truncate_toward_zero() {
    let r = decode(r#"{"type":"move","data":{"x":5.9,"y":-2.7}}"#);
    assert_eq!(r, Ok(Command::MoveBy { dx: 5, dy: -2 }));
}

#[test]
fn huge_deltas_saturate() {
    let r = decode(r#"{"type":"move","data":{"x":1e20,"y":-1e20}}"#);
    assert_eq!(r, Ok(Command::MoveBy { dx: i32::MAX, dy: i32::MIN }));
    let r = decode(r#"{"type":"move","data":{"x":1e3,"y":0.4}}"#);
    assert_eq!(r, Ok(Command::MoveBy { dx: 1000, dy: 0 }));
}

#[test]
fn delta_from_parts_values() {
    assert_eq!(delta_from_parts(true, 57, -1), 5);
    assert_eq!(delta_from_parts(false, 57, -1), -5);
    assert_eq!(delta_from_parts(true, 12, 2), 1200);
    assert_eq!(delta_from_parts(true, 2147483647, 0), i32::MAX);
    assert_eq!(delta_from_parts(true, 2147483648, 0), i32::MAX);
    assert_eq!(delta_from_parts(false, 2147483648, 0), i32::MIN);
    assert_eq!(delta_from_parts(false, 2147483649, 0), i32::MIN);
    assert_eq!(delta_from_parts(true, 5, -30000), 0);
    assert_eq!(delta_from_parts(false, 1, 30000), i32::MIN);
    assert_eq!(delta_from_parts(true, 0, 30000), 0);
}

#[test]
fn decode_document_reads_members() {
    let doc = Json::Object(vec![
        ("type".to_string(), "\"move\"".to_string()),
        ("data".to_string(), r#"{"x":7,"y":8}"#.to_string()),
    ]);
    assert_eq!(decode_document(&doc), Ok(Command::MoveBy { dx: 7, dy: 8 }));
    let doc = Json::Object(vec![("type".to_string(), "\"right_up\"".to_string())]);
    assert_eq!(decode_document(&doc), Ok(Command::ButtonUp { button: Button::Right }));
    assert_eq!(decode_document(&Json::Null), Err(ParseError::MissingType));
}

#[test]
fn field_parses_member_text() {
    let doc = Json::Object(vec![("x".to_string(), "-12".to_string())]);
    match field(&doc, "x") {
        Some(Json::Number(positive, mantissa, exponent)) => {
            assert!(!positive);
            assert_eq!(mantissa, 12);
            assert_eq!(exponent, 0);
        }
        other => panic!("unexpected {:?}", other),
    }
    assert!(field(&doc, "y").is_none());
    match field(&Json::Object(vec![("s".to_string(), "\"hi\"".to_string())]), "s") {
        Some(Json::Text(t)) => assert_eq!(t, "hi"),
        other => panic!("unexpected {:?}", other),
    }
}

#[test]
fn oversized_frame_is_not_parseable() {
    let mut frame = String::from("0.");
    frame.push_str(&"0".repeat(32769));
    assert_eq!(decode(&frame), Err(ParseError::NotParseable));
    let padded = format!("{}{}", r#"{"type":"left_down"}"#, " ".repeat(32768));
    assert_eq!(decode(&padded), Err(ParseError::NotParseable));
    let fitting = format!("{}{}", r#"{"type":"left_down"}"#, " ".repeat(100));
    assert_eq!(decode(&fitting), Ok(Command::ButtonDown { button: Button::Left }));
}
