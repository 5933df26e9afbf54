use chat_relay::event::{decode, decode_members, encode, event_members, ChatEvent, DecodeError, Member};

fn message(user: &str, content: &str) -> ChatEvent {
    ChatEvent::Message { user: user.to_string(), content: content.to_string() }
}

#[test]
fn decode_reads_a_message() {
    let r = decode(r#"{"type":"Message","user":"alice","content":"hi"}"#);
    assert_eq!(r, Ok(message("alice", "hi")));
}

#[test]
fn decode_ignores_extra_members() {
    let r = decode(r#"{"content":"hi","extra":5,"user":"bob","type":"Message"}"#);
    assert_eq!(r, Ok(message("bob", "hi")));
}

#[test]
fn decode_rejects_unknown_tag() {
    assert_eq!(decode(r#"{"type":"Poke"}"#), Err(DecodeError::UnknownTag));
}

#[test]
fn decode_rejects_malformed_text() {
    assert_eq!(decode("not json"), Err(DecodeError::Malformed));
    assert_eq!(decode(""), Err(DecodeError::Malformed));
    assert_eq!(decode(r#"{"type":"Message","user":"a""#), Err(DecodeError::Malformed));
}

#[test]
fn decode_rejects_missing_tag() {
    assert_eq!(decode(r#"{"user":"a","content":"b"}"#), Err(DecodeError::MissingTag));
    assert_eq!(decode("[1,2]"), Err(DecodeError::MissingTag));
}

#[test]
fn decode_rejects_missing_field() {
    assert_eq!(decode(r#"{"type":"Message","user":"a"}"#), Err(DecodeError::MissingField));
    assert_eq!(decode(r#"{"type":"Message","content":"b"}"#), Err(DecodeError::MissingField));
}

#[test]
fn decode_rejects_wrong_field_type() {
    assert_eq!(
        decode(r#"{"type":"Message","user":7,"content":"b"}"#),
        Err(DecodeError::WrongFieldType)
    );
    assert_eq!(
        decode(r#"{"type":"Message","user":"a","content":null}"#),
        Err(DecodeError::WrongFieldType)
    );
    assert_eq!(decode(r#"{"type":3}"#), Err(DecodeError::WrongFieldType));
}

#[test]
fn decode_members_reads_tag_before_fields() {
    let r = decode_members(&Member::Text("Poke".to_string()), &Member::NotText, &Member::Absent);
    assert_eq!(r, Err(DecodeError::UnknownTag));
    let r = decode_members(&Member::Text("Message".to_string()), &Member::Absent, &Member::NotText);
    assert_eq!(r, Err(DecodeError::MissingField));
    let r = decode_members(
        &Member::Text("Message".to_string()),
        &Member::Text("u".to_string()),
        &Member::Text("c".to_string()),
    );
    assert_eq!(r, Ok(message("u", "c")));
}

#[test]
fn event_members_lists_tag_then_fields() {
    let ms = event_members(&message("alice", "hi"));
    assert_eq!(
        ms,
        vec![
            ("type".to_string(), "Message".to_string()),
            ("user".to_string(), "alice".to_string()),
            ("content".to_string(), "hi".to_string()),
        ]
    );
}

#[test]
fn encode_writes_compact_json() {
    let text = encode(&message("alice", "hi"));
    assert_eq!(text, r#"{"content":"hi","type":"Message","user":"alice"}"#);
}

#[test]
fn encode_escapes_strings() {
    let text = encode(&message("a\"b", "line\nbreak"));
    assert_eq!(text, r#"{"content":"line\nbreak","type":"Message","user":"a\"b"}"#);
}

#[test]
fn round_trip_keeps_every_event() {
    let events = vec![
        message("alice", "hi"),
        message("", ""),
        message("quote \" and \\ backslash", "tab\tnewline\n"),
        message("\u{e9}l\u{e8}ve", "\u{1f600} emoji"),
        message("{\"type\":\"Poke\"}", "content"),
    ];
    for e in events {
        assert_eq!(decode(&encode(&e)), Ok(e.clone()));
    }
}
