//! The JSON wire form of envelopes, checked against exact expected
//! strings and against serde_json's string escaping.

use chat_core::envelope::{Envelope, MessageKind};
use chat_core::session::{Delivery, Payload, Target};

#[test]
fn envelope_json_has_the_expected_shape() {
    let e = Envelope { kind: MessageKind::Welcome, data: "hey".to_string() };
    assert_eq!(e.to_json(), "{\"message_type\":\"Welcome\",\"data\":\"hey\"}");
}

#[test]
fn all_kind_labels_appear_on_the_wire() {
    let cases = [
        (MessageKind::System, "System"),
        (MessageKind::Welcome, "Welcome"),
        (MessageKind::PastMessages, "PastMessages"),
        (MessageKind::Chat, "Chat"),
    ];
    for (kind, label) in cases {
        let e = Envelope { kind, data: String::new() };
        let want = format!("{{\"message_type\":\"{}\",\"data\":\"\"}}", label);
        assert_eq!(e.to_json(), want);
    }
}

#[test]
fn data_escaping_covers_quotes_backslashes_and_controls() {
    let cases = [
        ("say \"hi\"", "say \\\"hi\\\""),
        ("back\\slash", "back\\\\slash"),
        ("line\nbreak", "line\\nbreak"),
        ("tab\there", "tab\\there"),
        ("ret\rurn", "ret\\rurn"),
        ("\u{8}\u{c}", "\\b\\f"),
        ("\u{1}\u{1f}", "\\u0001\\u001f"),
        ("unicode: héllo ✓", "unicode: héllo ✓"),
    ];
    for (data, escaped) in cases {
        let e = Envelope { kind: MessageKind::Chat, data: data.to_string() };
        let want = format!("{{\"message_type\":\"Chat\",\"data\":\"{}\"}}", escaped);
        assert_eq!(e.to_json(), want);
    }
}

#[test]
fn data_escaping_matches_serde_json() {
    let samples = [
        "plain",
        "",
        "with \"quotes\" and \\slashes\\",
        "newline\nand tab\t",
        "controls: \u{0}\u{1}\u{8}\u{b}\u{c}\u{1f}",
        "mixed ✓ unicode with \"quotes\"",
    ];
    for s in samples {
        let e = Envelope { kind: MessageKind::Chat, data: s.to_string() };
        let quoted = serde_json::to_string(&serde_json::Value::String(s.to_string())).unwrap();
        let want = format!("{{\"message_type\":\"Chat\",\"data\":{}}}", quoted);
        assert_eq!(e.to_json(), want);
    }
}

#[test]
fn wire_text_wraps_envelopes_and_passes_raw_text_through() {
    let d = Delivery {
        target: Target::Others,
        payload: Payload::Raw("Alice joined the chat!".to_string()),
    };
    assert_eq!(d.wire_text(), "Alice joined the chat!");
    let d = Delivery {
        target: Target::Sender,
        payload: Payload::Envelope(Envelope {
            kind: MessageKind::Chat,
            data: "Me: hi".to_string(),
        }),
    };
    assert_eq!(d.wire_text(), "{\"message_type\":\"Chat\",\"data\":\"Me: hi\"}");
}
