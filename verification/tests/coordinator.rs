//! Lifecycle scenarios for the session coordinator.

use chat_core::history::{make_chat_record, ChatMessage};
use chat_core::registry::NameRegistry;
use chat_core::session::{after_persist, OnboardingState, Payload, Session, Target, TextAction};
use chat_core::envelope::MessageKind;

fn envelope_of(p: &Payload) -> (&MessageKind, &str) {
    match p {
        Payload::Envelope(e) => (&e.kind, e.data.as_str()),
        Payload::Raw(_) => panic!("expected an envelope payload"),
    }
}

fn raw_of(p: &Payload) -> &str {
    match p {
        Payload::Raw(s) => s.as_str(),
        Payload::Envelope(_) => panic!("expected a raw payload"),
    }
}

#[test]
fn open_with_empty_history_prompts_for_name() {
    let history: Vec<ChatMessage> = Vec::new();
    let ds = Session::on_open(&history);
    assert_eq!(ds.len(), 1);
    assert_eq!(ds[0].target, Target::Sender);
    let (kind, data) = envelope_of(&ds[0].payload);
    assert_eq!(*kind, MessageKind::Welcome);
    assert_eq!(data, "Welcome! Please enter your name:");
}

#[test]
fn open_replays_history_in_storage_order_before_welcome() {
    let history = vec![
        ChatMessage {
            text: "first".to_string(),
            sender: "Ann".to_string(),
            timestamp: "t1".to_string(),
        },
        ChatMessage {
            text: "second".to_string(),
            sender: "Bob".to_string(),
            timestamp: "t2".to_string(),
        },
        ChatMessage {
            text: "third".to_string(),
            sender: "Ann".to_string(),
            timestamp: "t3".to_string(),
        },
    ];
    let ds = Session::on_open(&history);
    assert_eq!(ds.len(), 4);
    let expected = ["Ann: first", "Bob: second", "Ann: third"];
    for (i, want) in expected.iter().enumerate() {
        assert_eq!(ds[i].target, Target::Sender);
        let (kind, data) = envelope_of(&ds[i].payload);
        assert_eq!(*kind, MessageKind::PastMessages);
        assert_eq!(data, *want);
    }
    let (kind, data) = envelope_of(&ds[3].payload);
    assert_eq!(*kind, MessageKind::Welcome);
    assert_eq!(data, "Welcome! Please enter your name:");
}

#[test]
fn first_nonblank_text_names_the_connection_exactly_once() {
    let mut reg = NameRegistry::new();
    let mut s = Session::new(1);
    let action = s.on_text(&mut reg, "  Alice \t");
    let ds = match action {
        TextAction::Deliver(ds) => ds,
        TextAction::PersistChat(_) => panic!("onboarding must not persist"),
    };
    assert_eq!(ds.len(), 2);
    assert_eq!(ds[0].target, Target::Sender);
    let (kind, data) = envelope_of(&ds[0].payload);
    assert_eq!(*kind, MessageKind::Welcome);
    assert_eq!(data, "Welcome, Alice! You can start chatting now.");
    assert_eq!(ds[1].target, Target::Others);
    assert_eq!(raw_of(&ds[1].payload), "Alice joined the chat!");
    match &s.state {
        OnboardingState::Named(n) => assert_eq!(n, "Alice"),
        OnboardingState::Anonymous => panic!("still anonymous after a valid name"),
    }
    assert_eq!(reg.lookup(1).as_deref(), Some("Alice"));
    // A later text no longer re-triggers onboarding: it is chat.
    let action = s.on_text(&mut reg, "Alice");
    match action {
        TextAction::PersistChat(m) => {
            assert_eq!(m.text, "Alice");
            assert_eq!(m.sender, "Alice");
        },
        TextAction::Deliver(_) => panic!("a named connection's text is chat"),
    }
    match &s.state {
        OnboardingState::Named(n) => assert_eq!(n, "Alice"),
        OnboardingState::Anonymous => panic!("state must never leave Named"),
    }
}

#[test]
fn blank_submission_reprompts_and_changes_nothing() {
    let mut reg = NameRegistry::new();
    let mut s = Session::new(9);
    for blank in ["", "   ", " \t\r\n "] {
        let action = s.on_text(&mut reg, blank);
        let ds = match action {
            TextAction::Deliver(ds) => ds,
            TextAction::PersistChat(_) => panic!("a blank name must not persist anything"),
        };
        assert_eq!(ds.len(), 1);
        assert_eq!(ds[0].target, Target::Sender);
        let (kind, data) = envelope_of(&ds[0].payload);
        assert_eq!(*kind, MessageKind::System);
        assert_eq!(data, "Name cannot be empty. Please enter your name:");
        assert!(matches!(s.state, OnboardingState::Anonymous));
        assert!(reg.lookup(9).is_none());
    }
}

#[test]
fn chat_text_fans_out_echo_and_broadcast() {
    let mut reg = NameRegistry::new();
    let mut s = Session::new(4);
    s.on_text(&mut reg, "Carol");
    let action = s.on_text(&mut reg, "hi");
    let record = match action {
        TextAction::PersistChat(m) => m,
        TextAction::Deliver(_) => panic!("chat text must be persisted first"),
    };
    assert_eq!(record.text, "hi");
    assert_eq!(record.sender, "Carol");
    let ds = after_persist(&record, true);
    assert_eq!(ds.len(), 2);
    assert_eq!(ds[0].target, Target::Others);
    let (kind, data) = envelope_of(&ds[0].payload);
    assert_eq!(*kind, MessageKind::Chat);
    assert_eq!(data, "Carol: hi");
    assert_eq!(ds[1].target, Target::Sender);
    let (kind, data) = envelope_of(&ds[1].payload);
    assert_eq!(*kind, MessageKind::Chat);
    assert_eq!(data, "Me: hi");
}

#[test]
fn unsaved_chat_message_is_dropped_silently() {
    let record = make_chat_record("lost", "Carol");
    let ds = after_persist(&record, false);
    assert!(ds.is_empty());
}

#[test]
fn binary_payload_becomes_notice_to_others_only() {
    let mut reg = NameRegistry::new();
    let mut s = Session::new(2);
    s.on_text(&mut reg, "Bob");
    let d = s.on_binary(&reg, 5);
    assert_eq!(d.target, Target::Others);
    match &d.payload {
        Payload::Raw(text) => assert_eq!(text, "Bob sent binary data (5 bytes)"),
        Payload::Envelope(_) => panic!("binary notices go out as raw text"),
    }
}

#[test]
fn binary_from_unnamed_connection_falls_back_to_identifier() {
    let reg = NameRegistry::new();
    let s = Session::new(17);
    let d = s.on_binary(&reg, 0);
    assert_eq!(d.target, Target::Others);
    match &d.payload {
        Payload::Raw(text) => assert_eq!(text, "17 sent binary data (0 bytes)"),
        Payload::Envelope(_) => panic!("binary notices go out as raw text"),
    }
}

#[test]
fn close_unregisters_the_connection() {
    let mut reg = NameRegistry::new();
    let mut s = Session::new(3);
    s.on_text(&mut reg, "Dora");
    assert_eq!(reg.lookup(3).as_deref(), Some("Dora"));
    s.on_close(&mut reg);
    assert!(reg.lookup(3).is_none());
    // A fresh session may reuse the identifier and onboard again.
    let mut s2 = Session::new(3);
    let action = s2.on_text(&mut reg, "Eve");
    assert!(matches!(action, TextAction::Deliver(_)));
    assert_eq!(reg.lookup(3).as_deref(), Some("Eve"));
}

#[test]
fn persisted_record_round_trips_through_a_listed_history() {
    let mut store: Vec<ChatMessage> = Vec::new();
    let record = make_chat_record("hello there", "Ann");
    assert_eq!(record.text, "hello there");
    assert_eq!(record.sender, "Ann");
    store.push(record);
    let listed = &store[store.len() - 1];
    assert_eq!(listed.text, "hello there");
    assert_eq!(listed.sender, "Ann");
    let ds = Session::on_open(&store);
    let (kind, data) = envelope_of(&ds[0].payload);
    assert_eq!(*kind, MessageKind::PastMessages);
    assert_eq!(data, "Ann: hello there");
}

#[test]
fn two_connection_scenario() {
    let mut reg = NameRegistry::new();

    // C2 is already named Bob.
    let mut c2 = Session::new(2);
    c2.on_text(&mut reg, "Bob");

    // C1 opens: (empty) history, then the welcome prompt.
    let mut c1 = Session::new(1);
    let ds = Session::on_open(&Vec::new());
    let (kind, data) = envelope_of(&ds[ds.len() - 1].payload);
    assert_eq!(*kind, MessageKind::Welcome);
    assert_eq!(data, "Welcome! Please enter your name:");

    // C1 sends "Alice": welcome to C1, join announcement to the others
    // (which is what Bob receives).
    let action = c1.on_text(&mut reg, "Alice");
    let ds = match action {
        TextAction::Deliver(ds) => ds,
        TextAction::PersistChat(_) => panic!("onboarding must not persist"),
    };
    let (kind, data) = envelope_of(&ds[0].payload);
    assert_eq!(ds[0].target, Target::Sender);
    assert_eq!(*kind, MessageKind::Welcome);
    assert_eq!(data, "Welcome, Alice! You can start chatting now.");
    assert_eq!(ds[1].target, Target::Others);
    assert_eq!(raw_of(&ds[1].payload), "Alice joined the chat!");

    // C1 sends "hi all": after persistence, Bob sees the shaped line and
    // C1 sees the echo.
    let action = c1.on_text(&mut reg, "hi all");
    let record = match action {
        TextAction::PersistChat(m) => m,
        TextAction::Deliver(_) => panic!("chat text must be persisted first"),
    };
    let ds = after_persist(&record, true);
    assert_eq!(ds.len(), 2);
    assert_eq!(ds[0].target, Target::Others);
    let (kind, data) = envelope_of(&ds[0].payload);
    assert_eq!(*kind, MessageKind::Chat);
    assert_eq!(data, "Alice: hi all");
    assert_eq!(ds[1].target, Target::Sender);
    let (kind, data) = envelope_of(&ds[1].payload);
    assert_eq!(*kind, MessageKind::Chat);
    assert_eq!(data, "Me: hi all");
}

#[test]
fn participants_may_share_a_display_name() {
    let mut reg = NameRegistry::new();
    let mut a = Session::new(10);
    let mut b = Session::new(11);
    let first = a.on_text(&mut reg, "Sam");
    let second = b.on_text(&mut reg, "Sam");
    assert!(matches!(first, TextAction::Deliver(_)));
    assert!(matches!(second, TextAction::Deliver(_)));
    assert_eq!(reg.lookup(10).as_deref(), Some("Sam"));
    assert_eq!(reg.lookup(11).as_deref(), Some("Sam"));
}
