//! Per-connection lifecycle decisions.
//!
//! A [`Session`] holds one connection's onboarding state. For each
//! transport event — open, text, binary, close — a method here decides
//! the outbound deliveries and the registry and store updates. The
//! caller performs the sends and the persistence; every decision is
//! specified exactly.

use vstd::prelude::*;
use vstd::string::*;
use crate::envelope::{Envelope, EnvelopeV, MessageKind, envelope_json};
use crate::history::{ChatMessage, ChatMessageV, make_chat_record};
use crate::numfmt::{dec_of, u64_to_dec};
use crate::registry::{NameRegistry, names_nonempty};
use crate::text::{concat2, concat3, trim_text, trimmed};

verus! {

/// Who receives a delivery: the connection that caused the event, or
/// every other member of the room.
#[derive(Clone, Copy, PartialEq, Eq, Structural, Debug)]
pub enum Target {
    Sender,
    Others,
}

/// What a delivery carries: a structured envelope, or a raw text line
/// (join announcements and binary notices go out unwrapped).
pub enum Payload {
    Envelope(Envelope),
    Raw(String),
}

/// One outbound send the caller must perform.
pub struct Delivery {
    pub target: Target,
    pub payload: Payload,
}

/// Mathematical image of a [`Payload`].
#[verifier::ext_equal]
pub enum PayloadV {
    Envelope(EnvelopeV),
    Raw(Seq<char>),
}

/// Mathematical image of a [`Delivery`].
#[verifier::ext_equal]
pub struct DeliveryV {
    pub target: Target,
    pub payload: PayloadV,
}

impl View for Payload {
    type V = PayloadV;

    open spec fn view(&self) -> PayloadV {
        match self {
            Payload::Envelope(e) => PayloadV::Envelope(e@),
            Payload::Raw(s) => PayloadV::Raw(s@),
        }
    }
}

impl DeepView for Payload {
    type V = PayloadV;

    open spec fn deep_view(&self) -> PayloadV {
        self@
    }
}

impl View for Delivery {
    type V = DeliveryV;

    open spec fn view(&self) -> DeliveryV {
        DeliveryV { target: self.target, payload: self.payload@ }
    }
}

impl DeepView for Delivery {
    type V = DeliveryV;

    open spec fn deep_view(&self) -> DeliveryV {
        self@
    }
}

/// A connection's onboarding state: anonymous until the first non-blank
/// text arrives, then named for the rest of its lifetime.
pub enum OnboardingState {
    Anonymous,
    Named(String),
}

/// Mathematical image of an [`OnboardingState`].
#[verifier::ext_equal]
pub enum StateV {
    Anonymous,
    Named(Seq<char>),
}

impl View for OnboardingState {
    type V = StateV;

    open spec fn view(&self) -> StateV {
        match self {
            OnboardingState::Anonymous => StateV::Anonymous,
            OnboardingState::Named(n) => StateV::Named(n@),
        }
    }
}

impl DeepView for OnboardingState {
    type V = StateV;

    open spec fn deep_view(&self) -> StateV {
        self@
    }
}

/// One connection's session: its stable identifier and its onboarding
/// state.
pub struct Session {
    pub id: u64,
    pub state: OnboardingState,
}

/// What a text event asks the caller to do: perform some deliveries, or
/// first persist a chat record (the fan-out follows from
/// [`after_persist`] once the store has answered).
pub enum TextAction {
    Deliver(Vec<Delivery>),
    PersistChat(ChatMessage),
}

/// The prompt sent once history replay is done.
pub open spec fn welcome_prompt() -> Seq<char> {
    "Welcome! Please enter your name:"@
}

/// The re-prompt sent when a blank name is submitted.
pub open spec fn reprompt_text() -> Seq<char> {
    "Name cannot be empty. Please enter your name:"@
}

/// How a stored message is rendered, both during replay and when
/// broadcast to the room.
pub open spec fn replay_line(sender: Seq<char>, text: Seq<char>) -> Seq<char> {
    sender + ": "@ + text
}

/// The replay delivery for one stored message.
pub open spec fn past_delivery(m: ChatMessageV) -> DeliveryV {
    DeliveryV {
        target: Target::Sender,
        payload: PayloadV::Envelope(
            EnvelopeV { kind: MessageKind::PastMessages, data: replay_line(m.sender, m.text) },
        ),
    }
}

/// The name prompt delivery that ends the open sequence.
pub open spec fn welcome_delivery() -> DeliveryV {
    DeliveryV {
        target: Target::Sender,
        payload: PayloadV::Envelope(EnvelopeV { kind: MessageKind::Welcome, data: welcome_prompt() }),
    }
}

/// The delivery answering a blank name submission.
pub open spec fn reprompt_delivery() -> DeliveryV {
    DeliveryV {
        target: Target::Sender,
        payload: PayloadV::Envelope(EnvelopeV { kind: MessageKind::System, data: reprompt_text() }),
    }
}

/// The replay deliveries for a stored history, in storage order.
pub open spec fn replay_deliveries(h: Seq<ChatMessageV>) -> Seq<DeliveryV> {
    Seq::new(h.len(), |i: int| past_delivery(h[i]))
}

/// Everything sent on open: the whole history in storage order, then
/// the name prompt.
pub open spec fn open_deliveries(h: Seq<ChatMessageV>) -> Seq<DeliveryV> {
    replay_deliveries(h).push(welcome_delivery())
}

/// The two deliveries after a successful onboarding: the welcome to the
/// new participant, then the raw join announcement to the others.
pub open spec fn join_deliveries(name: Seq<char>) -> Seq<DeliveryV> {
    seq![
        DeliveryV {
            target: Target::Sender,
            payload: PayloadV::Envelope(
                EnvelopeV {
                    kind: MessageKind::Welcome,
                    data: "Welcome, "@ + name + "! You can start chatting now."@,
                },
            ),
        },
        DeliveryV { target: Target::Others, payload: PayloadV::Raw(name + " joined the chat!"@) },
    ]
}

/// The two deliveries for a persisted chat message: the shaped line to
/// the rest of the room, then the echo to the sender.
pub open spec fn chat_deliveries(name: Seq<char>, text: Seq<char>) -> Seq<DeliveryV> {
    seq![
        DeliveryV {
            target: Target::Others,
            payload: PayloadV::Envelope(
                EnvelopeV { kind: MessageKind::Chat, data: replay_line(name, text) },
            ),
        },
        DeliveryV {
            target: Target::Sender,
            payload: PayloadV::Envelope(EnvelopeV { kind: MessageKind::Chat, data: "Me: "@ + text }),
        },
    ]
}

/// The descriptive text a binary payload is turned into.
pub open spec fn binary_notice(name: Seq<char>, byte_len: int) -> Seq<char> {
    name + " sent binary data ("@ + dec_of(byte_len) + " bytes)"@
}

/// The single delivery for a binary payload: the notice to the rest of
/// the room. The sender receives nothing.
pub open spec fn binary_delivery(name: Seq<char>, byte_len: int) -> DeliveryV {
    DeliveryV { target: Target::Others, payload: PayloadV::Raw(binary_notice(name, byte_len)) }
}

/// How a connection is displayed: its registered name, or the decimal
/// form of its identifier while it has none.
pub open spec fn display_name(reg: Map<u64, Seq<char>>, id: u64) -> Seq<char> {
    if reg.contains_key(id) {
        reg[id]
    } else {
        dec_of(id as int)
    }
}

/// The onboarding transition for one text event: the first non-blank
/// submission names the connection with its trimmed text; everything
/// else leaves the state as it is.
pub open spec fn next_state(st: StateV, text: Seq<char>) -> StateV {
    match st {
        StateV::Named(n) => StateV::Named(n),
        StateV::Anonymous => {
            if trimmed(text).len() == 0 {
                StateV::Anonymous
            } else {
                StateV::Named(trimmed(text))
            }
        },
    }
}

/// A session and the shared registry agree: the registry has an entry
/// for the connection exactly when the session is named, and then with
/// the same non-empty name.
pub open spec fn synced(st: StateV, id: u64, reg: Map<u64, Seq<char>>) -> bool {
    match st {
        StateV::Anonymous => !reg.contains_key(id),
        StateV::Named(n) => reg.contains_key(id) && reg[id] == n && n.len() > 0,
    }
}

impl Session {
    /// A fresh session for a connection that has just opened. The
    /// identifier must not be registered: identifiers are stable and
    /// unique per live connection, and closing unregisters them.
    pub fn new(id: u64) -> (r: Session)
        ensures
            r.id == id,
            r.state@ == StateV::Anonymous,
    {
        Session { id, state: OnboardingState::Anonymous }
    }

    /// Decides everything sent on open: one replay delivery per stored
    /// message, in storage order, then the name prompt — the prompt
    /// strictly after the whole replay.
    pub fn on_open(history: &Vec<ChatMessage>) -> (r: Vec<Delivery>)
        ensures
            r.deep_view() == open_deliveries(history.deep_view()),
    {
        let ghost hv = history.deep_view();
        let mut out: Vec<Delivery> = Vec::new();
        let mut i: usize = 0;
        while i < history.len()
            invariant
                0 <= i <= history.len(),
                hv == history.deep_view(),
                hv.len() == history@.len(),
                out@.len() == i,
                forall|j: int|
                    0 <= j < i ==> #[trigger] out@[j].deep_view() == past_delivery(hv[j]),
            decreases history.len() - i,
        {
            let m = &history[i];
            let line = concat3(m.sender.as_str(), ": ", m.text.as_str());
            out.push(
                Delivery {
                    target: Target::Sender,
                    payload: Payload::Envelope(
                        Envelope { kind: MessageKind::PastMessages, data: line },
                    ),
                },
            );
            proof {
                assert(hv[i as int] == history@[i as int].deep_view());
                assert(out@[i as int].deep_view() =~~= past_delivery(hv[i as int]));
            }
            i = i + 1;
        }
        out.push(
            Delivery {
                target: Target::Sender,
                payload: Payload::Envelope(
                    Envelope { kind: MessageKind::Welcome, data: "Welcome! Please enter your name:".to_owned() },
                ),
            },
        );
        proof {
            assert(out@[hv.len() as int].deep_view() =~~= welcome_delivery());
            assert forall|j: int| 0 <= j < out@.len() implies out.deep_view()[j]
                == open_deliveries(hv)[j] by {
                if j < hv.len() {
                    assert(out@[j].deep_view() == past_delivery(hv[j]));
                    assert(open_deliveries(hv)[j] == replay_deliveries(hv)[j]);
                }
            }
            assert(out.deep_view() =~~= open_deliveries(hv));
        }
        out
    }

    /// Decides a text event. While anonymous, a blank submission is
    /// answered with one re-prompt and nothing else; a non-blank one
    /// registers the trimmed name, names the session, and yields the
    /// welcome and the join announcement. Once named, the event is chat:
    /// the record to persist is returned, and the fan-out waits for the
    /// store's answer (see [`after_persist`]).
    pub fn on_text(&mut self, reg: &mut NameRegistry, text: &str) -> (r: TextAction)
        requires
            synced(old(self).state@, old(self).id, old(reg)@),
            names_nonempty(old(reg)@),
        ensures
            final(self).id == old(self).id,
            final(self).state@ == next_state(old(self).state@, text@),
            synced(final(self).state@, final(self).id, final(reg)@),
            names_nonempty(final(reg)@),
            match old(self).state@ {
                StateV::Anonymous => {
                    if trimmed(text@).len() == 0 {
                        &&& final(reg)@ == old(reg)@
                        &&& r matches TextAction::Deliver(ds) && ds.deep_view() == seq![
                            reprompt_delivery(),
                        ]
                    } else {
                        &&& final(reg)@ == old(reg)@.insert(old(self).id, trimmed(text@))
                        &&& r matches TextAction::Deliver(ds) && ds.deep_view() == join_deliveries(
                            trimmed(text@),
                        )
                    }
                },
                StateV::Named(n) => {
                    &&& final(reg)@ == old(reg)@
                    &&& r matches TextAction::PersistChat(m) && m.text@ == text@ && m.sender@ == n
                },
            },
    {
        let existing: Option<String> = match &self.state {
            OnboardingState::Named(n) => Some(n.clone()),
            OnboardingState::Anonymous => None,
        };
        match existing {
            Some(sender) => {
                let m = make_chat_record(text, sender.as_str());
                TextAction::PersistChat(m)
            },
            None => {
                let name = trim_text(text);
                if name.as_str().unicode_len() == 0 {
                    let ds = vec![
                        Delivery {
                            target: Target::Sender,
                            payload: Payload::Envelope(
                                Envelope {
                                    kind: MessageKind::System,
                                    data: "Name cannot be empty. Please enter your name:".to_owned(),
                                },
                            ),
                        },
                    ];
                    proof {
                        assert(ds.deep_view() =~~= seq![reprompt_delivery()]);
                    }
                    TextAction::Deliver(ds)
                } else {
                    reg.register(self.id, name.clone());
                    self.state = OnboardingState::Named(name.clone());
                    let welcome = concat3("Welcome, ", name.as_str(), "! You can start chatting now.");
                    let announce = concat2(name.as_str(), " joined the chat!");
                    let ds = vec![
                        Delivery {
                            target: Target::Sender,
                            payload: Payload::Envelope(
                                Envelope { kind: MessageKind::Welcome, data: welcome },
                            ),
                        },
                        Delivery { target: Target::Others, payload: Payload::Raw(announce) },
                    ];
                    proof {
                        assert(ds.deep_view() =~~= join_deliveries(trimmed(text@)));
                    }
                    TextAction::Deliver(ds)
                }
            },
        }
    }

    /// Decides a binary event: the payload is never forwarded; the rest
    /// of the room is told who sent how many bytes, and the sender gets
    /// nothing. An unnamed sender is shown by its identifier.
    pub fn on_binary(&self, reg: &NameRegistry, byte_len: u64) -> (r: Delivery)
        ensures
            r.deep_view() == binary_delivery(display_name(reg@, self.id), byte_len as int),
    {
        let name = match reg.lookup(self.id) {
            Some(n) => n,
            None => u64_to_dec(self.id),
        };
        let mut notice = name;
        notice.append(" sent binary data (");
        let count = u64_to_dec(byte_len);
        notice.append(count.as_str());
        notice.append(" bytes)");
        Delivery { target: Target::Others, payload: Payload::Raw(notice) }
    }

    /// Decides a close event: the connection's registry entry is
    /// dropped, so a later connection with a fresh identifier starts
    /// anonymous and the registry does not grow without bound.
    pub fn on_close(&self, reg: &mut NameRegistry)
        requires
            names_nonempty(old(reg)@),
        ensures
            final(reg)@ == old(reg)@.remove(self.id),
            names_nonempty(final(reg)@),
    {
        reg.unregister(self.id);
    }
}

/// The fan-out after the store has been asked to persist a chat record:
/// on success, the room (sender excluded) sees the shaped line and the
/// sender gets the echo; on failure the message is dropped and nobody
/// sees it.
pub fn after_persist(m: &ChatMessage, saved: bool) -> (r: Vec<Delivery>)
    ensures
        saved ==> r.deep_view() == chat_deliveries(m.sender@, m.text@),
        !saved ==> r@.len() == 0,
{
    if saved {
        let line = concat3(m.sender.as_str(), ": ", m.text.as_str());
        let echo = concat2("Me: ", m.text.as_str());
        let ds = vec![
            Delivery {
                target: Target::Others,
                payload: Payload::Envelope(Envelope { kind: MessageKind::Chat, data: line }),
            },
            Delivery {
                target: Target::Sender,
                payload: Payload::Envelope(Envelope { kind: MessageKind::Chat, data: echo }),
            },
        ];
        proof {
            assert(ds.deep_view() =~~= chat_deliveries(m.sender@, m.text@));
        }
        ds
    } else {
        Vec::new()
    }
}

/// The exact text the transport must put on the wire for one delivery:
/// an envelope goes out as its JSON form, a raw payload as itself.
pub open spec fn wire_of(d: DeliveryV) -> Seq<char> {
    match d.payload {
        PayloadV::Envelope(e) => envelope_json(e.kind, e.data),
        PayloadV::Raw(s) => s,
    }
}

impl Delivery {
    /// Renders this delivery for the wire.
    pub fn wire_text(&self) -> (r: String)
        ensures
            r@ == wire_of(self@),
    {
        match &self.payload {
            Payload::Envelope(e) => e.to_json(),
            Payload::Raw(s) => s.clone(),
        }
    }
}

} // verus!
