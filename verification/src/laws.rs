//! The behavioural laws of the coordinator, proved once and for all
//! over the specification functions that the executable contracts use.

use vstd::prelude::*;
use crate::envelope::{EnvelopeV, MessageKind};
use crate::history::ChatMessageV;
use crate::session::{
    binary_delivery, binary_notice, chat_deliveries, next_state, open_deliveries, past_delivery,
    replay_deliveries, replay_line, welcome_delivery, PayloadV, StateV, Target,
};
use crate::text::{
    first_non_space, is_space, last_non_space_end, lemma_first_non_space_props,
    lemma_last_non_space_end_props, trimmed,
};

verus! {

/// Law: onboarding happens exactly once. From `Anonymous`, the first
/// text whose trimmed form is non-empty moves the connection to `Named`
/// with exactly that trimmed name, and no later text event moves it
/// again.
pub proof fn lemma_onboarding_once(first: Seq<char>, later: Seq<char>)
    requires
        trimmed(first).len() > 0,
    ensures
        next_state(StateV::Anonymous, first) == StateV::Named(trimmed(first)),
        next_state(next_state(StateV::Anonymous, first), later) == next_state(
            StateV::Anonymous,
            first,
        ),
{
}

/// Law: `Named` is terminal — no text event changes the state or the
/// name of a named connection.
pub proof fn lemma_named_state_stable(name: Seq<char>, text: Seq<char>)
    ensures
        next_state(StateV::Named(name), text) == StateV::Named(name),
{
}

/// Law: a blank or whitespace-only submission while anonymous leaves
/// the state unchanged. That it produces exactly one `System` envelope
/// to the sender and no broadcast is part of `Session::on_text`'s
/// contract.
pub proof fn lemma_blank_submission_keeps_anonymous(text: Seq<char>)
    requires
        trimmed(text).len() == 0,
    ensures
        next_state(StateV::Anonymous, text) == StateV::Anonymous,
{
}

/// Law: the trimmed text is empty exactly when every character of the
/// submission is blank — blank and whitespace-only submissions, and only
/// those, are rejected during onboarding.
pub proof fn lemma_trimmed_empty_iff_blank(s: Seq<char>)
    ensures
        trimmed(s).len() == 0 <==> (forall|i: int| 0 <= i < s.len() ==> is_space(s[i])),
{
    let lo = first_non_space(s, 0);
    let hi = last_non_space_end(s, s.len() as int, lo);
    lemma_first_non_space_props(s, 0);
    lemma_last_non_space_end_props(s, s.len() as int, lo);
    if trimmed(s).len() == 0 {
        assert forall|i: int| 0 <= i < s.len() implies is_space(s[i]) by {
            if i >= lo {
                assert(hi <= i);
            }
        }
    }
}

/// Law: a name taken at onboarding carries no surrounding blanks — a
/// non-empty trimmed text neither starts nor ends with one.
pub proof fn lemma_trimmed_has_no_outer_blanks(s: Seq<char>)
    requires
        trimmed(s).len() > 0,
    ensures
        !is_space(trimmed(s).first()),
        !is_space(trimmed(s).last()),
{
    let lo = first_non_space(s, 0);
    let hi = last_non_space_end(s, s.len() as int, lo);
    lemma_first_non_space_props(s, 0);
    lemma_last_non_space_end_props(s, s.len() as int, lo);
    assert(trimmed(s).first() == s[lo]);
    assert(trimmed(s).last() == s[hi - 1]);
}

/// Law: a persisted chat message fans out to exactly two deliveries —
/// the room without the sender sees `"{name}: {text}"`, and the sender
/// alone sees the echo `"Me: {text}"`.
pub proof fn lemma_chat_fanout(name: Seq<char>, text: Seq<char>)
    ensures
        chat_deliveries(name, text).len() == 2,
        chat_deliveries(name, text)[0].target == Target::Others,
        chat_deliveries(name, text)[0].payload == PayloadV::Envelope(
            EnvelopeV { kind: MessageKind::Chat, data: replay_line(name, text) },
        ),
        chat_deliveries(name, text)[1].target == Target::Sender,
        chat_deliveries(name, text)[1].payload == PayloadV::Envelope(
            EnvelopeV { kind: MessageKind::Chat, data: "Me: "@ + text },
        ),
{
}

/// Law: a binary payload is never forwarded and never echoed — the one
/// delivery is the descriptive notice, and it goes to the other room
/// members only.
pub proof fn lemma_binary_notice_excludes_sender(name: Seq<char>, byte_len: int)
    ensures
        binary_delivery(name, byte_len).target == Target::Others,
        binary_delivery(name, byte_len).payload == PayloadV::Raw(binary_notice(name, byte_len)),
{
}

/// Law: history replay preserves storage order — one delivery per
/// stored message, at the message's own position — and the welcome
/// prompt comes strictly after the whole replay.
pub proof fn lemma_replay_preserves_order(h: Seq<ChatMessageV>)
    ensures
        open_deliveries(h).len() == h.len() + 1,
        forall|i: int| 0 <= i < h.len() ==> open_deliveries(h)[i] == past_delivery(h[i]),
        open_deliveries(h)[h.len() as int] == welcome_delivery(),
{
    assert forall|i: int| 0 <= i < h.len() implies open_deliveries(h)[i] == past_delivery(
        h[i],
    ) by {
        assert(open_deliveries(h)[i] == replay_deliveries(h)[i]);
    }
}

/// Law: a record handed to the store replays verbatim — append it to
/// any stored history, and the replay of that history shows, at its
/// position, the line formed from exactly its sender and its text.
pub proof fn lemma_persisted_message_replays_verbatim(h: Seq<ChatMessageV>, m: ChatMessageV)
    ensures
        open_deliveries(h.push(m))[h.len() as int] == past_delivery(m),
        past_delivery(m).payload == PayloadV::Envelope(
            EnvelopeV { kind: MessageKind::PastMessages, data: replay_line(m.sender, m.text) },
        ),
{
    assert(open_deliveries(h.push(m))[h.len() as int] == replay_deliveries(h.push(m))[h.len() as int]);
    assert(h.push(m)[h.len() as int] == m);
}

} // verus!
