//! The persisted chat record and its construction.
//!
//! The durable store itself is an outside collaborator: the caller
//! appends records to it and lists them back in insertion order. This
//! module fixes what a record holds — the chat text, the sender's
//! display name, and a timestamp taken at construction time.

use vstd::prelude::*;
use vstd::string::*;

verus! {

/// One persisted chat message.
pub struct ChatMessage {
    pub text: String,
    pub sender: String,
    pub timestamp: String,
}

/// Mathematical image of a [`ChatMessage`].
#[verifier::ext_equal]
pub struct ChatMessageV {
    pub text: Seq<char>,
    pub sender: Seq<char>,
    pub timestamp: Seq<char>,
}

impl View for ChatMessage {
    type V = ChatMessageV;

    open spec fn view(&self) -> ChatMessageV {
        ChatMessageV { text: self.text@, sender: self.sender@, timestamp: self.timestamp@ }
    }
}

impl DeepView for ChatMessage {
    type V = ChatMessageV;

    open spec fn deep_view(&self) -> ChatMessageV {
        self@
    }
}

/// Relies on `chrono::Utc::now`: the current wall-clock instant,
/// rendered through its `Display` form. The value depends on the clock,
/// so nothing is assumed about it.
#[verifier::external_body]
fn now_timestamp() -> (r: String) {
    chrono::Utc::now().to_string()
}

/// Builds the record to persist for a chat message: the given text and
/// sender verbatim, stamped with the current time.
pub fn make_chat_record(text: &str, sender: &str) -> (m: ChatMessage)
    ensures
        m.text@ == text@,
        m.sender@ == sender@,
{
    ChatMessage { text: text.to_owned(), sender: sender.to_owned(), timestamp: now_timestamp() }
}

} // verus!
