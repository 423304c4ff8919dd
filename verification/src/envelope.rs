//! The structured outbound envelope and its JSON wire encoding.
//!
//! Clients receive envelopes as JSON objects of the shape
//! `{"message_type":"<kind>","data":"<text>"}`. The encoding, including
//! the escaping of quotes, backslashes and control characters inside
//! `data`, is specified here and produced by verified code.

use vstd::prelude::*;
use vstd::string::*;
use crate::text::push_char;

verus! {

/// The four kinds of structured messages a client can receive.
#[derive(Clone, Copy, PartialEq, Eq, Structural, Debug)]
pub enum MessageKind {
    System,
    Welcome,
    PastMessages,
    Chat,
}

/// A structured outbound message: a kind tag and a line of text.
pub struct Envelope {
    pub kind: MessageKind,
    pub data: String,
}

/// Mathematical image of an [`Envelope`].
#[verifier::ext_equal]
pub struct EnvelopeV {
    pub kind: MessageKind,
    pub data: Seq<char>,
}

impl View for Envelope {
    type V = EnvelopeV;

    open spec fn view(&self) -> EnvelopeV {
        EnvelopeV { kind: self.kind, data: self.data@ }
    }
}

impl DeepView for Envelope {
    type V = EnvelopeV;

    open spec fn deep_view(&self) -> EnvelopeV {
        self@
    }
}

/// The wire label of each message kind.
pub open spec fn kind_label(k: MessageKind) -> Seq<char> {
    match k {
        MessageKind::System => "System"@,
        MessageKind::Welcome => "Welcome"@,
        MessageKind::PastMessages => "PastMessages"@,
        MessageKind::Chat => "Chat"@,
    }
}

/// The wire label of a concrete message kind.
pub fn kind_label_str(k: MessageKind) -> (r: &'static str)
    ensures
        r@ == kind_label(k),
{
    match k {
        MessageKind::System => "System",
        MessageKind::Welcome => "Welcome",
        MessageKind::PastMessages => "PastMessages",
        MessageKind::Chat => "Chat",
    }
}

/// The lower-case hexadecimal digit for a value below sixteen.
pub open spec fn hex_digit(d: int) -> char {
    if d < 10 {
        crate::numfmt::dec_digit(d)
    } else if d == 10 {
        'a'
    } else if d == 11 {
        'b'
    } else if d == 12 {
        'c'
    } else if d == 13 {
        'd'
    } else if d == 14 {
        'e'
    } else {
        'f'
    }
}

/// How one character appears inside a JSON string literal: quote and
/// backslash are escaped, the five short control escapes are used where
/// they exist, any other control character becomes a `\u00xx` escape,
/// and everything else stands for itself.
pub open spec fn esc_char(c: char) -> Seq<char> {
    if c == '"' {
        seq!['\\', '"']
    } else if c == '\\' {
        seq!['\\', '\\']
    } else if c == '\u{8}' {
        seq!['\\', 'b']
    } else if c == '\t' {
        seq!['\\', 't']
    } else if c == '\n' {
        seq!['\\', 'n']
    } else if c == '\u{c}' {
        seq!['\\', 'f']
    } else if c == '\r' {
        seq!['\\', 'r']
    } else if (c as u32) < 0x20 {
        seq!['\\', 'u', '0', '0', hex_digit((c as u32 / 16) as int), hex_digit((c as u32 % 16) as int)]
    } else {
        seq![c]
    }
}

/// The body of a JSON string literal holding the given text.
pub open spec fn json_escape(s: Seq<char>) -> Seq<char>
    decreases s.len(),
{
    if s.len() == 0 {
        Seq::empty()
    } else {
        json_escape(s.drop_last()) + esc_char(s.last())
    }
}

/// The full JSON wire form of an envelope.
pub open spec fn envelope_json(kind: MessageKind, data: Seq<char>) -> Seq<char> {
    "{\"message_type\":\""@ + kind_label(kind) + "\",\"data\":\""@ + json_escape(data) + "\"}"@
}

/// The lower-case hexadecimal digit character for a concrete value
/// below sixteen.
pub fn hex_digit_char(d: u32) -> (c: char)
    requires
        d < 16,
    ensures
        c == hex_digit(d as int),
{
    if d < 10 {
        crate::numfmt::dec_digit_char(d as u64)
    } else if d == 10 {
        'a'
    } else if d == 11 {
        'b'
    } else if d == 12 {
        'c'
    } else if d == 13 {
        'd'
    } else if d == 14 {
        'e'
    } else {
        'f'
    }
}

/// Appends the escaped form of one character.
fn append_escaped_char(out: &mut String, c: char)
    ensures
        final(out)@ == old(out)@ + esc_char(c),
{
    if c == '"' {
        proof {
            reveal_strlit("\\\"");
        }
        out.append("\\\"");
        assert(out@ =~= old(out)@ + esc_char(c));
    } else if c == '\\' {
        proof {
            reveal_strlit("\\\\");
        }
        out.append("\\\\");
        assert(out@ =~= old(out)@ + esc_char(c));
    } else if c == '\u{8}' {
        proof {
            reveal_strlit("\\b");
        }
        out.append("\\b");
        assert(out@ =~= old(out)@ + esc_char(c));
    } else if c == '\t' {
        proof {
            reveal_strlit("\\t");
        }
        out.append("\\t");
        assert(out@ =~= old(out)@ + esc_char(c));
    } else if c == '\n' {
        proof {
            reveal_strlit("\\n");
        }
        out.append("\\n");
        assert(out@ =~= old(out)@ + esc_char(c));
    } else if c == '\u{c}' {
        proof {
            reveal_strlit("\\f");
        }
        out.append("\\f");
        assert(out@ =~= old(out)@ + esc_char(c));
    } else if c == '\r' {
        proof {
            reveal_strlit("\\r");
        }
        out.append("\\r");
        assert(out@ =~= old(out)@ + esc_char(c));
    } else if (c as u32) < 0x20 {
        proof {
            reveal_strlit("\\u00");
        }
        out.append("\\u00");
        let v = c as u32;
        push_char(out, hex_digit_char(v / 16));
        push_char(out, hex_digit_char(v % 16));
        assert(out@ =~= old(out)@ + esc_char(c));
    } else {
        push_char(out, c);
        assert(out@ =~= old(out)@ + esc_char(c));
    }
}

/// Appends the escaped body of a JSON string literal holding `s`.
pub fn append_json_escaped(out: &mut String, s: &str)
    ensures
        final(out)@ == old(out)@ + json_escape(s@),
{
    let n = s.unicode_len();
    let mut i: usize = 0;
    assert(s@.take(0) =~= Seq::<char>::empty());
    while i < n
        invariant
            0 <= i <= n == s@.len(),
            out@ == old(out)@ + json_escape(s@.take(i as int)),
        decreases n - i,
    {
        let c = s.get_char(i);
        append_escaped_char(out, c);
        proof {
            let pre = s@.take(i as int);
            let post = s@.take(i + 1);
            assert(post.drop_last() =~= pre);
            assert(post.last() == s@[i as int]);
            assert(json_escape(post) == json_escape(pre) + esc_char(s@[i as int]));
        }
        i = i + 1;
    }
    assert(s@.take(n as int) =~= s@);
}

impl Envelope {
    /// The JSON wire form of this envelope.
    pub fn to_json(&self) -> (r: String)
        ensures
            r@ == envelope_json(self.kind, self.data@),
    {
        let mut r = String::new();
        r.append("{\"message_type\":\"");
        r.append(kind_label_str(self.kind));
        r.append("\",\"data\":\"");
        append_json_escaped(&mut r, self.data.as_str());
        r.append("\"}");
        assert(r@ =~= envelope_json(self.kind, self.data@));
        r
    }
}

} // verus!
