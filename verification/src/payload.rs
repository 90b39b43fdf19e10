//! Classification of a panic payload into a message.
//!
//! The runtime attaches an arbitrary typed payload to a panic and exposes it
//! only as an untyped value. Verified code cannot inspect a dynamic type, so
//! the payload is modelled here by what that inspection can observe: static
//! text, owned text, or an unrecognized value. The adapter that performs the
//! actual dynamic-type test on the runtime's value and builds a [`Payload`]
//! lives outside the verified library.

use vstd::prelude::*;

verus! {

/// A panic payload as the classifier observes it: the text of a static
/// string literal, the text of an owned heap-allocated string, or a value of
/// any other dynamic type, which carries no text the classifier can use.
pub enum Payload {
    StaticText(String),
    OwnedText(String),
    Opaque,
}

/// A panic message: static text, owned text, or the fixed fallback used when
/// the payload's dynamic type is unrecognized.
pub enum Message {
    StaticText(String),
    OwnedText(String),
    Fallback,
}

impl Message {
    /// The text this message renders as. The fallback variant renders as the
    /// fixed literal `"fault occurred"`.
    pub open spec fn text(self) -> Seq<char> {
        match self {
            Message::StaticText(s) => s@,
            Message::OwnedText(s) => s@,
            Message::Fallback => "fault occurred"@,
        }
    }

    /// Renders the message as its text.
    pub fn render(&self) -> (r: String)
        ensures
            r@ == self.text(),
    {
        match self {
            Message::StaticText(s) => s.clone(),
            Message::OwnedText(s) => s.clone(),
            Message::Fallback => "fault occurred".to_owned(),
        }
    }
}

/// The message that classifying a payload yields: text payloads pass their
/// text through, anything else degrades to the fallback.
pub open spec fn spec_downcast(p: Payload) -> Message {
    match p {
        Payload::StaticText(s) => Message::StaticText(s),
        Payload::OwnedText(s) => Message::OwnedText(s),
        Payload::Opaque => Message::Fallback,
    }
}

/// Retrieves the panic message from a payload.
///
/// Classification is total: an unrecognized payload yields the fallback
/// message rather than an error, so message extraction can never itself
/// panic.
pub fn downcast_payload(payload: &Payload) -> (m: Message)
    ensures
        m == spec_downcast(*payload),
{
    match payload {
        Payload::StaticText(s) => Message::StaticText(s.clone()),
        Payload::OwnedText(s) => Message::OwnedText(s.clone()),
        Payload::Opaque => Message::Fallback,
    }
}

} // verus!
