use vstd::prelude::*;

use crate::text::prefixed;

verus! {

/// What a message holds.
#[derive(Debug, Clone, Copy, PartialEq, Eq, Structural)]
pub enum MessageType {
    Text,
    Image,
}

impl MessageType {
    pub open spec fn text_spec(self) -> Seq<char> {
        match self {
            MessageType::Text => "text"@,
            MessageType::Image => "image"@,
        }
    }

    /// The type's text.
    pub fn as_str(&self) -> (r: &'static str)
        ensures
            r@ == self.text_spec(),
    {
        proof {
            reveal_strlit("text");
            reveal_strlit("image");
        }
        match self {
            MessageType::Text => "text",
            MessageType::Image => "image",
        }
    }

    pub open spec fn parse_spec(s: Seq<char>) -> Option<MessageType> {
        if s == "text"@ {
            Some(MessageType::Text)
        } else if s == "image"@ {
            Some(MessageType::Image)
        } else {
            None
        }
    }

    /// The type a text names, exactly `text` or `image`.
    pub fn parse(s: &String) -> (r: Option<MessageType>)
        ensures
            r == Self::parse_spec(s@),
    {
        if *s == String::from_str("text") {
            Some(MessageType::Text)
        } else if *s == String::from_str("image") {
            Some(MessageType::Image)
        } else {
            None
        }
    }
}

/// Reading a type's text gives the type back.
pub proof fn lemma_type_text_parses_back(t: MessageType)
    ensures
        MessageType::parse_spec(t.text_spec()) == Some(t),
{
    reveal_strlit("text");
    reveal_strlit("image");
    assert("image"@ != "text"@) by {
        assert("image"@[0] != "text"@[0]);
    }
}

/// A message.
pub struct Message {
    pub id: u128,
    pub sender_id: u128,
    pub receiver_id: u128,
    pub message_type: MessageType,
    pub content: String,
    /// In microseconds since the epoch.
    pub created_at: i64,
}

/// Errors of the messages port.
#[derive(Debug)]
pub enum PortError {
    Internal(String),
}

impl PortError {
    pub open spec fn message_spec(&self) -> Seq<char> {
        match self {
            PortError::Internal(s) => "Messages repository: "@ + s@,
        }
    }

    /// The text this error displays.
    pub fn message(&self) -> (r: String)
        ensures
            r@ == self.message_spec(),
    {
        match self {
            PortError::Internal(s) => prefixed("Messages repository: ", s.as_str()),
        }
    }
}

} // verus!
