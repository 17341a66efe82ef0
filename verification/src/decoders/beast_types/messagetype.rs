//! Message type of a Beast frame: the byte after the escape, `1`, `2` or `3`.

use vstd::prelude::*;
use vstd::string::*;

verus! {

#[derive(Debug, Clone, Copy, PartialEq, Eq, Structural)]
pub enum MessageType {
    ModeAC,
    ShortFrame,
    LongFrame,
}

impl MessageType {
    /// The byte identifying a message type in a frame.
    pub open spec fn id(self) -> u8 {
        match self {
            MessageType::ModeAC => 49,
            MessageType::ShortFrame => 50,
            MessageType::LongFrame => 51,
        }
    }

    /// Number of message bytes a frame of this type carries: 2 for Mode-A/C,
    /// 7 for a Mode-S short frame, 14 for a Mode-S long frame.
    pub open spec fn message_len(self) -> nat {
        match self {
            MessageType::ModeAC => 2,
            MessageType::ShortFrame => 7,
            MessageType::LongFrame => 14,
        }
    }

    /// The message type a frame's first byte identifies, if any.
    pub open spec fn from_id(id: u8) -> Option<MessageType> {
        if id == 49 {
            Some(MessageType::ModeAC)
        } else if id == 50 {
            Some(MessageType::ShortFrame)
        } else if id == 51 {
            Some(MessageType::LongFrame)
        } else {
            None
        }
    }

    /// The human readable text of a message type.
    pub open spec fn display_text(self) -> Seq<char> {
        match self {
            MessageType::ModeAC => "ModeAC"@,
            MessageType::ShortFrame => "ShortFrame"@,
            MessageType::LongFrame => "LongFrame"@,
        }
    }

    /// The message type a frame's first byte identifies, if any.
    pub fn read_id(id: u8) -> (res: Option<MessageType>)
        ensures
            res == MessageType::from_id(id),
    {
        match id {
            49 => Some(MessageType::ModeAC),
            50 => Some(MessageType::ShortFrame),
            51 => Some(MessageType::LongFrame),
            _ => None,
        }
    }

    /// Number of message bytes a frame of this type carries.
    pub fn message_length(&self) -> (res: usize)
        ensures
            res == self.message_len(),
    {
        match self {
            MessageType::ModeAC => 2,
            MessageType::ShortFrame => 7,
            MessageType::LongFrame => 14,
        }
    }

    /// The human readable text of this message type.
    pub fn to_string(&self) -> (res: String)
        ensures
            res@ == self.display_text(),
    {
        match self {
            MessageType::ModeAC => String::from_str("ModeAC"),
            MessageType::ShortFrame => String::from_str("ShortFrame"),
            MessageType::LongFrame => String::from_str("LongFrame"),
        }
    }
}

/// A message type is read back from its own id.
pub proof fn lemma_message_type_id_round_trip(message_type: MessageType)
    ensures
        MessageType::from_id(message_type.id()) == Some(message_type),
{
}

/// The three message types display three different texts, each its own
/// name: the type line of a report tells the frame's type.
pub proof fn lemma_message_type_texts_distinct(a: MessageType, b: MessageType)
    ensures
        a != b ==> a.display_text() != b.display_text(),
        a.display_text() == (match a {
            MessageType::ModeAC => seq!['M', 'o', 'd', 'e', 'A', 'C'],
            MessageType::ShortFrame => seq!['S', 'h', 'o', 'r', 't', 'F', 'r', 'a', 'm', 'e'],
            MessageType::LongFrame => seq!['L', 'o', 'n', 'g', 'F', 'r', 'a', 'm', 'e'],
        }),
{
    reveal_strlit("ModeAC");
    assert("ModeAC"@ =~= seq!['M', 'o', 'd', 'e', 'A', 'C']);
    reveal_strlit("ShortFrame");
    assert("ShortFrame"@ =~= seq!['S', 'h', 'o', 'r', 't', 'F', 'r', 'a', 'm', 'e']);
    reveal_strlit("LongFrame");
    assert("LongFrame"@ =~= seq!['L', 'o', 'n', 'g', 'F', 'r', 'a', 'm', 'e']);
}

} // verus!
