//! The Beast message type, as the Beast helpers name it.

pub use crate::decoders::beast_types::messagetype::MessageType;
