//! Mode-S Beast frames.
//!
//! A frame, once its leading escape byte `0x1a` is removed and every doubled
//! `0x1a` of its payload collapsed into one, is: one byte of message type
//! (`1`, `2` or `3`), a 6 byte big-endian MLAT timestamp, one byte of signal
//! level, and the message: 2 bytes of Mode-A/C for type `1`, a 7 byte Mode-S
//! short frame for type `2`, a 14 byte Mode-S long frame for type `3`.
//!
//! Sources: <https://wiki.jetvision.de/wiki/Mode-S_Beast:Data_Output_Formats>,
//! <https://github.com/firestuff/adsb-tools/blob/master/protocols/beast.md>.

use vstd::arithmetic::div_mod::{lemma_fundamental_div_mod, lemma_mod_bound};
use vstd::arithmetic::power::{lemma_pow_increases, pow};
use vstd::prelude::*;
use vstd::slice::{slice_subrange, slice_to_vec};
use vstd::string::*;
use vstd::utf8::{encode_utf8, is_ascii_chars_encode_utf8};

use crate::decoders::beast_types::messagetype::{lemma_message_type_id_round_trip, MessageType};
use crate::decoders::helpers::hexadecimal::{
    ascii_bytes,
    hex_decode,
    hex_decoded,
    hex_string_upper,
    hex_text_upper,
    lemma_hex_text_round_trip,
    lemma_hex_text_upper_is_ascii,
};
use crate::decoders::helpers::prettyprint::{
    field_line,
    group_report_lines,
    has_line,
    label_line,
    pretty_print_field,
    pretty_print_label,
};
use crate::decoders::helpers::strings::{decimal_digits, decimal_string, push_char};
use crate::error_handling::deserialization_error::{
    BeastFrameError,
    DeserializationError,
    MessageResult,
};

verus! {

/// Number of bytes before the message: type, timestamp and signal level.
pub open spec fn beast_header_bytes() -> nat {
    8
}

/// The unsigned number that bytes spell most significant byte first.
pub open spec fn big_endian_value(bytes: Seq<u8>) -> nat
    decreases bytes.len(),
{
    if bytes.len() == 0 {
        0
    } else {
        big_endian_value(bytes.drop_last()) * 256 + bytes.last() as nat
    }
}

/// The `n` bytes that spell `value` most significant byte first (the value
/// modulo 256 to the `n`).
pub open spec fn big_endian_bytes(value: nat, n: nat) -> Seq<u8>
    decreases n,
{
    if n == 0 {
        Seq::<u8>::empty()
    } else {
        big_endian_bytes(value / 256, (n - 1) as nat).push((value % 256) as u8)
    }
}

/// The content of a Beast frame.
pub struct BeastFrame {
    pub message_type: MessageType,
    pub mlat_timestamp: u64,
    pub signal_level: u8,
    pub message: Seq<u8>,
}

/// The frame that bytes hold, read in order: the message type (its id must
/// be known), the timestamp, the signal level, then the message, of the length
/// the type gives; bytes after the message are not part of the frame.
pub open spec fn beast_frame(bytes: Seq<u8>) -> Result<BeastFrame, BeastFrameError> {
    if bytes.len() == 0 {
        Err(BeastFrameError::Incomplete)
    } else {
        match MessageType::from_id(bytes[0]) {
            None => Err(BeastFrameError::UnknownMessageType(bytes[0])),
            Some(message_type) => if bytes.len() < beast_header_bytes() + message_type.message_len() {
                Err(BeastFrameError::Incomplete)
            } else {
                Ok(
                    BeastFrame {
                        message_type,
                        mlat_timestamp: big_endian_value(bytes.subrange(1, 7)) as u64,
                        signal_level: bytes[7],
                        message: bytes.subrange(8, 8 + message_type.message_len() as int),
                    },
                )
            },
        }
    }
}

/// The bytes of a frame.
pub open spec fn beast_frame_bytes(frame: BeastFrame) -> Seq<u8> {
    seq![frame.message_type.id()] + big_endian_bytes(frame.mlat_timestamp as nat, 6) + seq![
        frame.signal_level,
    ] + frame.message
}

/// The frame of a hexadecimal text given as its bytes.
pub open spec fn beast_frame_from_hex(text: Seq<u8>) -> Result<BeastFrame, DeserializationError> {
    match hex_decoded(text) {
        Err(e) => Err(DeserializationError::HexError(e)),
        Ok(bytes) => match beast_frame(bytes) {
            Err(e) => Err(DeserializationError::BeastError(e)),
            Ok(frame) => Ok(frame),
        },
    }
}

/// The frame of bytes, with the decoders' error.
pub open spec fn beast_frame_from_bytes(bytes: Seq<u8>) -> Result<BeastFrame, DeserializationError> {
    match beast_frame(bytes) {
        Err(e) => Err(DeserializationError::BeastError(e)),
        Ok(frame) => Ok(frame),
    }
}

/// The text that `pretty_print` gives for a frame.
pub open spec fn beast_pretty_text(frame: BeastFrame) -> Seq<char> {
    label_line("ADS-B Beast Message"@) + field_line("Message Type"@, frame.message_type.display_text())
        + field_line("MLAT Timestamp"@, decimal_digits(frame.mlat_timestamp as nat)) + field_line(
        "Signal Level"@,
        decimal_digits(frame.signal_level as nat),
    ) + label_line("ADS-B Beast Message"@) + field_line(Seq::<char>::empty(), hex_text_upper(frame.message))
}

/// Decoding into an `AdsbBeastMessage`, for the kinds of input a frame comes
/// in; the source is not consumed.
pub trait NewAdsbBeastMessage {
    fn to_adsb_beast(&self) -> MessageResult<AdsbBeastMessage>;
}

/// The result of decoding a frame from bytes, with the decoders' error.
fn beast_from_bytes(bytes: &[u8]) -> (res: MessageResult<AdsbBeastMessage>)
    ensures
        match beast_frame_from_bytes(bytes@) {
            Ok(frame) => res matches Ok(message) && message@ == frame,
            Err(e) => res == Err::<AdsbBeastMessage, DeserializationError>(e),
        },
{
    match AdsbBeastMessage::from_bytes(bytes) {
        Ok(message) => Ok(message),
        Err(e) => Err(DeserializationError::BeastError(e)),
    }
}

/// The result of decoding a frame from a hexadecimal text.
fn beast_from_hex(text: &str) -> (res: MessageResult<AdsbBeastMessage>)
    ensures
        match beast_frame_from_hex(encode_utf8(text@)) {
            Ok(frame) => res matches Ok(message) && message@ == frame,
            Err(e) => res == Err::<AdsbBeastMessage, DeserializationError>(e),
        },
{
    match hex_decode(text.as_bytes()) {
        Ok(bytes) => beast_from_bytes(bytes.as_slice()),
        Err(e) => Err(DeserializationError::HexError(e)),
    }
}

/// The expected input is a hexadecimal text. Most Beast input holds bytes
/// from 0x80 to 0xff, which a UTF-8 text cannot hold as such, so the bytes
/// must be written as hexadecimal digits.
impl NewAdsbBeastMessage for String {
    fn to_adsb_beast(&self) -> (res: MessageResult<AdsbBeastMessage>)
        ensures
            match beast_frame_from_hex(encode_utf8(self@)) {
                Ok(frame) => res matches Ok(message) && message@ == frame,
                Err(e) => res == Err::<AdsbBeastMessage, DeserializationError>(e),
            },
    {
        beast_from_hex(self.as_str())
    }
}

/// The expected input is a hexadecimal text, as for `String`.
impl NewAdsbBeastMessage for str {
    fn to_adsb_beast(&self) -> (res: MessageResult<AdsbBeastMessage>)
        ensures
            match beast_frame_from_hex(encode_utf8(self@)) {
                Ok(frame) => res matches Ok(message) && message@ == frame,
                Err(e) => res == Err::<AdsbBeastMessage, DeserializationError>(e),
            },
    {
        beast_from_hex(self)
    }
}

/// The expected input is the bytes of the frame, escape removed.
impl<'a> NewAdsbBeastMessage for &'a Vec<u8> {
    fn to_adsb_beast(&self) -> (res: MessageResult<AdsbBeastMessage>)
        ensures
            match beast_frame_from_bytes(self@) {
                Ok(frame) => res matches Ok(message) && message@ == frame,
                Err(e) => res == Err::<AdsbBeastMessage, DeserializationError>(e),
            },
    {
        beast_from_bytes(self.as_slice())
    }
}

/// The expected input is the bytes of the frame, escape removed.
impl<'a> NewAdsbBeastMessage for &'a [u8] {
    fn to_adsb_beast(&self) -> (res: MessageResult<AdsbBeastMessage>)
        ensures
            match beast_frame_from_bytes(self@) {
                Ok(frame) => res matches Ok(message) && message@ == frame,
                Err(e) => res == Err::<AdsbBeastMessage, DeserializationError>(e),
            },
    {
        beast_from_bytes(self)
    }
}

/// A decoded ADS-B Beast frame.
///
/// In order for beast to be decoded, the message should NOT be escaped,
/// meaning the leading 0x1a should be removed; a 0x1a 0x1a sequence of the
/// payload must already stand for a single 0x1a byte.
#[derive(Debug, Clone, PartialEq)]
pub struct AdsbBeastMessage {
    /// 1: Message Type
    message_type: MessageType,
    /// 2: MLAT Timestamp
    mlat_timestamp: u64,
    /// 3: Signal Level
    signal_level: u8,
    /// 4: Message
    message: Vec<u8>,
}

impl View for AdsbBeastMessage {
    type V = BeastFrame;

    closed spec fn view(&self) -> BeastFrame {
        BeastFrame {
            message_type: self.message_type,
            mlat_timestamp: self.mlat_timestamp,
            signal_level: self.signal_level,
            message: self.message@,
        }
    }
}

proof fn lemma_big_endian_value_bound(bytes: Seq<u8>)
    ensures
        big_endian_value(bytes) < pow(256, bytes.len()),
    decreases bytes.len(),
{
    reveal(pow);
    if bytes.len() > 0 {
        let rest = bytes.drop_last();
        lemma_big_endian_value_bound(rest);
        let p = pow(256, rest.len());
        assert(pow(256, bytes.len()) == 256 * p);
        let v = big_endian_value(rest);
        let last = bytes.last();
        assert(v * 256 + last < 256 * p) by (nonlinear_arith)
            requires
                v < p,
                last < 256,
        ;
    }
}

proof fn lemma_div_mod_256(high: nat, low: nat)
    requires
        low < 256,
    ensures
        (high * 256 + low) / 256 == high,
        (high * 256 + low) % 256 == low,
{
    assert((high * 256 + low) / 256 == high && (high * 256 + low) % 256 == low) by (nonlinear_arith)
        requires
            low < 256,
    ;
}

proof fn lemma_big_endian_round_trip(value: nat, n: nat)
    requires
        value < pow(256, n),
    ensures
        big_endian_bytes(value, n).len() == n,
        big_endian_value(big_endian_bytes(value, n)) == value,
    decreases n,
{
    reveal(pow);
    if n > 0 {
        let p = pow(256, (n - 1) as nat);
        assert(value / 256 < p) by (nonlinear_arith)
            requires
                value < 256 * p,
        ;
        lemma_big_endian_round_trip(value / 256, (n - 1) as nat);
        let bytes = big_endian_bytes(value, n);
        assert(bytes.drop_last() =~= big_endian_bytes(value / 256, (n - 1) as nat));
        lemma_fundamental_div_mod(value as int, 256);
        lemma_mod_bound(value as int, 256);
    }
}

proof fn lemma_big_endian_bytes_of_value(bytes: Seq<u8>)
    ensures
        big_endian_bytes(big_endian_value(bytes), bytes.len()) == bytes,
    decreases bytes.len(),
{
    if bytes.len() > 0 {
        let rest = bytes.drop_last();
        lemma_big_endian_bytes_of_value(rest);
        lemma_div_mod_256(big_endian_value(rest), bytes.last() as nat);
        assert(big_endian_bytes(big_endian_value(bytes), bytes.len()) =~= bytes);
    } else {
        assert(big_endian_bytes(big_endian_value(bytes), bytes.len()) =~= bytes);
    }
}

/// Reading the bytes of a frame gives the frame back, when its timestamp
/// fits the 6 bytes it is written in and its message has the length of its
/// type.
pub proof fn lemma_beast_frame_round_trip(frame: BeastFrame)
    requires
        frame.mlat_timestamp < 0x1_0000_0000_0000,
        frame.message.len() == frame.message_type.message_len(),
    ensures
        beast_frame(beast_frame_bytes(frame)) == Ok::<BeastFrame, BeastFrameError>(frame),
{
    reveal_with_fuel(pow, 7);
    lemma_big_endian_round_trip(frame.mlat_timestamp as nat, 6);
    let bytes = beast_frame_bytes(frame);
    let stamp = big_endian_bytes(frame.mlat_timestamp as nat, 6);
    assert(bytes.subrange(1, 7) =~= stamp);
    assert(bytes.subrange(8, 8 + frame.message_type.message_len() as int) =~= frame.message);
    assert(bytes[7] == frame.signal_level);
    assert(bytes[0] == frame.message_type.id());
    lemma_message_type_id_round_trip(frame.message_type);
}

/// The bytes a frame is read from start with that frame's bytes: reading
/// loses nothing of the frame, and its message has the length of its type.
pub proof fn lemma_beast_bytes_round_trip(bytes: Seq<u8>)
    ensures
        beast_frame(bytes) matches Ok(frame) ==> {
            &&& frame.message.len() == frame.message_type.message_len()
            &&& beast_frame_bytes(frame) == bytes.subrange(0, beast_frame_bytes(frame).len() as int)
        },
{
    if let Ok(frame) = beast_frame(bytes) {
        let stamp = bytes.subrange(1, 7);
        lemma_big_endian_bytes_of_value(stamp);
        lemma_big_endian_value_bound(stamp);
        reveal_with_fuel(pow, 7);
        assert(big_endian_value(stamp) as u64 as nat == big_endian_value(stamp));
        assert(frame.message_type.id() == bytes[0]);
        assert(beast_frame_bytes(frame) =~= bytes.subrange(0, beast_frame_bytes(frame).len() as int));
    }
}

/// A frame written as upper case hexadecimal text (as `hex_string_upper`
/// writes its bytes) and decoded from that text is the same frame, when its
/// timestamp fits the 6 bytes it is written in and its message has the length
/// of its type.
pub proof fn lemma_beast_hex_text_round_trip(frame: BeastFrame)
    requires
        frame.mlat_timestamp < 0x1_0000_0000_0000,
        frame.message.len() == frame.message_type.message_len(),
    ensures
        beast_frame_from_hex(encode_utf8(hex_text_upper(beast_frame_bytes(frame))))
            == Ok::<BeastFrame, DeserializationError>(frame),
{
    let bytes = beast_frame_bytes(frame);
    let text = hex_text_upper(bytes);
    lemma_hex_text_upper_is_ascii(bytes);
    is_ascii_chars_encode_utf8(text);
    assert(encode_utf8(text) =~= ascii_bytes(text));
    lemma_hex_text_round_trip(bytes);
    lemma_beast_frame_round_trip(frame);
}

/// The report of a frame shows each of its parts on its own line: the type's
/// text under "Message Type", the timestamp under "MLAT Timestamp", the
/// signal level under "Signal Level", and the message bytes in hexadecimal on
/// an unnamed line.
pub proof fn lemma_beast_pretty_text_lines(frame: BeastFrame)
    ensures
        has_line(beast_pretty_text(frame), field_line("Message Type"@, frame.message_type.display_text())),
        has_line(
            beast_pretty_text(frame),
            field_line("MLAT Timestamp"@, decimal_digits(frame.mlat_timestamp as nat)),
        ),
        has_line(
            beast_pretty_text(frame),
            field_line("Signal Level"@, decimal_digits(frame.signal_level as nat)),
        ),
        has_line(
            beast_pretty_text(frame),
            field_line(Seq::<char>::empty(), hex_text_upper(frame.message)),
        ),
{
    broadcast use group_report_lines;
}

impl AdsbBeastMessage {
    /// The frame as labelled lines: message type, MLAT timestamp and signal
    /// level, then the message bytes in upper case hexadecimal.
    pub fn pretty_print(&self) -> (res: String)
        ensures
            res@ == beast_pretty_text(self@),
    {
        let mut output = String::new();
        proof {
            reveal_strlit("ADS-B Beast Message");
            assert("ADS-B Beast Message"@ =~= seq![
                'A', 'D', 'S', '-', 'B', ' ', 'B', 'e', 'a', 's', 't', ' ', 'M', 'e', 's', 's', 'a', 'g', 'e',
            ]);
        }
        pretty_print_label("ADS-B Beast Message", &mut output);
        let message_type = self.message_type.to_string();
        pretty_print_field("Message Type", message_type.as_str(), &mut output);
        let mlat_timestamp = decimal_string(self.mlat_timestamp);
        pretty_print_field("MLAT Timestamp", mlat_timestamp.as_str(), &mut output);
        let signal_level = decimal_string(self.signal_level as u64);
        pretty_print_field("Signal Level", signal_level.as_str(), &mut output);
        pretty_print_label("ADS-B Beast Message", &mut output);
        let message = hex_string_upper(self.message.as_slice());
        pretty_print_field("", message.as_str(), &mut output);
        proof {
            reveal_strlit("");
        }
        assert(output@ =~= beast_pretty_text(self@));
        output
    }

    /// The message type of this frame.
    pub fn message_type(&self) -> (res: MessageType)
        ensures
            res == self@.message_type,
    {
        self.message_type
    }

    /// The MLAT timestamp of this frame.
    pub fn mlat_timestamp(&self) -> (res: u64)
        ensures
            res == self@.mlat_timestamp,
    {
        self.mlat_timestamp
    }

    /// The signal level of this frame.
    pub fn signal_level(&self) -> (res: u8)
        ensures
            res == self@.signal_level,
    {
        self.signal_level
    }

    /// The message bytes of this frame.
    pub fn message(&self) -> (res: &[u8])
        ensures
            res@ == self@.message,
    {
        self.message.as_slice()
    }

    /// Decodes a frame from its bytes (escape removed, see the type).
    pub fn from_bytes(buf: &[u8]) -> (res: Result<Self, BeastFrameError>)
        ensures
            match beast_frame(buf@) {
                Ok(frame) => res matches Ok(message) && message@ == frame,
                Err(e) => res == Err::<AdsbBeastMessage, BeastFrameError>(e),
            },
    {
        let len = buf.len();
        if len == 0 {
            return Err(BeastFrameError::Incomplete);
        }
        let message_type = match MessageType::read_id(buf[0]) {
            Some(message_type) => message_type,
            None => return Err(BeastFrameError::UnknownMessageType(buf[0])),
        };
        let end: usize = 8 + message_type.message_length();
        if len < end {
            return Err(BeastFrameError::Incomplete);
        }
        let mut mlat_timestamp: u64 = 0;
        let mut i: usize = 1;
        while i < 7
            invariant
                1 <= i <= 7,
                len == buf@.len(),
                len > 8,
                mlat_timestamp as nat == big_endian_value(buf@.subrange(1, i as int)),
            decreases 7 - i,
        {
            proof {
                let prefix = buf@.subrange(1, i as int);
                lemma_big_endian_value_bound(prefix);
                lemma_pow_increases(256, prefix.len(), 5);
                reveal_with_fuel(pow, 6);
                let v = mlat_timestamp as nat;
                assert(v * 256 + 255 < 0x1_0000_0000_0000) by (nonlinear_arith)
                    requires
                        v < 0x100_0000_0000,
                ;
                assert(buf@.subrange(1, i + 1).drop_last() =~= prefix);
            }
            mlat_timestamp = mlat_timestamp * 256 + buf[i] as u64;
            i = i + 1;
        }
        let signal_level = buf[7];
        let message = slice_to_vec(slice_subrange(buf, 8, end));
        Ok(AdsbBeastMessage { message_type, mlat_timestamp, signal_level, message })
    }
}

} // verus!
