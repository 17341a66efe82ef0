use sdre_rust_adsb_parser::decoders::beast::{AdsbBeastMessage, NewAdsbBeastMessage};
use sdre_rust_adsb_parser::decoders::helpers::hexadecimal::hex_string_upper;
use sdre_rust_adsb_parser::decoders::beast_types::messagetype::MessageType;
use sdre_rust_adsb_parser::error_handling::deserialization_error::{
    BeastFrameError, DeserializationError, HexDecodeError,
};

fn long_frame_bytes() -> Vec<u8> {
    vec![
        0x33, 0x00, 0x01, 0x02, 0x03, 0x04, 0x05, 0x7f, 0x8d, 0x4b, 0x19, 0x1a, 0x58, 0x25, 0x27,
        0x13, 0x4f, 0xc8, 0x60, 0x0a, 0x4f, 0x3c,
    ]
}

#[test]
fn beast_long_frame_from_bytes() {
    let bytes = long_frame_bytes();
    let message = AdsbBeastMessage::from_bytes(&bytes).unwrap();
    assert_eq!(message.message_type(), MessageType::LongFrame);
    assert_eq!(message.mlat_timestamp(), 0x0001_0203_0405);
    assert_eq!(message.signal_level(), 0x7f);
    assert_eq!(message.message(), &bytes[8..]);
}

#[test]
fn beast_frame_from_hex_text() {
    let text = String::from("3200010203040510AABBCCDDEEFF00");
    let message = text.to_adsb_beast().unwrap();
    assert_eq!(message.message_type(), MessageType::ShortFrame);
    assert_eq!(message.mlat_timestamp(), 0x0001_0203_0405);
    assert_eq!(message.signal_level(), 0x10);
    assert_eq!(message.message(), &[0xaa, 0xbb, 0xcc, 0xdd, 0xee, 0xff, 0x00][..]);
    let lower = "3100000000000aff01fe".to_adsb_beast().unwrap();
    assert_eq!(lower.message_type(), MessageType::ModeAC);
    assert_eq!(lower.mlat_timestamp(), 0x0a);
    assert_eq!(lower.signal_level(), 0xff);
    assert_eq!(lower.message(), &[0x01, 0xfe][..]);
}

#[test]
fn beast_frame_from_vec_and_slice_agree() {
    let bytes = long_frame_bytes();
    let from_vec = (&bytes).to_adsb_beast().unwrap();
    let from_slice = (&bytes[..]).to_adsb_beast().unwrap();
    assert_eq!(from_vec, from_slice);
    assert_eq!(from_vec, AdsbBeastMessage::from_bytes(&bytes).unwrap());
}

#[test]
fn beast_frame_errors() {
    let empty: Vec<u8> = vec![];
    assert_eq!(AdsbBeastMessage::from_bytes(&empty), Err(BeastFrameError::Incomplete));
    assert_eq!(
        AdsbBeastMessage::from_bytes(&[0x34, 0, 0, 0, 0, 0, 0, 0, 0]),
        Err(BeastFrameError::UnknownMessageType(0x34))
    );
    assert_eq!(
        AdsbBeastMessage::from_bytes(&[0x32, 0, 0, 0, 0, 0, 0, 0]),
        Err(BeastFrameError::Incomplete)
    );
    assert_eq!(
        AdsbBeastMessage::from_bytes(&[0x33, 0, 0, 0, 0, 0, 0, 0, 0x8d]),
        Err(BeastFrameError::Incomplete)
    );
    assert_eq!(
        AdsbBeastMessage::from_bytes(&[0x32, 0, 0, 0, 0, 0, 0, 0, 1, 2, 3, 4, 5, 6]),
        Err(BeastFrameError::Incomplete)
    );
    let short = vec![0x32u8, 0, 0, 0, 0, 0, 0, 0];
    assert_eq!(
        (&short).to_adsb_beast(),
        Err(DeserializationError::BeastError(BeastFrameError::Incomplete))
    );
}

#[test]
fn beast_hex_errors() {
    assert_eq!(
        "330".to_adsb_beast(),
        Err(DeserializationError::HexError(HexDecodeError::OddLength))
    );
    assert_eq!(
        String::from("33zz").to_adsb_beast(),
        Err(DeserializationError::HexError(HexDecodeError::InvalidHexCharacter { c: 'z', index: 2 }))
    );
    assert_eq!(
        "".to_adsb_beast(),
        Err(DeserializationError::BeastError(BeastFrameError::Incomplete))
    );
}

#[test]
fn beast_message_type_ids() {
    assert_eq!(MessageType::read_id(49), Some(MessageType::ModeAC));
    assert_eq!(MessageType::read_id(50), Some(MessageType::ShortFrame));
    assert_eq!(MessageType::read_id(51), Some(MessageType::LongFrame));
    assert_eq!(MessageType::read_id(52), None);
    assert_eq!(MessageType::ShortFrame.to_string(), "ShortFrame");
}

#[test]
fn upper_case_hex_of_bytes() {
    assert_eq!(hex_string_upper(&[0x00, 0x1a, 0xff, 0x9c]), "001AFF9C");
    assert_eq!(hex_string_upper(&[]), "");
}

#[test]
fn beast_pretty_print_layout() {
    let message = AdsbBeastMessage::from_bytes(&[0x31, 0, 0, 0, 0, 1, 0, 200, 0x5d, 0x4b]).unwrap();
    let bar = "=".repeat(25);
    let expected = format!(
        "{bar}ADS-B Beast Message{bar}=\nMessage Type: ModeAC\nMLAT Timestamp: 256\nSignal Level: 200\n{bar}ADS-B Beast Message{bar}=\n5D4B\n"
    );
    assert_eq!(message.pretty_print(), expected);
}

#[test]
fn beast_frame_survives_hex_text() {
    let bytes = long_frame_bytes();
    let text = hex_string_upper(&bytes);
    assert_eq!(text, "33000102030405".to_owned() + "7F8D4B191A582527134FC8600A4F3C");
    let decoded = text.to_adsb_beast().unwrap();
    assert_eq!(decoded, AdsbBeastMessage::from_bytes(&bytes).unwrap());
}

#[test]
fn beast_frame_takes_the_documented_message_length() {
    let mut bytes = long_frame_bytes();
    bytes.extend_from_slice(&[0x1a, 0x33]);
    let message = AdsbBeastMessage::from_bytes(&bytes).unwrap();
    assert_eq!(message.message(), &long_frame_bytes()[8..]);
    let mode_ac = AdsbBeastMessage::from_bytes(&[0x31, 0, 0, 0, 0, 0, 9, 1, 0x12, 0x34, 0x56]).unwrap();
    assert_eq!(mode_ac.message_type(), MessageType::ModeAC);
    assert_eq!(mode_ac.mlat_timestamp(), 9);
    assert_eq!(mode_ac.message(), &[0x12, 0x34][..]);
    assert_eq!(MessageType::LongFrame.message_length(), 14);
}
