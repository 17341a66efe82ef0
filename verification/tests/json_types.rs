use sdre_rust_adsb_parser::decoders::json_types::adsbversion::ADSBVersion;
use sdre_rust_adsb_parser::decoders::json_types::altitude::Altitude;
use sdre_rust_adsb_parser::decoders::json_types::barorate::BaroRate;
use sdre_rust_adsb_parser::decoders::json_types::calculatedbestflightid::CalculatedBestFlightID;
use sdre_rust_adsb_parser::decoders::json_types::dbflags::DBFlags;
use sdre_rust_adsb_parser::decoders::json_types::emergency::Emergency;
use sdre_rust_adsb_parser::decoders::json_types::emmittercategory::EmitterCategory;
use sdre_rust_adsb_parser::decoders::json_types::flightstatus::FlightStatusAlertBit;
use sdre_rust_adsb_parser::decoders::json_types::geometricverticalaccuracy::GeometricVerticalAccuracy;
use sdre_rust_adsb_parser::decoders::json_types::messagetype::MessageType;
use sdre_rust_adsb_parser::decoders::json_types::mlat::MLATFields;
use sdre_rust_adsb_parser::decoders::json_types::nacp::NavigationIntegrityCategory;
use sdre_rust_adsb_parser::decoders::json_types::nacv::NavigationAccuracyVelocity;
use sdre_rust_adsb_parser::decoders::json_types::navigationmodes::NavigationModes;
use sdre_rust_adsb_parser::decoders::json_types::receivedmessages::ReceivedMessages;
use sdre_rust_adsb_parser::decoders::json_types::sil::SourceIntegrityLevel;
use sdre_rust_adsb_parser::decoders::json_types::sourceintegritylevel::SourceIntegrityLevelType;
use sdre_rust_adsb_parser::decoders::json_types::squawk::{ensure_at_least_four_digits, Squawk};
use sdre_rust_adsb_parser::decoders::json_types::tisb::TiSB;
use sdre_rust_adsb_parser::decoders::json_types::transponderhex::TransponderHex;
use sdre_rust_adsb_parser::decoders::raw_types::typecoding::TypeCoding;

#[test]
fn adsb_version_round_trip_and_errors() {
    for n in 0u8..=8 {
        let version = ADSBVersion::try_from(n).unwrap();
        assert_eq!(version.serialize(), n);
    }
    assert_eq!(ADSBVersion::try_from(2).unwrap(), ADSBVersion::Version2);
    assert_eq!(ADSBVersion::try_from(8).unwrap(), ADSBVersion::Unknown);
    assert_eq!(
        ADSBVersion::try_from(9).unwrap_err(),
        "Invalid ADSBVersion field: 9"
    );
    assert_eq!(
        ADSBVersion::try_from(255).unwrap_err(),
        "Invalid ADSBVersion field: 255"
    );
    assert_eq!(ADSBVersion::Version2.to_string(), "ADSB Version 2");
    assert_eq!(ADSBVersion::Unknown.to_string(), "ADSB Version Unknown");
}

#[test]
fn altitude_text_and_conversions() {
    assert_eq!(Altitude::from(35000u16), Altitude::U16(35000));
    assert_eq!(Altitude::from(70000u32), Altitude::U32(70000));
    assert_eq!(Altitude::from("ground"), Altitude::String("ground".to_string()));
    assert_eq!(Altitude::default(), Altitude::U16(0));
    assert_eq!(Altitude::U16(35000).to_string(), "35000 ft");
    assert_eq!(Altitude::U32(0).to_string(), "0 ft");
    assert_eq!(Altitude::from("ground").to_string(), "On Ground");
}

#[test]
fn baro_rate_text() {
    assert_eq!(BaroRate::from(-1024i32).to_string(), "-1024 ft/min");
    assert_eq!(BaroRate::from(640i16).to_string(), "640 ft/min");
    assert_eq!(BaroRate::from(i32::MIN).to_string(), "-2147483648 ft/min");
    assert_eq!(BaroRate::default().to_string(), "0 ft/min");
    assert_eq!(BaroRate::from(-64i32).serialize(), -64);
}

#[test]
fn flight_id_and_received_messages() {
    assert_eq!(CalculatedBestFlightID::default().to_string(), "");
    assert_eq!(
        CalculatedBestFlightID::from("UAL123  ".to_string()).to_string(),
        "UAL123  "
    );
    assert_eq!(ReceivedMessages::from(1234).to_string(), "1234");
    assert_eq!(ReceivedMessages::from(-7).serialize(), -7);
    assert_eq!(ReceivedMessages::default().serialize(), 0);
}

#[test]
fn db_flags_lowest_bit_wins() {
    assert_eq!(DBFlags::try_from(1).unwrap(), DBFlags::Military);
    assert_eq!(DBFlags::try_from(3).unwrap(), DBFlags::Military);
    assert_eq!(DBFlags::try_from(2).unwrap(), DBFlags::Interesting);
    assert_eq!(DBFlags::try_from(6).unwrap(), DBFlags::Interesting);
    assert_eq!(DBFlags::try_from(4).unwrap(), DBFlags::PIA);
    assert_eq!(DBFlags::try_from(12).unwrap(), DBFlags::PIA);
    assert_eq!(DBFlags::try_from(8).unwrap(), DBFlags::LADD);
    assert_eq!(DBFlags::try_from(24).unwrap(), DBFlags::LADD);
    assert_eq!(
        DBFlags::try_from(0).unwrap_err(),
        "DBFlags should be a value between 0 and 15, inclusive. Found: 0"
    );
    assert_eq!(
        DBFlags::try_from(16).unwrap_err(),
        "DBFlags should be a value between 0 and 15, inclusive. Found: 16"
    );
    for flag in [DBFlags::Military, DBFlags::Interesting, DBFlags::PIA, DBFlags::LADD] {
        assert_eq!(DBFlags::try_from(flag.serialize()).unwrap(), flag);
    }
    assert_eq!(DBFlags::NoFlags.serialize(), 0);
    assert_eq!(DBFlags::default(), DBFlags::NoFlags);
    assert_eq!(DBFlags::LADD.to_string(), "LADD");
}

#[test]
fn emergency_round_trip() {
    let all = [
        Emergency::NoEmergency,
        Emergency::General,
        Emergency::Lifeguard,
        Emergency::Minfuel,
        Emergency::Nordo,
        Emergency::Unlawful,
        Emergency::Downed,
        Emergency::Reserved,
    ];
    for emergency in all {
        assert_eq!(Emergency::try_from(emergency.serialize()).unwrap(), emergency);
    }
    assert_eq!(Emergency::try_from("minfuel".to_string()).unwrap(), Emergency::Minfuel);
    assert_eq!(
        Emergency::try_from("MINFUEL".to_string()).unwrap_err(),
        "Invalid emergency: MINFUEL"
    );
    assert_eq!(Emergency::Unlawful.to_string(), "Unlawful interference");
    assert_eq!(Emergency::default(), Emergency::NoEmergency);
}

#[test]
fn emitter_category_from_type_coding() {
    assert_eq!(EmitterCategory::new(TypeCoding::A, 3).unwrap(), EmitterCategory::A3);
    assert_eq!(EmitterCategory::new(TypeCoding::B, 0).unwrap(), EmitterCategory::B0);
    assert_eq!(EmitterCategory::new(TypeCoding::C, 7).unwrap(), EmitterCategory::C7);
    assert_eq!(EmitterCategory::new(TypeCoding::D, 5).unwrap(), EmitterCategory::D5);
    assert_eq!(
        EmitterCategory::new(TypeCoding::B, 8).unwrap_err(),
        "Invalid emitter category: B8"
    );
    assert_eq!(
        EmitterCategory::new(TypeCoding::D, 200).unwrap_err(),
        "Invalid emitter category: D200"
    );
    assert_eq!(EmitterCategory::new(TypeCoding::C, 1).unwrap().serialize(), "C1");
}

#[test]
fn emitter_category_text() {
    assert_eq!(EmitterCategory::try_from("A5".to_string()).unwrap(), EmitterCategory::A5);
    assert_eq!(
        EmitterCategory::try_from("E1".to_string()).unwrap_err(),
        "Invalid emitter category: E1"
    );
    assert_eq!(EmitterCategory::A5.to_string(), "A5 : Heavy (> 300000 lbs) ");
    assert_eq!(EmitterCategory::C6.to_string(), "C6: Reserved");
    assert_eq!(EmitterCategory::default(), EmitterCategory::A0);
    let letters = [TypeCoding::A, TypeCoding::B, TypeCoding::C, TypeCoding::D];
    for tc in letters {
        for ca in 0u8..8 {
            let category = EmitterCategory::new(tc, ca).unwrap();
            assert_eq!(EmitterCategory::try_from(category.serialize()).unwrap(), category);
        }
    }
}

#[test]
fn flight_status_bits() {
    assert_eq!(
        FlightStatusAlertBit::try_from(0b101).unwrap(),
        FlightStatusAlertBit::NoAlertSPIAirborneOrOnGround
    );
    assert_eq!(
        FlightStatusAlertBit::try_from(8).unwrap_err(),
        "FlightStatusAlertBit should be a value between 0 and 7, inclusive. Found: 8"
    );
    assert_eq!(
        FlightStatusAlertBit::AlertNoSPIOnGround.to_string(),
        "Alert, no SPI, aircraft is on-ground"
    );
}

#[test]
fn geometric_vertical_accuracy_from_number() {
    assert_eq!(
        GeometricVerticalAccuracy::from(2),
        GeometricVerticalAccuracy::LessThanEqual45m
    );
    assert_eq!(
        GeometricVerticalAccuracy::from(0),
        GeometricVerticalAccuracy::UnknownOrGreaterThan150m
    );
    assert_eq!(
        GeometricVerticalAccuracy::from(9),
        GeometricVerticalAccuracy::UnknownOrGreaterThan150m
    );
    assert_eq!(
        GeometricVerticalAccuracy::LessThanEqual10m.to_string(),
        "Less than or equal to 10m"
    );
}

#[test]
fn json_message_type_from_text() {
    assert_eq!(MessageType::from("adsb_icao".to_string()), MessageType::ADSBICAO);
    assert_eq!(MessageType::from("mlat".to_string()), MessageType::MLAT);
    assert_eq!(MessageType::from("tisb_trackfile".to_string()), MessageType::ADSBTRACKFILE);
    assert_eq!(MessageType::from("adsr_icao".to_string()), MessageType::ADSBICAOREBROADCAST);
    assert_eq!(MessageType::from("tisb_icao".to_string()), MessageType::ADSBICAOSECONDARYSURVEILLANCE);
    assert_eq!(MessageType::from("adsbr_other".to_string()), MessageType::ADSBOTHERREBROADCAST);
    assert_eq!(MessageType::from("tisb_other".to_string()), MessageType::ADSBOTHERSECONDARYSURVEILLANCE);
    assert_eq!(MessageType::from("adsb_icao_reb".to_string()), MessageType::UNKNOWN);
    assert_eq!(MessageType::from(String::new()), MessageType::UNKNOWN);
    assert_eq!(
        MessageType::ADSBICAOSECONDARYSURVEILLANCE.to_string(),
        "ADSB, ICAO Address, Secondary Surveillance (\"TISB\")"
    );
    assert_eq!(MessageType::default(), MessageType::UNKNOWN);
}

#[test]
fn mlat_fields_round_trip() {
    assert_eq!(MLATFields::try_from("nac_p".to_string()).unwrap(), MLATFields::NACp);
    assert_eq!(MLATFields::try_from("none".to_string()).unwrap(), MLATFields::NoField);
    assert_eq!(MLATFields::GroundSpeed.serialize(), "gs");
    assert_eq!(
        MLATFields::try_from("speed".to_string()).unwrap_err(),
        "Invalid MLAT field: speed"
    );
    assert_eq!(MLATFields::BaroRate.to_string(), "Barometric Rate");
}

#[test]
fn navigation_categories() {
    assert_eq!(
        NavigationIntegrityCategory::try_from(11).unwrap(),
        NavigationIntegrityCategory::Category11
    );
    assert_eq!(
        NavigationIntegrityCategory::try_from(0).unwrap(),
        NavigationIntegrityCategory::Unknown
    );
    assert_eq!(
        NavigationIntegrityCategory::try_from(12).unwrap_err(),
        "NIC should be a value between 0 and 11, inclusive. Found 12"
    );
    assert_eq!(
        NavigationIntegrityCategory::Category8.to_string(),
        "Category 8 (< 0.05 NM (93 m)"
    );
    assert_eq!(
        NavigationAccuracyVelocity::try_from(3).unwrap(),
        NavigationAccuracyVelocity::Category3
    );
    assert_eq!(NavigationAccuracyVelocity::Category4.serialize(), 4);
    assert_eq!(
        NavigationAccuracyVelocity::try_from(5).unwrap_err(),
        "NACv should be a value between 0 and 4, inclusive. Found 5"
    );
}

#[test]
fn navigation_modes_none_is_not_read_back() {
    assert_eq!(
        NavigationModes::try_from("tcas".to_string()).unwrap(),
        NavigationModes::TCAS
    );
    assert_eq!(NavigationModes::NoMode.serialize(), "none");
    assert_eq!(
        NavigationModes::try_from("none".to_string()).unwrap_err(),
        "Invalid navigation mode: none"
    );
    assert_eq!(NavigationModes::VNAV.to_string(), "Vertical Navigation");
}

#[test]
fn source_integrity() {
    assert_eq!(SourceIntegrityLevel::try_from(3).unwrap(), SourceIntegrityLevel::Level3);
    assert_eq!(
        SourceIntegrityLevel::try_from(4).unwrap_err(),
        "SIL should be a value between 0 and 3, inclusive. Found 4"
    );
    assert_eq!(SourceIntegrityLevel::Level1.to_string(), "SIL Level 1");
    assert_eq!(
        SourceIntegrityLevelType::try_from("perhour".to_string()).unwrap(),
        SourceIntegrityLevelType::PerHour
    );
    assert_eq!(
        SourceIntegrityLevelType::try_from("hourly".to_string()).unwrap_err(),
        "SIL should be unknown, persample, perhour, inclusive. Found hourly"
    );
    assert_eq!(SourceIntegrityLevelType::PerSample.serialize(), "persample");
}

#[test]
fn squawk_keeps_four_digits() {
    assert_eq!(ensure_at_least_four_digits("7"), "0007");
    assert_eq!(ensure_at_least_four_digits(""), "0000");
    assert_eq!(ensure_at_least_four_digits("1200"), "1200");
    assert_eq!(ensure_at_least_four_digits("12345"), "12345");
    assert_eq!(Squawk::from("42").to_string(), "0042");
    assert_eq!(Squawk::from("7700".to_string()), Squawk::String("7700".to_string()));
}

#[test]
fn tisb_round_trip() {
    assert_eq!(TiSB::try_from("None".to_string()).unwrap(), TiSB::NoField);
    assert_eq!(TiSB::try_from("geom_rate".to_string()).unwrap(), TiSB::GeomRate);
    assert_eq!(TiSB::NoField.serialize(), "None");
    assert_eq!(
        TiSB::try_from("none".to_string()).unwrap_err(),
        "Invalid TiSB field: none"
    );
    assert_eq!(TiSB::AltGeom.to_string(), "Altitude Geometric");
}

#[test]
fn transponder_hex_upper_case() {
    let hex = TransponderHex::from("a0ca2d".to_string());
    assert_eq!(hex, TransponderHex::TransponderHexAsString("A0CA2D".to_string()));
    assert_eq!(hex.get_transponder_hex_as_string(), "A0CA2D");
    assert_eq!(hex.to_string(), "A0CA2D");
    assert_eq!(TransponderHex::default().to_string(), "None");
    assert_eq!(TransponderHex::default().get_transponder_hex_as_string(), "");
    let again = TransponderHex::from(hex.get_transponder_hex_as_string());
    assert_eq!(again, hex);
    assert_eq!(
        TransponderHex::from("~abc-é".to_string()).get_transponder_hex_as_string(),
        "~ABC-é"
    );
}
