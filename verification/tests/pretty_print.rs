use sdre_rust_adsb_parser::decoders::aircraftjson::AircraftJSONText;
use sdre_rust_adsb_parser::decoders::helpers::prettyprint::{
    pretty_print_field, pretty_print_field_from_option, pretty_print_fields, pretty_print_label,
};
use sdre_rust_adsb_parser::decoders::json::JSONMessageText;
use sdre_rust_adsb_parser::decoders::json_types::lastknownposition::LastKnownPositionText;

#[test]
fn field_line_with_and_without_name() {
    let mut output = String::from("start\n");
    pretty_print_field("Altitude", "1200 ft", &mut output);
    pretty_print_field("", "bare value", &mut output);
    assert_eq!(output, "start\nAltitude: 1200 ft\nbare value\n");
}

#[test]
fn optional_field_only_when_present() {
    let mut output = String::new();
    pretty_print_field_from_option("Squawk", &None, &mut output);
    assert_eq!(output, "");
    pretty_print_field_from_option("Squawk", &Some(String::from("7700")), &mut output);
    assert_eq!(output, "Squawk: 7700\n");
}

#[test]
fn repeated_fields_in_order() {
    let mut output = String::new();
    pretty_print_fields("Mode", &vec![String::from("lnav"), String::from("tcas")], &mut output);
    assert_eq!(output, "Mode: lnav\nMode: tcas\n");
}

#[test]
fn label_even_and_odd_padding() {
    let mut even = String::new();
    pretty_print_label("ABCD", &mut even);
    assert_eq!(even, format!("{}ABCD{} \n", "=".repeat(33), "=".repeat(33)));
    let mut odd = String::new();
    pretty_print_label("ABC", &mut odd);
    assert_eq!(odd, format!("{}ABC{}=\n", "=".repeat(33), "=".repeat(33)));
    let mut wide = String::new();
    pretty_print_label("Ü", &mut wide);
    assert_eq!(wide, "=".repeat(34) + "Ü" + &"=".repeat(35) + "\n");
    let mut full = String::new();
    let seventy = "x".repeat(70);
    pretty_print_label(&seventy, &mut full);
    assert_eq!(full, format!("{seventy} \n"));
}

fn minimal_message(hex: &str) -> JSONMessageText {
    JSONMessageText {
        timestamp: String::from("1700000000.5"),
        message_type: String::from("adsb_icao"),
        number_of_received_messages: String::from("12"),
        transponder_hex: String::from(hex),
        transponder_squawk_code: None,
        calculated_best_flight_id: None,
        aircraft_registration_from_database: None,
        aircraft_type_from_database: None,
        aircraft_type_from_database_long_name: None,
        latitude: None,
        longitude: None,
        ground_speed: None,
        indicated_air_speed: None,
        true_air_speed: None,
        true_track_over_ground: None,
        true_heading: None,
        magnetic_heading: None,
        last_known_position: None,
        calculated_track: None,
        last_time_seen: String::from("0.3 seconds ago"),
        last_time_seen_pos_and_alt: None,
        barometric_altitude: None,
        barometric_altitude_rate: None,
        geometric_altitude: None,
        geometric_altitude_rate: None,
        flight_management_system_selected_altitude: None,
        autopilot_selected_altitude: None,
        autopilot_selected_heading: None,
        autopilot_modes: None,
        selected_altimeter: None,
        category: None,
        db_flags: None,
        emergency: None,
        geometric_verticle_accuracy: None,
        navigation_accuracy_position: None,
        navigation_accuracy_velocity: None,
        naviation_integrity_category: None,
        barometeric_altitude_integrity_category: None,
        aircraft_direction_from_receiving_station: None,
        aircract_distance_from_receiving_station: None,
        radius_of_containment: None,
        rssi: None,
        system_design_assurance: None,
        source_integrity_level: None,
        sil_type: None,
        flight_status_special_position_id_bit: None,
        flight_status: None,
        version: None,
        tisb: vec![],
        mlat: vec![],
    }
}

fn banner(label: &str) -> String {
    let mut s = String::new();
    pretty_print_label(label, &mut s);
    s
}

#[test]
fn json_message_report_minimal() {
    let expected = [
        banner("JSON Message"),
        String::from("Timestamp: 1700000000.5\nMessage Type: adsb_icao\nMessages: 12\n"),
        banner("Aircraft Identification"),
        String::from("Transponder Hex:: A1B2C3\n"),
        banner("Aircraft Position, Altitude and Speed"),
        String::from("Last Time Seen: 0.3 seconds ago\n"),
        banner("Autopilot Settings"),
        banner("ADSB Information"),
    ]
    .concat();
    assert_eq!(minimal_message("A1B2C3").pretty_print(), expected);
    assert!(expected.starts_with(&format!("{}JSON Message{} \n", "=".repeat(29), "=".repeat(29))));
}

#[test]
fn json_message_report_lists_and_options() {
    let mut m = minimal_message("ABCDEF");
    m.transponder_squawk_code = Some(String::from("1200"));
    m.autopilot_modes = Some(vec![String::from("autopilot"), String::from("vnav")]);
    m.selected_altimeter = Some(String::from("1013.6 hPa"));
    m.version = Some(String::from("2"));
    m.tisb = vec![String::from("altitude")];
    m.mlat = vec![String::from("lat"), String::from("lon")];
    let expected = [
        banner("JSON Message"),
        String::from("Timestamp: 1700000000.5\nMessage Type: adsb_icao\nMessages: 12\n"),
        banner("Aircraft Identification"),
        String::from("Transponder Hex:: ABCDEF\nTransponder Squawk Code: 1200\n"),
        banner("Aircraft Position, Altitude and Speed"),
        String::from("Last Time Seen: 0.3 seconds ago\n"),
        banner("Autopilot Settings"),
        String::from(
            "Autopilot Mode: autopilot\nAutopilot Mode: vnav\nSelected Altimeter: 1013.6 hPa\n",
        ),
        banner("ADSB Information"),
        String::from("Version: 2\nTISB Message: altitude\nMLAT Message: lat\nMLAT Message: lon\n"),
    ]
    .concat();
    assert_eq!(m.pretty_print(), expected);
}

#[test]
fn aircraft_json_report() {
    let snapshot = AircraftJSONText {
        timestamp: String::from("1700000001.25"),
        messages: 4096,
        aircraft: vec![minimal_message("000001"), minimal_message("000002")],
    };
    let expected = [
        banner("Aircraft JSON"),
        String::from("Time: 1700000001.25\nMessages: 4096\n"),
        banner("Aircraft"),
        minimal_message("000001").pretty_print(),
        minimal_message("000002").pretty_print(),
    ]
    .concat();
    assert_eq!(snapshot.pretty_print(), expected);
    let empty = AircraftJSONText { timestamp: String::from("0"), messages: 0, aircraft: vec![] };
    assert_eq!(
        empty.pretty_print(),
        [banner("Aircraft JSON"), String::from("Time: 0\nMessages: 0\n"), banner("Aircraft")].concat()
    );
}

#[test]
fn last_known_position_line() {
    let full = LastKnownPositionText {
        latitude: Some(String::from("35° 3' 1.2000\" N")),
        longitude: Some(String::from("106° 36' 3.0000\" W")),
        naviation_integrity_category: Some(String::from("RC < 0.2 NM")),
        radius_of_containment: Some(String::from("186 meters")),
        last_time_seen: String::from("12.5"),
    };
    assert_eq!(
        full.to_string(),
        "Last Known Position:\tLatitude: 35° 3' 1.2000\" N\tLongitude: 106° 36' 3.0000\" W\tNIC: RC < 0.2 NM\tRadius of Containment: 186 meters\tLast Seen: 12.5"
    );
    let bare = LastKnownPositionText {
        latitude: None,
        longitude: None,
        naviation_integrity_category: None,
        radius_of_containment: None,
        last_time_seen: String::from("None"),
    };
    assert_eq!(bare.to_string(), "Last Known Position:\tLast Seen: None");
}
