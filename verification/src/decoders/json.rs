//! The text report of one aircraft's JSON message: banner lines per section
//! and one `name: value` line per field that is present, in a fixed order.
//!
//! The message's values come in already rendered, the way each field type
//! displays; `JSONMessageText` holds them, absent fields as `None`.

use vstd::prelude::*;
use vstd::string::*;

use crate::decoders::helpers::prettyprint::{
    ends_line,
    field_line,
    field_lines,
    group_report_lines,
    has_line,
    label_line,
    lemma_field_lines_end,
    lemma_field_lines_hold,
    optional_field_line,
    pretty_print_field,
    pretty_print_field_from_option,
    pretty_print_fields,
    pretty_print_label,
};

verus! {

/// The displayed value of each field of an aircraft's JSON message, in the
/// order the report prints them. An absent optional field is `None`.
pub struct JSONMessageText {
    /// Shown as "Timestamp".
    pub timestamp: String,
    /// Shown as "Message Type".
    pub message_type: String,
    /// Shown as "Messages".
    pub number_of_received_messages: String,
    /// Shown as "Transponder Hex:".
    pub transponder_hex: String,
    /// Shown as "Transponder Squawk Code".
    pub transponder_squawk_code: Option<String>,
    /// Shown as "Calculated Best Flight ID".
    pub calculated_best_flight_id: Option<String>,
    /// Shown as "Aircraft Registration from Database".
    pub aircraft_registration_from_database: Option<String>,
    /// Shown as "Aircraft Type from Database".
    pub aircraft_type_from_database: Option<String>,
    /// Shown as "Aircraft Type from Database Long Name".
    pub aircraft_type_from_database_long_name: Option<String>,
    /// Shown as "Latitude".
    pub latitude: Option<String>,
    /// Shown as "Longitude".
    pub longitude: Option<String>,
    /// Shown as "Ground Speed".
    pub ground_speed: Option<String>,
    /// Shown as "Indicator Air Speed".
    pub indicated_air_speed: Option<String>,
    /// Shown as "True Air Speed".
    pub true_air_speed: Option<String>,
    /// Shown as "True Track Over Ground".
    pub true_track_over_ground: Option<String>,
    /// Shown as "True Heading".
    pub true_heading: Option<String>,
    /// Shown as "Magnetic Heading".
    pub magnetic_heading: Option<String>,
    /// Shown as "Last Known Position".
    pub last_known_position: Option<String>,
    /// Shown as "Calculated Track".
    pub calculated_track: Option<String>,
    /// Shown as "Last Time Seen".
    pub last_time_seen: String,
    /// Shown as "Last Time Seen Position and Altitude".
    pub last_time_seen_pos_and_alt: Option<String>,
    /// Shown as "Barometric Altitude".
    pub barometric_altitude: Option<String>,
    /// Shown as "Barometric Altitude Rate".
    pub barometric_altitude_rate: Option<String>,
    /// Shown as "Geometric Altitude".
    pub geometric_altitude: Option<String>,
    /// Shown as "Geometric Altitude Rate".
    pub geometric_altitude_rate: Option<String>,
    /// Shown as "Flight Management System Selected Altitude".
    pub flight_management_system_selected_altitude: Option<String>,
    /// Shown as "Autopilot Selected Altitude".
    pub autopilot_selected_altitude: Option<String>,
    /// Shown as "Autopilot Selected Heading".
    pub autopilot_selected_heading: Option<String>,
    /// Shown as "Autopilot Mode".
    pub autopilot_modes: Option<Vec<String>>,
    /// Shown as "Selected Altimeter".
    pub selected_altimeter: Option<String>,
    /// Shown as "Category".
    pub category: Option<String>,
    /// Shown as "DB Flags".
    pub db_flags: Option<String>,
    /// Shown as "Emergency".
    pub emergency: Option<String>,
    /// Shown as "Geometric Vertical Accuracy".
    pub geometric_verticle_accuracy: Option<String>,
    /// Shown as "Navigation Accuracy Position".
    pub navigation_accuracy_position: Option<String>,
    /// Shown as "Navigation Accuracy Velocity".
    pub navigation_accuracy_velocity: Option<String>,
    /// Shown as "Navigation Integrity Category".
    pub naviation_integrity_category: Option<String>,
    /// Shown as "Barometric Altitude Integrity Category".
    pub barometeric_altitude_integrity_category: Option<String>,
    /// Shown as "Aircraft Direction from Receiving Station".
    pub aircraft_direction_from_receiving_station: Option<String>,
    /// Shown as "Aircraft Distance from Receiving Station".
    pub aircract_distance_from_receiving_station: Option<String>,
    /// Shown as "Radius of Containment".
    pub radius_of_containment: Option<String>,
    /// Shown as "RSSI".
    pub rssi: Option<String>,
    /// Shown as "System Design Assurance".
    pub system_design_assurance: Option<String>,
    /// Shown as "Source Integrity Level".
    pub source_integrity_level: Option<String>,
    /// Shown as "Source Integrity Level Type".
    pub sil_type: Option<String>,
    /// Shown as "Flight Status Special Position ID Bit".
    pub flight_status_special_position_id_bit: Option<String>,
    /// Shown as "Flight Status".
    pub flight_status: Option<String>,
    /// Shown as "Version".
    pub version: Option<String>,
    /// Shown as "TISB Message".
    pub tisb: Vec<String>,
    /// Shown as "MLAT Message".
    pub mlat: Vec<String>,
}

/// The lines of the engaged autopilot modes, one per mode, when the modes are
/// known at all.
pub open spec fn autopilot_mode_lines(modes: Option<Vec<String>>) -> Seq<char> {
    match modes {
        Some(modes) => field_lines("Autopilot Mode"@, modes@),
        None => Seq::<char>::empty(),
    }
}

/// The "JSON Message" section: its banner, then the timestamp, message type and message count.
pub open spec fn header_section(m: JSONMessageText) -> Seq<char> {
    label_line("JSON Message"@)
        + field_line("Timestamp"@, m.timestamp@)
        + field_line("Message Type"@, m.message_type@)
        + field_line("Messages"@, m.number_of_received_messages@)
}

/// The "Aircraft Identification" section: its banner, then transponder hex, squawk, flight id and database entries.
pub open spec fn identification_section(m: JSONMessageText) -> Seq<char> {
    label_line("Aircraft Identification"@)
        + field_line("Transponder Hex:"@, m.transponder_hex@)
        + optional_field_line("Transponder Squawk Code"@, m.transponder_squawk_code)
        + optional_field_line("Calculated Best Flight ID"@, m.calculated_best_flight_id)
        + optional_field_line("Aircraft Registration from Database"@, m.aircraft_registration_from_database)
        + optional_field_line("Aircraft Type from Database"@, m.aircraft_type_from_database)
        + optional_field_line("Aircraft Type from Database Long Name"@, m.aircraft_type_from_database_long_name)
}

/// The "Aircraft Position, Altitude and Speed" section: its banner, then position, speeds, headings, ages and altitudes.
pub open spec fn position_section(m: JSONMessageText) -> Seq<char> {
    label_line("Aircraft Position, Altitude and Speed"@)
        + optional_field_line("Latitude"@, m.latitude)
        + optional_field_line("Longitude"@, m.longitude)
        + optional_field_line("Ground Speed"@, m.ground_speed)
        + optional_field_line("Indicator Air Speed"@, m.indicated_air_speed)
        + optional_field_line("True Air Speed"@, m.true_air_speed)
        + optional_field_line("True Track Over Ground"@, m.true_track_over_ground)
        + optional_field_line("True Heading"@, m.true_heading)
        + optional_field_line("Magnetic Heading"@, m.magnetic_heading)
        + optional_field_line("Last Known Position"@, m.last_known_position)
        + optional_field_line("Calculated Track"@, m.calculated_track)
        + field_line("Last Time Seen"@, m.last_time_seen@)
        + optional_field_line("Last Time Seen Position and Altitude"@, m.last_time_seen_pos_and_alt)
        + optional_field_line("Barometric Altitude"@, m.barometric_altitude)
        + optional_field_line("Barometric Altitude Rate"@, m.barometric_altitude_rate)
        + optional_field_line("Geometric Altitude"@, m.geometric_altitude)
        + optional_field_line("Geometric Altitude Rate"@, m.geometric_altitude_rate)
}

/// The "Autopilot Settings" section: its banner, then selected altitudes and heading, engaged modes and altimeter setting.
pub open spec fn autopilot_section(m: JSONMessageText) -> Seq<char> {
    label_line("Autopilot Settings"@)
        + optional_field_line("Flight Management System Selected Altitude"@, m.flight_management_system_selected_altitude)
        + optional_field_line("Autopilot Selected Altitude"@, m.autopilot_selected_altitude)
        + optional_field_line("Autopilot Selected Heading"@, m.autopilot_selected_heading)
        + autopilot_mode_lines(m.autopilot_modes)
        + optional_field_line("Selected Altimeter"@, m.selected_altimeter)
}

/// The "ADSB Information" section: its banner, then category, flags, accuracy and integrity figures, TIS-B and MLAT fields.
pub open spec fn adsb_information_section(m: JSONMessageText) -> Seq<char> {
    label_line("ADSB Information"@)
        + optional_field_line("Category"@, m.category)
        + optional_field_line("DB Flags"@, m.db_flags)
        + optional_field_line("Emergency"@, m.emergency)
        + optional_field_line("Geometric Vertical Accuracy"@, m.geometric_verticle_accuracy)
        + optional_field_line("Navigation Accuracy Position"@, m.navigation_accuracy_position)
        + optional_field_line("Navigation Accuracy Velocity"@, m.navigation_accuracy_velocity)
        + optional_field_line("Navigation Integrity Category"@, m.naviation_integrity_category)
        + optional_field_line("Barometric Altitude Integrity Category"@, m.barometeric_altitude_integrity_category)
        + optional_field_line("Aircraft Direction from Receiving Station"@, m.aircraft_direction_from_receiving_station)
        + optional_field_line("Aircraft Distance from Receiving Station"@, m.aircract_distance_from_receiving_station)
        + optional_field_line("Radius of Containment"@, m.radius_of_containment)
        + optional_field_line("RSSI"@, m.rssi)
        + optional_field_line("System Design Assurance"@, m.system_design_assurance)
        + optional_field_line("Source Integrity Level"@, m.source_integrity_level)
        + optional_field_line("Source Integrity Level Type"@, m.sil_type)
        + optional_field_line("Flight Status Special Position ID Bit"@, m.flight_status_special_position_id_bit)
        + optional_field_line("Flight Status"@, m.flight_status)
        + optional_field_line("Version"@, m.version)
        + field_lines("TISB Message"@, m.tisb@)
        + field_lines("MLAT Message"@, m.mlat@)
}

/// The whole report of a JSON message: its five sections in order.
pub open spec fn json_message_report(m: JSONMessageText) -> Seq<char> {
    header_section(m) + identification_section(m) + position_section(m) + autopilot_section(m)
        + adsb_information_section(m)
}

/// Each field of the "header" section that is present has its line there,
/// holding that field's own value under that field's own name.
proof fn lemma_header_lines(m: JSONMessageText)
    ensures
        has_line(header_section(m), field_line("Timestamp"@, m.timestamp@)),
        has_line(header_section(m), field_line("Message Type"@, m.message_type@)),
        has_line(header_section(m), field_line("Messages"@, m.number_of_received_messages@)),
{
    broadcast use group_report_lines;
}

/// Each field of the "identification" section that is present has its line there,
/// holding that field's own value under that field's own name.
proof fn lemma_identification_lines(m: JSONMessageText)
    ensures
        has_line(identification_section(m), field_line("Transponder Hex:"@, m.transponder_hex@)),
        m.transponder_squawk_code matches Some(v) ==> has_line(identification_section(m), field_line("Transponder Squawk Code"@, v@)),
        m.calculated_best_flight_id matches Some(v) ==> has_line(identification_section(m), field_line("Calculated Best Flight ID"@, v@)),
        m.aircraft_registration_from_database matches Some(v) ==> has_line(identification_section(m), field_line("Aircraft Registration from Database"@, v@)),
        m.aircraft_type_from_database matches Some(v) ==> has_line(identification_section(m), field_line("Aircraft Type from Database"@, v@)),
        m.aircraft_type_from_database_long_name matches Some(v) ==> has_line(identification_section(m), field_line("Aircraft Type from Database Long Name"@, v@)),
{
    broadcast use group_report_lines;
}

/// Each field from latitude to calculated track that is present has its line
/// in the "position" section, holding that field's own value under its name.
#[verifier::spinoff_prover]
#[verifier::rlimit(50)]
proof fn lemma_position_lines_first(m: JSONMessageText)
    ensures
        m.latitude matches Some(v) ==> has_line(position_section(m), field_line("Latitude"@, v@)),
        m.longitude matches Some(v) ==> has_line(position_section(m), field_line("Longitude"@, v@)),
        m.ground_speed matches Some(v) ==> has_line(position_section(m), field_line("Ground Speed"@, v@)),
        m.indicated_air_speed matches Some(v) ==> has_line(position_section(m), field_line("Indicator Air Speed"@, v@)),
        m.true_air_speed matches Some(v) ==> has_line(position_section(m), field_line("True Air Speed"@, v@)),
        m.true_track_over_ground matches Some(v) ==> has_line(position_section(m), field_line("True Track Over Ground"@, v@)),
        m.true_heading matches Some(v) ==> has_line(position_section(m), field_line("True Heading"@, v@)),
        m.magnetic_heading matches Some(v) ==> has_line(position_section(m), field_line("Magnetic Heading"@, v@)),
{
    broadcast use group_report_lines;
}
/// Each field from last time seen to geometric altitude rate that is present
/// has its line in the "position" section, holding that field's own value
/// under its name.
#[verifier::spinoff_prover]
#[verifier::rlimit(50)]
proof fn lemma_position_lines_second(m: JSONMessageText)
    ensures
        m.last_known_position matches Some(v) ==> has_line(position_section(m), field_line("Last Known Position"@, v@)),
        m.calculated_track matches Some(v) ==> has_line(position_section(m), field_line("Calculated Track"@, v@)),
        has_line(position_section(m), field_line("Last Time Seen"@, m.last_time_seen@)),
        m.last_time_seen_pos_and_alt matches Some(v) ==> has_line(position_section(m), field_line("Last Time Seen Position and Altitude"@, v@)),
        m.barometric_altitude matches Some(v) ==> has_line(position_section(m), field_line("Barometric Altitude"@, v@)),
        m.barometric_altitude_rate matches Some(v) ==> has_line(position_section(m), field_line("Barometric Altitude Rate"@, v@)),
        m.geometric_altitude matches Some(v) ==> has_line(position_section(m), field_line("Geometric Altitude"@, v@)),
        m.geometric_altitude_rate matches Some(v) ==> has_line(position_section(m), field_line("Geometric Altitude Rate"@, v@)),
{
    broadcast use group_report_lines;
}

/// Each field of the "autopilot" section that is present has its line there,
/// holding that field's own value under that field's own name.
proof fn lemma_autopilot_lines(m: JSONMessageText)
    ensures
        m.flight_management_system_selected_altitude matches Some(v) ==> has_line(autopilot_section(m), field_line("Flight Management System Selected Altitude"@, v@)),
        m.autopilot_selected_altitude matches Some(v) ==> has_line(autopilot_section(m), field_line("Autopilot Selected Altitude"@, v@)),
        m.autopilot_selected_heading matches Some(v) ==> has_line(autopilot_section(m), field_line("Autopilot Selected Heading"@, v@)),
        m.selected_altimeter matches Some(v) ==> has_line(autopilot_section(m), field_line("Selected Altimeter"@, v@)),
        m.autopilot_modes matches Some(modes) ==> forall|k: int| 0 <= k < modes@.len() ==> has_line(autopilot_section(m), #[trigger] field_line("Autopilot Mode"@, modes@[k]@)),
{
    broadcast use group_report_lines;
    if let Some(modes) = m.autopilot_modes {
        assert forall|k: int| 0 <= k < modes@.len() implies has_line(autopilot_section(m), #[trigger] field_line("Autopilot Mode"@, modes@[k]@)) by {
            lemma_field_lines_hold("Autopilot Mode"@, modes@, k);
        }
        lemma_field_lines_end("Autopilot Mode"@, modes@);
    }
}

/// Each field of the "adsb_information" section that is present has its line there,
/// holding that field's own value under that field's own name.
proof fn lemma_adsb_information_lines(m: JSONMessageText)
    ensures
        m.category matches Some(v) ==> has_line(adsb_information_section(m), field_line("Category"@, v@)),
        m.db_flags matches Some(v) ==> has_line(adsb_information_section(m), field_line("DB Flags"@, v@)),
        m.emergency matches Some(v) ==> has_line(adsb_information_section(m), field_line("Emergency"@, v@)),
        m.geometric_verticle_accuracy matches Some(v) ==> has_line(adsb_information_section(m), field_line("Geometric Vertical Accuracy"@, v@)),
        m.navigation_accuracy_position matches Some(v) ==> has_line(adsb_information_section(m), field_line("Navigation Accuracy Position"@, v@)),
        m.navigation_accuracy_velocity matches Some(v) ==> has_line(adsb_information_section(m), field_line("Navigation Accuracy Velocity"@, v@)),
        m.naviation_integrity_category matches Some(v) ==> has_line(adsb_information_section(m), field_line("Navigation Integrity Category"@, v@)),
        m.barometeric_altitude_integrity_category matches Some(v) ==> has_line(adsb_information_section(m), field_line("Barometric Altitude Integrity Category"@, v@)),
        m.aircraft_direction_from_receiving_station matches Some(v) ==> has_line(adsb_information_section(m), field_line("Aircraft Direction from Receiving Station"@, v@)),
        m.aircract_distance_from_receiving_station matches Some(v) ==> has_line(adsb_information_section(m), field_line("Aircraft Distance from Receiving Station"@, v@)),
        m.radius_of_containment matches Some(v) ==> has_line(adsb_information_section(m), field_line("Radius of Containment"@, v@)),
        m.rssi matches Some(v) ==> has_line(adsb_information_section(m), field_line("RSSI"@, v@)),
        m.system_design_assurance matches Some(v) ==> has_line(adsb_information_section(m), field_line("System Design Assurance"@, v@)),
        m.source_integrity_level matches Some(v) ==> has_line(adsb_information_section(m), field_line("Source Integrity Level"@, v@)),
        m.sil_type matches Some(v) ==> has_line(adsb_information_section(m), field_line("Source Integrity Level Type"@, v@)),
        m.flight_status_special_position_id_bit matches Some(v) ==> has_line(adsb_information_section(m), field_line("Flight Status Special Position ID Bit"@, v@)),
        m.flight_status matches Some(v) ==> has_line(adsb_information_section(m), field_line("Flight Status"@, v@)),
        m.version matches Some(v) ==> has_line(adsb_information_section(m), field_line("Version"@, v@)),
        forall|k: int| 0 <= k < m.tisb@.len() ==> has_line(adsb_information_section(m), #[trigger] field_line("TISB Message"@, m.tisb@[k]@)),
        forall|k: int| 0 <= k < m.mlat@.len() ==> has_line(adsb_information_section(m), #[trigger] field_line("MLAT Message"@, m.mlat@[k]@)),
{
    broadcast use group_report_lines;
    assert forall|k: int| 0 <= k < m.tisb@.len() implies has_line(adsb_information_section(m), #[trigger] field_line("TISB Message"@, m.tisb@[k]@)) by {
        lemma_field_lines_hold("TISB Message"@, m.tisb@, k);
    }
    lemma_field_lines_end("TISB Message"@, m.tisb@);
    assert forall|k: int| 0 <= k < m.mlat@.len() implies has_line(adsb_information_section(m), #[trigger] field_line("MLAT Message"@, m.mlat@[k]@)) by {
        lemma_field_lines_hold("MLAT Message"@, m.mlat@, k);
    }
    lemma_field_lines_end("MLAT Message"@, m.mlat@);
}

/// The report shows every field that is present on a line of its own, as
/// `name: value`, where the value is that same field's value: no field's value
/// appears under another field's name, and none is left out.
pub proof fn lemma_json_message_report_lines(m: JSONMessageText)
    ensures
        has_line(json_message_report(m), field_line("Timestamp"@, m.timestamp@)),
        has_line(json_message_report(m), field_line("Message Type"@, m.message_type@)),
        has_line(json_message_report(m), field_line("Messages"@, m.number_of_received_messages@)),
        has_line(json_message_report(m), field_line("Transponder Hex:"@, m.transponder_hex@)),
        m.transponder_squawk_code matches Some(v) ==> has_line(json_message_report(m), field_line("Transponder Squawk Code"@, v@)),
        m.calculated_best_flight_id matches Some(v) ==> has_line(json_message_report(m), field_line("Calculated Best Flight ID"@, v@)),
        m.aircraft_registration_from_database matches Some(v) ==> has_line(json_message_report(m), field_line("Aircraft Registration from Database"@, v@)),
        m.aircraft_type_from_database matches Some(v) ==> has_line(json_message_report(m), field_line("Aircraft Type from Database"@, v@)),
        m.aircraft_type_from_database_long_name matches Some(v) ==> has_line(json_message_report(m), field_line("Aircraft Type from Database Long Name"@, v@)),
        m.latitude matches Some(v) ==> has_line(json_message_report(m), field_line("Latitude"@, v@)),
        m.longitude matches Some(v) ==> has_line(json_message_report(m), field_line("Longitude"@, v@)),
        m.ground_speed matches Some(v) ==> has_line(json_message_report(m), field_line("Ground Speed"@, v@)),
        m.indicated_air_speed matches Some(v) ==> has_line(json_message_report(m), field_line("Indicator Air Speed"@, v@)),
        m.true_air_speed matches Some(v) ==> has_line(json_message_report(m), field_line("True Air Speed"@, v@)),
        m.true_track_over_ground matches Some(v) ==> has_line(json_message_report(m), field_line("True Track Over Ground"@, v@)),
        m.true_heading matches Some(v) ==> has_line(json_message_report(m), field_line("True Heading"@, v@)),
        m.magnetic_heading matches Some(v) ==> has_line(json_message_report(m), field_line("Magnetic Heading"@, v@)),
        m.last_known_position matches Some(v) ==> has_line(json_message_report(m), field_line("Last Known Position"@, v@)),
        m.calculated_track matches Some(v) ==> has_line(json_message_report(m), field_line("Calculated Track"@, v@)),
        has_line(json_message_report(m), field_line("Last Time Seen"@, m.last_time_seen@)),
        m.last_time_seen_pos_and_alt matches Some(v) ==> has_line(json_message_report(m), field_line("Last Time Seen Position and Altitude"@, v@)),
        m.barometric_altitude matches Some(v) ==> has_line(json_message_report(m), field_line("Barometric Altitude"@, v@)),
        m.barometric_altitude_rate matches Some(v) ==> has_line(json_message_report(m), field_line("Barometric Altitude Rate"@, v@)),
        m.geometric_altitude matches Some(v) ==> has_line(json_message_report(m), field_line("Geometric Altitude"@, v@)),
        m.geometric_altitude_rate matches Some(v) ==> has_line(json_message_report(m), field_line("Geometric Altitude Rate"@, v@)),
        m.flight_management_system_selected_altitude matches Some(v) ==> has_line(json_message_report(m), field_line("Flight Management System Selected Altitude"@, v@)),
        m.autopilot_selected_altitude matches Some(v) ==> has_line(json_message_report(m), field_line("Autopilot Selected Altitude"@, v@)),
        m.autopilot_selected_heading matches Some(v) ==> has_line(json_message_report(m), field_line("Autopilot Selected Heading"@, v@)),
        m.selected_altimeter matches Some(v) ==> has_line(json_message_report(m), field_line("Selected Altimeter"@, v@)),
        m.autopilot_modes matches Some(modes) ==> forall|k: int| 0 <= k < modes@.len() ==> has_line(json_message_report(m), #[trigger] field_line("Autopilot Mode"@, modes@[k]@)),
        m.category matches Some(v) ==> has_line(json_message_report(m), field_line("Category"@, v@)),
        m.db_flags matches Some(v) ==> has_line(json_message_report(m), field_line("DB Flags"@, v@)),
        m.emergency matches Some(v) ==> has_line(json_message_report(m), field_line("Emergency"@, v@)),
        m.geometric_verticle_accuracy matches Some(v) ==> has_line(json_message_report(m), field_line("Geometric Vertical Accuracy"@, v@)),
        m.navigation_accuracy_position matches Some(v) ==> has_line(json_message_report(m), field_line("Navigation Accuracy Position"@, v@)),
        m.navigation_accuracy_velocity matches Some(v) ==> has_line(json_message_report(m), field_line("Navigation Accuracy Velocity"@, v@)),
        m.naviation_integrity_category matches Some(v) ==> has_line(json_message_report(m), field_line("Navigation Integrity Category"@, v@)),
        m.barometeric_altitude_integrity_category matches Some(v) ==> has_line(json_message_report(m), field_line("Barometric Altitude Integrity Category"@, v@)),
        m.aircraft_direction_from_receiving_station matches Some(v) ==> has_line(json_message_report(m), field_line("Aircraft Direction from Receiving Station"@, v@)),
        m.aircract_distance_from_receiving_station matches Some(v) ==> has_line(json_message_report(m), field_line("Aircraft Distance from Receiving Station"@, v@)),
        m.radius_of_containment matches Some(v) ==> has_line(json_message_report(m), field_line("Radius of Containment"@, v@)),
        m.rssi matches Some(v) ==> has_line(json_message_report(m), field_line("RSSI"@, v@)),
        m.system_design_assurance matches Some(v) ==> has_line(json_message_report(m), field_line("System Design Assurance"@, v@)),
        m.source_integrity_level matches Some(v) ==> has_line(json_message_report(m), field_line("Source Integrity Level"@, v@)),
        m.sil_type matches Some(v) ==> has_line(json_message_report(m), field_line("Source Integrity Level Type"@, v@)),
        m.flight_status_special_position_id_bit matches Some(v) ==> has_line(json_message_report(m), field_line("Flight Status Special Position ID Bit"@, v@)),
        m.flight_status matches Some(v) ==> has_line(json_message_report(m), field_line("Flight Status"@, v@)),
        m.version matches Some(v) ==> has_line(json_message_report(m), field_line("Version"@, v@)),
        forall|k: int| 0 <= k < m.tisb@.len() ==> has_line(json_message_report(m), #[trigger] field_line("TISB Message"@, m.tisb@[k]@)),
        forall|k: int| 0 <= k < m.mlat@.len() ==> has_line(json_message_report(m), #[trigger] field_line("MLAT Message"@, m.mlat@[k]@)),
{
    broadcast use group_report_lines;
    lemma_header_lines(m);
    lemma_identification_lines(m);
    lemma_position_lines_first(m);
    lemma_position_lines_second(m);
    lemma_autopilot_lines(m);
    lemma_adsb_information_lines(m);
    lemma_section_ends(m);
}

/// The report of a message ends a line, so what follows it starts a line.
pub proof fn lemma_json_message_report_ends(m: JSONMessageText)
    ensures
        ends_line(json_message_report(m)),
{
    broadcast use group_report_lines;
    lemma_section_ends(m);
}

/// Every section ends a line.
proof fn lemma_section_ends(m: JSONMessageText)
    ensures
        ends_line(header_section(m)),
        ends_line(identification_section(m)),
        ends_line(position_section(m)),
        ends_line(autopilot_section(m)),
        ends_line(adsb_information_section(m)),
{
    broadcast use group_report_lines;
    lemma_field_lines_end("TISB Message"@, m.tisb@);
    lemma_field_lines_end("MLAT Message"@, m.mlat@);
    if let Some(modes) = m.autopilot_modes {
        lemma_field_lines_end("Autopilot Mode"@, modes@);
    }
}

impl JSONMessageText {
    /// Appends the "JSON Message" section.
    fn pretty_print_header(&self, output: &mut String)
        ensures
            final(output)@ == old(output)@ + header_section(*self),
    {
        let mut section = String::new();
        proof {
            reveal_strlit("JSON Message");
            assert("JSON Message"@ =~= seq!['J', 'S', 'O', 'N', ' ', 'M', 'e', 's', 's', 'a', 'g', 'e']);
        }
        pretty_print_label("JSON Message", &mut section);
        pretty_print_field("Timestamp", self.timestamp.as_str(), &mut section);
        pretty_print_field("Message Type", self.message_type.as_str(), &mut section);
        pretty_print_field("Messages", self.number_of_received_messages.as_str(), &mut section);
        assert(section@ =~= header_section(*self));
        output.append(section.as_str());
    }

    /// Appends the "Aircraft Identification" section.
    fn pretty_print_identification(&self, output: &mut String)
        ensures
            final(output)@ == old(output)@ + identification_section(*self),
    {
        let mut section = String::new();
        proof {
            reveal_strlit("Aircraft Identification");
            assert("Aircraft Identification"@ =~= seq!['A', 'i', 'r', 'c', 'r', 'a', 'f', 't', ' ', 'I', 'd', 'e', 'n', 't', 'i', 'f', 'i', 'c', 'a', 't', 'i', 'o', 'n']);
        }
        pretty_print_label("Aircraft Identification", &mut section);
        pretty_print_field("Transponder Hex:", self.transponder_hex.as_str(), &mut section);
        pretty_print_field_from_option("Transponder Squawk Code", &self.transponder_squawk_code, &mut section);
        pretty_print_field_from_option("Calculated Best Flight ID", &self.calculated_best_flight_id, &mut section);
        pretty_print_field_from_option("Aircraft Registration from Database", &self.aircraft_registration_from_database, &mut section);
        pretty_print_field_from_option("Aircraft Type from Database", &self.aircraft_type_from_database, &mut section);
        pretty_print_field_from_option("Aircraft Type from Database Long Name", &self.aircraft_type_from_database_long_name, &mut section);
        assert(section@ =~= identification_section(*self));
        output.append(section.as_str());
    }

    /// Appends the "Aircraft Position, Altitude and Speed" section.
    fn pretty_print_position(&self, output: &mut String)
        ensures
            final(output)@ == old(output)@ + position_section(*self),
    {
        let mut section = String::new();
        proof {
            reveal_strlit("Aircraft Position, Altitude and Speed");
            assert("Aircraft Position, Altitude and Speed"@ =~= seq!['A', 'i', 'r', 'c', 'r', 'a', 'f', 't', ' ', 'P', 'o', 's', 'i', 't', 'i', 'o', 'n', ',', ' ', 'A', 'l', 't', 'i', 't', 'u', 'd', 'e', ' ', 'a', 'n', 'd', ' ', 'S', 'p', 'e', 'e', 'd']);
        }
        pretty_print_label("Aircraft Position, Altitude and Speed", &mut section);
        pretty_print_field_from_option("Latitude", &self.latitude, &mut section);
        pretty_print_field_from_option("Longitude", &self.longitude, &mut section);
        pretty_print_field_from_option("Ground Speed", &self.ground_speed, &mut section);
        pretty_print_field_from_option("Indicator Air Speed", &self.indicated_air_speed, &mut section);
        pretty_print_field_from_option("True Air Speed", &self.true_air_speed, &mut section);
        pretty_print_field_from_option("True Track Over Ground", &self.true_track_over_ground, &mut section);
        pretty_print_field_from_option("True Heading", &self.true_heading, &mut section);
        pretty_print_field_from_option("Magnetic Heading", &self.magnetic_heading, &mut section);
        pretty_print_field_from_option("Last Known Position", &self.last_known_position, &mut section);
        pretty_print_field_from_option("Calculated Track", &self.calculated_track, &mut section);
        pretty_print_field("Last Time Seen", self.last_time_seen.as_str(), &mut section);
        pretty_print_field_from_option("Last Time Seen Position and Altitude", &self.last_time_seen_pos_and_alt, &mut section);
        pretty_print_field_from_option("Barometric Altitude", &self.barometric_altitude, &mut section);
        pretty_print_field_from_option("Barometric Altitude Rate", &self.barometric_altitude_rate, &mut section);
        pretty_print_field_from_option("Geometric Altitude", &self.geometric_altitude, &mut section);
        pretty_print_field_from_option("Geometric Altitude Rate", &self.geometric_altitude_rate, &mut section);
        assert(section@ =~= position_section(*self));
        output.append(section.as_str());
    }

    /// Appends the "Autopilot Settings" section.
    fn pretty_print_autopilot(&self, output: &mut String)
        ensures
            final(output)@ == old(output)@ + autopilot_section(*self),
    {
        let mut section = String::new();
        proof {
            reveal_strlit("Autopilot Settings");
            assert("Autopilot Settings"@ =~= seq!['A', 'u', 't', 'o', 'p', 'i', 'l', 'o', 't', ' ', 'S', 'e', 't', 't', 'i', 'n', 'g', 's']);
        }
        pretty_print_label("Autopilot Settings", &mut section);
        pretty_print_field_from_option("Flight Management System Selected Altitude", &self.flight_management_system_selected_altitude, &mut section);
        pretty_print_field_from_option("Autopilot Selected Altitude", &self.autopilot_selected_altitude, &mut section);
        pretty_print_field_from_option("Autopilot Selected Heading", &self.autopilot_selected_heading, &mut section);
        if let Some(autopilot_modes) = &self.autopilot_modes {
            pretty_print_fields("Autopilot Mode", autopilot_modes, &mut section);
        }
        pretty_print_field_from_option("Selected Altimeter", &self.selected_altimeter, &mut section);
        assert(section@ =~= autopilot_section(*self));
        output.append(section.as_str());
    }

    /// Appends the "ADSB Information" section.
    fn pretty_print_adsb_information(&self, output: &mut String)
        ensures
            final(output)@ == old(output)@ + adsb_information_section(*self),
    {
        let mut section = String::new();
        proof {
            reveal_strlit("ADSB Information");
            assert("ADSB Information"@ =~= seq!['A', 'D', 'S', 'B', ' ', 'I', 'n', 'f', 'o', 'r', 'm', 'a', 't', 'i', 'o', 'n']);
        }
        pretty_print_label("ADSB Information", &mut section);
        pretty_print_field_from_option("Category", &self.category, &mut section);
        pretty_print_field_from_option("DB Flags", &self.db_flags, &mut section);
        pretty_print_field_from_option("Emergency", &self.emergency, &mut section);
        pretty_print_field_from_option("Geometric Vertical Accuracy", &self.geometric_verticle_accuracy, &mut section);
        pretty_print_field_from_option("Navigation Accuracy Position", &self.navigation_accuracy_position, &mut section);
        pretty_print_field_from_option("Navigation Accuracy Velocity", &self.navigation_accuracy_velocity, &mut section);
        pretty_print_field_from_option("Navigation Integrity Category", &self.naviation_integrity_category, &mut section);
        pretty_print_field_from_option("Barometric Altitude Integrity Category", &self.barometeric_altitude_integrity_category, &mut section);
        pretty_print_field_from_option("Aircraft Direction from Receiving Station", &self.aircraft_direction_from_receiving_station, &mut section);
        pretty_print_field_from_option("Aircraft Distance from Receiving Station", &self.aircract_distance_from_receiving_station, &mut section);
        pretty_print_field_from_option("Radius of Containment", &self.radius_of_containment, &mut section);
        pretty_print_field_from_option("RSSI", &self.rssi, &mut section);
        pretty_print_field_from_option("System Design Assurance", &self.system_design_assurance, &mut section);
        pretty_print_field_from_option("Source Integrity Level", &self.source_integrity_level, &mut section);
        pretty_print_field_from_option("Source Integrity Level Type", &self.sil_type, &mut section);
        pretty_print_field_from_option("Flight Status Special Position ID Bit", &self.flight_status_special_position_id_bit, &mut section);
        pretty_print_field_from_option("Flight Status", &self.flight_status, &mut section);
        pretty_print_field_from_option("Version", &self.version, &mut section);
        pretty_print_fields("TISB Message", &self.tisb, &mut section);
        pretty_print_fields("MLAT Message", &self.mlat, &mut section);
        assert(section@ =~= adsb_information_section(*self));
        output.append(section.as_str());
    }

    /// The report of this message: every section, with a line for each field
    /// that is present.
    pub fn pretty_print(&self) -> (res: String)
        ensures
            res@ == json_message_report(*self),
    {
        let mut output = String::new();
        self.pretty_print_header(&mut output);
        self.pretty_print_identification(&mut output);
        self.pretty_print_position(&mut output);
        self.pretty_print_autopilot(&mut output);
        self.pretty_print_adsb_information(&mut output);
        assert(output@ =~= json_message_report(*self));
        output
    }
}

} // verus!
