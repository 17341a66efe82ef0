//! The text report of a whole `aircraft.json` snapshot: a banner, the time and
//! message count, a second banner, then the report of each aircraft in order.

use vstd::prelude::*;
use vstd::string::*;

use crate::decoders::helpers::prettyprint::{
    ends_line,
    field_line,
    group_report_lines,
    has_line,
    label_line,
    lemma_has_line_after,
    lemma_has_line_extend,
    lemma_has_line_self,
    pretty_print_field,
    pretty_print_label,
};
use crate::decoders::helpers::strings::{decimal_digits, decimal_string};
use crate::decoders::json::{json_message_report, lemma_json_message_report_ends, JSONMessageText};

verus! {

/// The displayed form of an `aircraft.json` snapshot: its time as rendered,
/// the total message count, and the rendered fields of each aircraft.
pub struct AircraftJSONText {
    /// Shown as "Time".
    pub timestamp: String,
    /// Shown as "Messages".
    pub messages: u64,
    /// One report each, in this order.
    pub aircraft: Vec<JSONMessageText>,
}

/// The reports of the given aircraft, one after the other.
pub open spec fn aircraft_reports(aircraft: Seq<JSONMessageText>) -> Seq<char>
    decreases aircraft.len(),
{
    if aircraft.len() == 0 {
        Seq::<char>::empty()
    } else {
        aircraft_reports(aircraft.drop_last()) + json_message_report(aircraft.last())
    }
}

/// The whole report of a snapshot.
pub open spec fn aircraft_json_report(a: AircraftJSONText) -> Seq<char> {
    label_line("Aircraft JSON"@) + field_line("Time"@, a.timestamp@) + field_line(
        "Messages"@,
        decimal_digits(a.messages as nat),
    ) + label_line("Aircraft"@) + aircraft_reports(a.aircraft@)
}

/// The reports of a list of aircraft end a line, and each aircraft's report
/// stands among them starting a line.
proof fn lemma_aircraft_reports_hold(aircraft: Seq<JSONMessageText>, k: int)
    requires
        0 <= k < aircraft.len(),
    ensures
        ends_line(aircraft_reports(aircraft)),
        has_line(aircraft_reports(aircraft), json_message_report(aircraft[k])),
    decreases aircraft.len(),
{
    broadcast use group_report_lines;
    let init = aircraft.drop_last();
    let last = json_message_report(aircraft.last());
    lemma_json_message_report_ends(aircraft.last());
    if init.len() > 0 {
        lemma_aircraft_reports_hold(init, 0);
    }
    if k < init.len() {
        lemma_aircraft_reports_hold(init, k);
        assert(init[k] == aircraft[k]);
        lemma_has_line_extend(aircraft_reports(init), last, json_message_report(aircraft[k]));
    } else {
        lemma_has_line_self(last);
        lemma_has_line_after(aircraft_reports(init), last, last);
    }
}

/// The report of a snapshot shows its time and its message count on their own
/// named lines, and holds the whole report of every aircraft, each starting a
/// line.
pub proof fn lemma_aircraft_json_report_lines(a: AircraftJSONText)
    ensures
        has_line(aircraft_json_report(a), field_line("Time"@, a.timestamp@)),
        has_line(aircraft_json_report(a), field_line("Messages"@, decimal_digits(a.messages as nat))),
        forall|k: int|
            0 <= k < a.aircraft@.len() ==> has_line(
                aircraft_json_report(a),
                #[trigger] json_message_report(a.aircraft@[k]),
            ),
{
    broadcast use group_report_lines;
    assert forall|k: int| 0 <= k < a.aircraft@.len() implies has_line(
        aircraft_json_report(a),
        #[trigger] json_message_report(a.aircraft@[k]),
    ) by {
        lemma_aircraft_reports_hold(a.aircraft@, k);
    }
}

impl AircraftJSONText {
    /// The report of this snapshot: its banner, time and message count, then
    /// the report of every aircraft in order.
    pub fn pretty_print(&self) -> (res: String)
        ensures
            res@ == aircraft_json_report(*self),
    {
        let mut output: String = String::new();
        proof {
            reveal_strlit("Aircraft JSON");
            assert("Aircraft JSON"@ =~= seq![
                'A', 'i', 'r', 'c', 'r', 'a', 'f', 't', ' ', 'J', 'S', 'O', 'N',
            ]);
            reveal_strlit("Aircraft");
            assert("Aircraft"@ =~= seq!['A', 'i', 'r', 'c', 'r', 'a', 'f', 't']);
        }
        pretty_print_label("Aircraft JSON", &mut output);
        pretty_print_field("Time", self.timestamp.as_str(), &mut output);
        let messages = decimal_string(self.messages);
        pretty_print_field("Messages", messages.as_str(), &mut output);
        pretty_print_label("Aircraft", &mut output);
        let ghost heading = output@;
        let mut i: usize = 0;
        while i < self.aircraft.len()
            invariant
                i <= self.aircraft.len(),
                output@ == heading + aircraft_reports(self.aircraft@.subrange(0, i as int)),
            decreases self.aircraft.len() - i,
        {
            let report = self.aircraft[i].pretty_print();
            output.append(report.as_str());
            assert(self.aircraft@.subrange(0, i + 1).drop_last() =~= self.aircraft@.subrange(
                0,
                i as int,
            ));
            i = i + 1;
        }
        assert(self.aircraft@.subrange(0, self.aircraft@.len() as int) =~= self.aircraft@);
        assert(output@ =~= aircraft_json_report(*self));
        output
    }
}

} // verus!
