//! The last known position of an aircraft (`lastPosition` in aircraft.json),
//! shown on one line: each part that is known, tab separated, then its age.

use vstd::prelude::*;
use vstd::string::*;

use crate::decoders::helpers::strings::{contains_text, group_contains_text};

verus! {

/// The displayed parts of a last known position, rendered already; an unknown
/// part is `None`.
pub struct LastKnownPositionText {
    /// Shown as "Latitude".
    pub latitude: Option<String>,
    /// Shown as "Longitude".
    pub longitude: Option<String>,
    /// Shown as "NIC".
    pub naviation_integrity_category: Option<String>,
    /// Shown as "Radius of Containment".
    pub radius_of_containment: Option<String>,
    /// Shown as "Last Seen".
    pub last_time_seen: String,
}

/// `\t<name>: <value>` when the value is known, nothing otherwise.
pub open spec fn position_part(name: Seq<char>, value: Option<String>) -> Seq<char> {
    match value {
        Some(v) => seq!['\t'] + name + seq![':', ' '] + v@,
        None => Seq::<char>::empty(),
    }
}

/// The line of a last known position.
pub open spec fn last_known_position_text(p: LastKnownPositionText) -> Seq<char> {
    "Last Known Position:"@ + position_part("Latitude"@, p.latitude) + position_part(
        "Longitude"@,
        p.longitude,
    ) + position_part("NIC"@, p.naviation_integrity_category) + position_part(
        "Radius of Containment"@,
        p.radius_of_containment,
    ) + seq!['\t'] + "Last Seen"@ + seq![':', ' '] + p.last_time_seen@
}

/// Appends `\t<name>: <value>` when the value is known.
fn push_position_part(output: &mut String, name: &str, value: &Option<String>)
    ensures
        final(output)@ == old(output)@ + position_part(name@, *value),
{
    if let Some(v) = value {
        output.append("\t");
        output.append(name);
        output.append(": ");
        output.append(v.as_str());
        proof {
            reveal_strlit("\t");
            reveal_strlit(": ");
        }
        assert(final(output)@ =~= old(output)@ + position_part(name@, *value));
    } else {
        assert(final(output)@ =~= old(output)@ + position_part(name@, *value));
    }
}

/// The line of a position shows each known part under its own name, holding
/// that part's own value, and always the age under "Last Seen".
pub proof fn lemma_last_known_position_parts(p: LastKnownPositionText)
    ensures
        p.latitude matches Some(v) ==> contains_text(
            last_known_position_text(p),
            position_part("Latitude"@, Some(v)),
        ),
        p.longitude matches Some(v) ==> contains_text(
            last_known_position_text(p),
            position_part("Longitude"@, Some(v)),
        ),
        p.naviation_integrity_category matches Some(v) ==> contains_text(
            last_known_position_text(p),
            position_part("NIC"@, Some(v)),
        ),
        p.radius_of_containment matches Some(v) ==> contains_text(
            last_known_position_text(p),
            position_part("Radius of Containment"@, Some(v)),
        ),
        contains_text(
            last_known_position_text(p),
            seq!['\t'] + "Last Seen"@ + seq![':', ' '] + p.last_time_seen@,
        ),
{
    broadcast use group_contains_text;
    let t = last_known_position_text(p);
    let tail = seq!['\t'] + "Last Seen"@ + seq![':', ' '] + p.last_time_seen@;
    let head = "Last Known Position:"@ + position_part("Latitude"@, p.latitude) + position_part(
        "Longitude"@,
        p.longitude,
    ) + position_part("NIC"@, p.naviation_integrity_category) + position_part(
        "Radius of Containment"@,
        p.radius_of_containment,
    );
    assert(t =~= head + tail);
}

impl LastKnownPositionText {
    /// The line of this position: `Last Known Position:`, each known part as
    /// `\t<name>: <value>`, then `\tLast Seen: <age>`.
    pub fn to_string(&self) -> (res: String)
        ensures
            res@ == last_known_position_text(*self),
    {
        let mut output = String::from_str("Last Known Position:");
        push_position_part(&mut output, "Latitude", &self.latitude);
        push_position_part(&mut output, "Longitude", &self.longitude);
        push_position_part(&mut output, "NIC", &self.naviation_integrity_category);
        push_position_part(&mut output, "Radius of Containment", &self.radius_of_containment);
        output.append("\tLast Seen: ");
        output.append(self.last_time_seen.as_str());
        proof {
            reveal_strlit("\tLast Seen: ");
            reveal_strlit("\t");
            reveal_strlit(": ");
            assert("\tLast Seen: "@ =~= seq!['\t'] + "Last Seen"@ + seq![':', ' ']) by {
                reveal_strlit("Last Seen");
            }
        }
        assert(output@ =~= last_known_position_text(*self));
        output
    }
}

} // verus!
