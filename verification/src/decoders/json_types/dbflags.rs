//! Database flags of an aircraft (`dbFlags` in aircraft.json): military,
//! interesting, PIA and LADD.

use vstd::prelude::*;
use vstd::string::*;

use crate::decoders::helpers::strings::{decimal_digits, push_decimal};

verus! {

#[derive(Debug, Clone, Copy, PartialEq, Eq, Structural, PartialOrd)]
pub enum DBFlags {
    Military,
    Interesting,
    PIA,
    LADD,
    NoFlags,
}

impl Default for DBFlags {
    fn default() -> (res: Self)
        ensures
            res == DBFlags::NoFlags,
    {
        DBFlags::NoFlags
    }
}

impl DBFlags {
    /// The number a flag is serialized as.
    pub open spec fn wire_value(self) -> u8 {
        match self {
            DBFlags::Military => 1,
            DBFlags::Interesting => 2,
            DBFlags::PIA => 4,
            DBFlags::LADD => 8,
            DBFlags::NoFlags => 0,
        }
    }

    /// The flag a bit set stands for: the lowest of the bits 1 (military),
    /// 2 (interesting), 4 (PIA) and 8 (LADD) that is set; none when none of
    /// them is.
    pub open spec fn from_wire_value(db_flags: u8) -> Option<DBFlags> {
        if db_flags & 1 != 0 {
            Some(DBFlags::Military)
        } else if db_flags & 2 != 0 {
            Some(DBFlags::Interesting)
        } else if db_flags & 4 != 0 {
            Some(DBFlags::PIA)
        } else if db_flags & 8 != 0 {
            Some(DBFlags::LADD)
        } else {
            None
        }
    }

    /// The human readable text of a flag.
    pub open spec fn display_text(self) -> Seq<char> {
        match self {
            DBFlags::Military => "Military"@,
            DBFlags::Interesting => "Interesting"@,
            DBFlags::PIA => "PIA"@,
            DBFlags::LADD => "LADD"@,
            DBFlags::NoFlags => "None"@,
        }
    }

    /// The number this flag is serialized as.
    pub fn serialize(&self) -> (res: u8)
        ensures
            res == self.wire_value(),
    {
        match self {
            DBFlags::Military => 1,
            DBFlags::Interesting => 2,
            DBFlags::PIA => 4,
            DBFlags::LADD => 8,
            DBFlags::NoFlags => 0,
        }
    }

    /// The human readable text of this flag.
    pub fn to_string(&self) -> (res: String)
        ensures
            res@ == self.display_text(),
    {
        match self {
            DBFlags::Military => String::from_str("Military"),
            DBFlags::Interesting => String::from_str("Interesting"),
            DBFlags::PIA => String::from_str("PIA"),
            DBFlags::LADD => String::from_str("LADD"),
            DBFlags::NoFlags => String::from_str("None"),
        }
    }
}

impl TryFrom<u8> for DBFlags {
    type Error = String;

    fn try_from(db_flags: u8) -> (res: Result<Self, Self::Error>)
        ensures
            match DBFlags::from_wire_value(db_flags) {
                Some(value) => res == Ok::<DBFlags, String>(value),
                None => res matches Err(message) && message@
                    == "DBFlags should be a value between 0 and 15, inclusive. Found: "@
                    + decimal_digits(db_flags as nat),
            },
    {
        if db_flags & 1 != 0 {
            Ok(Self::Military)
        } else if db_flags & 2 != 0 {
            Ok(Self::Interesting)
        } else if db_flags & 4 != 0 {
            Ok(Self::PIA)
        } else if db_flags & 8 != 0 {
            Ok(Self::LADD)
        } else {
            let mut message = String::from_str(
                "DBFlags should be a value between 0 and 15, inclusive. Found: ",
            );
            push_decimal(&mut message, db_flags as u64);
            Err(message)
        }
    }
}

impl vstd::std_specs::convert::TryFromSpecImpl<u8> for DBFlags {
    /// The error for a refused number is a message, which no spec value can
    /// carry; `try_from` states its exact result itself.
    open spec fn obeys_try_from_spec() -> bool {
        false
    }

    open spec fn try_from_spec(value: u8) -> Result<Self, String> {
        arbitrary()
    }
}

/// Serializing a flag other than `NoFlags` and reading the number back gives
/// the flag; `NoFlags` is serialized as 0, which reading refuses.
pub proof fn lemma_db_flags_round_trip(flag: DBFlags)
    ensures
        flag != DBFlags::NoFlags ==> DBFlags::from_wire_value(flag.wire_value()) == Some(flag),
        DBFlags::from_wire_value(DBFlags::NoFlags.wire_value()) is None,
{
    assert(1u8 & 1 != 0 && 2u8 & 1 == 0 && 2u8 & 2 != 0 && 4u8 & 1 == 0 && 4u8 & 2 == 0 && 4u8 & 4
        != 0 && 8u8 & 1 == 0 && 8u8 & 2 == 0 && 8u8 & 4 == 0 && 8u8 & 8 != 0 && 0u8 & 1 == 0 && 0u8
        & 2 == 0 && 0u8 & 4 == 0 && 0u8 & 8 == 0) by (bit_vector);
}

/// Every number from 1 to 15 is read as a flag; 0 and the multiples of 16 are
/// refused.
pub proof fn lemma_db_flags_accepted(db_flags: u8)
    ensures
        DBFlags::from_wire_value(db_flags) is Some <==> db_flags % 16 != 0,
{
    assert(((db_flags & 1 != 0) || (db_flags & 2 != 0) || (db_flags & 4 != 0) || (db_flags & 8
        != 0)) <==> db_flags % 16 != 0) by (bit_vector);
}

/// A flags number is read by its lowest set bit among the four flags of
/// readsb: bit 1 military, bit 2 interesting, bit 4 PIA, bit 8 LADD; a number
/// with none of them set is refused.
pub proof fn lemma_db_flags_number_named(n: u8)
    ensures
        n & 1 != 0 ==> (DBFlags::from_wire_value(n) matches Some(f) && f.display_text()
            == "Military"@),
        n & 1 == 0 && n & 2 != 0 ==> (DBFlags::from_wire_value(n) matches Some(f) && f.display_text()
            == "Interesting"@),
        n & 3 == 0 && n & 4 != 0 ==> (DBFlags::from_wire_value(n) matches Some(f) && f.display_text()
            == "PIA"@),
        n & 7 == 0 && n & 8 != 0 ==> (DBFlags::from_wire_value(n) matches Some(f) && f.display_text()
            == "LADD"@),
        n & 15 == 0 ==> DBFlags::from_wire_value(n) is None,
{
    reveal_strlit("Military");
    assert("Military"@ =~= seq!['M', 'i', 'l', 'i', 't', 'a', 'r', 'y']);
    reveal_strlit("Interesting");
    assert("Interesting"@ =~= seq!['I', 'n', 't', 'e', 'r', 'e', 's', 't', 'i', 'n', 'g']);
    reveal_strlit("PIA");
    assert("PIA"@ =~= seq!['P', 'I', 'A']);
    reveal_strlit("LADD");
    assert("LADD"@ =~= seq!['L', 'A', 'D', 'D']);
    reveal_strlit("None");
    assert("None"@ =~= seq!['N', 'o', 'n', 'e']);
    assert(n & 1 == 0 && n & 2 == 0 ==> n & 3 == 0) by (bit_vector);
    assert(n & 3 == 0 ==> n & 1 == 0 && n & 2 == 0) by (bit_vector);
    assert(n & 7 == 0 ==> n & 3 == 0 && n & 4 == 0) by (bit_vector);
    assert(n & 15 == 0 ==> n & 7 == 0 && n & 8 == 0) by (bit_vector);
}

} // verus!
