//! Type coding set of an aircraft identification message: the letter of the
//! emitter category set the message's category number belongs to.

use vstd::prelude::*;

verus! {

#[derive(Debug, Clone, Copy, PartialEq, Eq, Structural)]
pub enum TypeCoding {
    D,
    C,
    B,
    A,
}

impl TypeCoding {
    /// The letter naming the set.
    pub open spec fn letter(self) -> char {
        match self {
            TypeCoding::A => 'A',
            TypeCoding::B => 'B',
            TypeCoding::C => 'C',
            TypeCoding::D => 'D',
        }
    }
}

} // verus!
