//! MLAT data of a Beast frame; it carries no field of its own.

use vstd::prelude::*;

verus! {

#[derive(Debug, Clone, Copy, PartialEq, Eq, Structural)]
pub struct MLATBeast {}

} // verus!
