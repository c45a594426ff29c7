//! Three shapes of struct for a color: named fields, a tuple, and a unit
//! marker.

use vstd::prelude::*;

verus! {

/// A color as a struct with named channel fields.
pub struct ColorRegularStruct {
    pub red: u8,
    pub green: u8,
    pub blue: u8,
}

/// A color as a tuple struct: red, green and blue in order.
pub struct ColorTupleStruct(pub u8, pub u8, pub u8);

/// A struct with no fields at all.
#[derive(Debug)]
pub struct UnitStruct;

} // verus!
