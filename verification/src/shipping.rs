//! A package with a sender, a recipient and a weight, and its transport
//! fees.

use vstd::prelude::*;

verus! {

/// A parcel. Its weight is at least ten grams: lighter packages cannot be
/// shipped, and [`Package::new`] refuses them.
pub struct Package {
    pub sender_country: String,
    pub recipient_country: String,
    pub weight_in_grams: u32,
}

impl Package {
    /// Builds a package from its parts. A package lighter than ten grams
    /// cannot be shipped, so such a weight is refused up front.
    pub fn new(sender_country: String, recipient_country: String, weight_in_grams: u32) -> (package:
        Self)
        requires
            weight_in_grams >= 10,
        ensures
            package.sender_country@ == sender_country@,
            package.recipient_country@ == recipient_country@,
            package.weight_in_grams == weight_in_grams,
    {
        Self { sender_country, recipient_country, weight_in_grams }
    }

    /// A package is international exactly when sender and recipient
    /// countries differ.
    pub fn is_international(&self) -> (r: bool)
        ensures
            r == (self.sender_country@ != self.recipient_country@),
    {
        !(self.sender_country == self.recipient_country)
    }

    /// The transport fees: the weight times the rate in cents per gram.
    pub fn get_fees(&self, cents_per_gram: u32) -> (fees: u32)
        requires
            self.weight_in_grams * cents_per_gram <= u32::MAX,
        ensures
            fees == self.weight_in_grams * cents_per_gram,
    {
        self.weight_in_grams * cents_per_gram
    }
}

} // verus!
