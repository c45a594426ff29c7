//! An order record and the template it is filled in from.

use vstd::prelude::*;

verus! {

/// One order: who placed it, when, how, and for what.
pub struct Order {
    pub name: String,
    pub year: u32,
    pub made_by_phone: bool,
    pub made_by_mobile: bool,
    pub made_by_email: bool,
    pub item_number: u32,
    pub count: u32,
}

/// The template order: every field holds its starting value, from which a
/// caller overrides what differs.
pub fn create_order_template() -> (order: Order)
    ensures
        order.name@ == "Bob"@,
        order.year == 2019,
        !order.made_by_phone,
        !order.made_by_mobile,
        order.made_by_email,
        order.item_number == 123,
        order.count == 0,
{
    Order {
        name: "Bob".to_owned(),
        year: 2019,
        made_by_phone: false,
        made_by_mobile: false,
        made_by_email: true,
        item_number: 123,
        count: 0,
    }
}

} // verus!
