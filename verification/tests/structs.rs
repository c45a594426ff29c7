use basics::colors::ColorRegularStruct;
use basics::colors::ColorTupleStruct;
use basics::colors::UnitStruct;
use basics::orders::create_order_template;
use basics::orders::Order;

#[test]
fn regular_structs() {
    let green = ColorRegularStruct { red: 0, green: 255, blue: 0 };

    assert_eq!(green.red, 0);
    assert_eq!(green.green, 255);
    assert_eq!(green.blue, 0);
}

#[test]
fn tuple_structs() {
    let green = ColorTupleStruct(0, 255, 0);

    assert_eq!(green.0, 0);
    assert_eq!(green.1, 255);
    assert_eq!(green.2, 0);
}

#[test]
fn unit_structs() {
    let unit_struct = UnitStruct;

    let message = format!("{unit_struct:?}s are fun!");
    assert_eq!(message, "UnitStructs are fun!");
}

#[test]
fn your_order() {
    let order_template = create_order_template();

    let your_order = Order {
        name: String::from("Hacker in Rust"),
        count: 1,
        ..order_template
    };

    assert_eq!(your_order.name, "Hacker in Rust");
    assert_eq!(your_order.year, order_template.year);
    assert_eq!(your_order.made_by_phone, order_template.made_by_phone);
    assert_eq!(your_order.made_by_mobile, order_template.made_by_mobile);
    assert_eq!(your_order.made_by_email, order_template.made_by_email);
    assert_eq!(your_order.item_number, order_template.item_number);
    assert_eq!(your_order.count, 1);
}
