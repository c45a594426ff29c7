use basics::strings::compose_me;
use basics::strings::get_char;
use basics::strings::replace_me;
use basics::strings::trim_me;

#[test]
fn trim_a_string() {
    assert_eq!(trim_me("Hello!     "), "Hello!");
    assert_eq!(trim_me("  What's up!"), "What's up!");
    assert_eq!(trim_me("   Hola!  "), "Hola!");
}

#[test]
fn trim_edge_cases() {
    assert_eq!(trim_me(""), "");
    assert_eq!(trim_me("   \t\n  "), "");
    assert_eq!(trim_me("no padding"), "no padding");
    assert_eq!(trim_me(" inner  space "), "inner  space");
}

#[test]
fn compose_a_string() {
    assert_eq!(compose_me("Hello"), "Hello world!");
    assert_eq!(compose_me("Goodbye"), "Goodbye world!");
}

#[test]
fn compose_an_empty_string() {
    assert_eq!(compose_me(""), " world!");
}

#[test]
fn replace_a_string() {
    assert_eq!(
        replace_me("I think cars are cool"),
        "I think balloons are cool",
    );
    assert_eq!(
        replace_me("I love to look at cars"),
        "I love to look at balloons",
    );
}

#[test]
fn replace_edge_cases() {
    assert_eq!(replace_me(""), "");
    assert_eq!(replace_me("no match here"), "no match here");
    assert_eq!(replace_me("cars"), "balloons");
    assert_eq!(replace_me("cars and cars and carsx"), "balloons and balloons and balloonsx");
    assert_eq!(replace_me("carcars"), "carballoons");
}

#[test]
fn last_character() {
    assert_eq!(get_char(&String::from("Rust is great!")), '!');
    assert_eq!(get_char(&String::from("a")), 'a');
}
