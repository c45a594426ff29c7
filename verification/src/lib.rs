//! Small verified building blocks around a command-driven state record:
//! a dispatcher that routes tagged commands to field updates, plus a few
//! self-contained helpers for vectors, strings, orders, packages and
//! opening hours.

pub mod borrowing;
pub mod colors;
pub mod dispatcher;
pub mod icecream;
pub mod moving;
pub mod orders;
pub mod shipping;
pub mod strings;
