//! What the functions of the library are for: what their results have to do with
//! what they are given, and with each other.
pub mod ctcp;
pub mod lines;
pub mod routing;
pub mod strings;
pub mod time;
pub mod user;
pub mod wording;
