//! A small demonstration library: a person entity with greeting text, pure
//! message selection, list transformation, decimal formatting, a shadowing
//! string map, and the response logic of a simulated fetch capability.

pub mod fetch;
pub mod numfmt;
pub mod person;
pub mod steps;
pub mod strmap;
