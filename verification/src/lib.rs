//! The logic of five small desktop tools: a click counter, a temperature
//! converter, a flight booker, a timer and a list of names.
//!
//! Every module holds the state of one tool as plain values, and the rules
//! by which messages from the host change it. Drawing, reading the clock
//! and printing are left to the host.

pub mod counter;
pub mod crud;
pub mod flights;
pub mod temperature;
pub mod text;
pub mod timer;
