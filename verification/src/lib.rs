//! A push-button blinker: a light that toggles after a polling delay, and a
//! button that shortens the delay each time it is seen pressed.
//!
//! The crate holds the decisions only. Reading the pin, driving the light and
//! logging are left to the caller, who feeds each reading to [`blinker::Blinker`]
//! and carries out the actions it answers with.

pub mod blinker;
pub mod delay;
