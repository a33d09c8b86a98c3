//! Raw-mode control of a terminal and decoding of the keypresses read from it.
//!
//! The library holds the decisions: which configuration raw mode applies, what a
//! session restores and when, how bytes become keypress events, and when the
//! interactive loop ends. The calls into the terminal device are made by the
//! program around it, which hands the results back as plain values.
pub mod keypress;
pub mod session;
pub mod terminal;
