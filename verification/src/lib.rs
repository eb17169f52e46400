//! A click counter for a message-driven user interface.
//!
//! The toolkit that draws the window owns the run loop. It asks the
//! application for a description of its widgets, hands each press of a button
//! back as a message, and lets the application update its state. This crate
//! holds the application's side of that exchange, in two flavours:
//!
//! - [`counter`]: a count that only goes up, shown as a bare number;
//! - [`stepper`]: a count that goes up and down, and may turn negative.
//!
//! [`widget`] is the description of widgets that both hand to the toolkit,
//! and [`decimal`] writes the numbers that their labels show.

pub mod counter;
pub mod decimal;
pub mod stepper;
pub mod widget;
