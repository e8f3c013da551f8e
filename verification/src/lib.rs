//! Core logic of a countdown overlay: a timer that counts down to an end
//! instant and then counts overtime upward, together with the pure rendering
//! decisions (formatted text, blink parity, palette choice) that a drawing
//! surface consumes.
//!
//! Time is modeled in whole seconds. The clock is an external capability:
//! every operation that needs the current instant takes it as an explicit
//! `now` argument, so the logic here is pure and fully specified.

pub mod digits;
pub mod render;
pub mod timer;
