//! The arithmetic core of a small desktop calculator: two operands, a pending
//! operator, and the four input events that drive them, each answered with the
//! text to show on the display.

pub mod decimal;
pub mod accumulator;
pub mod laws;
