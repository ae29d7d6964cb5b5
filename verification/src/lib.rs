//! The interrupt-driven input core of a minimal kernel: a fixed-capacity
//! command-line buffer, a UTF-8 command dispatcher, a scancode decoder, a
//! model of the chained interrupt controller protocol, and the interrupt
//! vector table that ties the two interrupt sources to their handlers.

pub mod buffer;
pub mod dispatch;
pub mod keyboard;
pub mod pic;
pub mod vectors;
