//! Typed control surface for a capacitive touch-sensor peripheral.
//!
//! The native driver owns all persistent hardware state; this crate owns the
//! translation discipline around it: a closed error taxonomy for the driver's
//! numeric status codes, closed enumerations with the exact integer encoding
//! of the native ABI for every hardware-configurable dimension, and the
//! identity-matching contract of interrupt-handler registration.

pub mod isr;
pub mod touch_pad_enum;
pub mod touch_pad_error;
