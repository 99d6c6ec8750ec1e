//! Decoding and encoding of the HID reports of a DualSense game controller,
//! change-detection dispatch of decoded values, timed combo gestures and the
//! pending output state of lights and trigger effects.
pub mod combo;
pub mod dispatch;
pub mod location;
pub mod output;
pub mod property;
pub mod values;
