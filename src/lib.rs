//! Translation core of a bridge that turns a wireless game controller into an
//! emulated USB gamepad: report decoding and encoding, and the decisions of the
//! reader and writer loops that move the state between the two devices.
pub mod model;
pub mod hat;
pub mod dualsense;
pub mod gadget;
pub mod locator;
pub mod gamepad;
pub mod reader;
pub mod writer;
pub mod scan;
pub mod pattern;
