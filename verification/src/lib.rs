//! Verified core of a sensor dashboard running on an i.MX RT board:
//! the serial protocol with the sensor server, the decoding of sensor
//! readings, touch gesture handling, framebuffer geometry, clock arithmetic
//! and the status checks around the operating system's calls.

pub mod backend;
pub mod error;
pub mod fs;
pub mod gt911;
pub mod heap;
pub mod panel;
pub mod protocal;
pub mod time;
pub mod touch;
