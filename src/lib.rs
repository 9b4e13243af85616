//! Compass heading core for a 5x5 LED display: device-to-navigation frame
//! conversion, hard-iron calibration, octant quantization of a heading, the
//! octant glyphs, and the border-running roulette animation.

pub mod calibration;
pub mod frame;
pub mod heading;
pub mod led;
pub mod roulette;
