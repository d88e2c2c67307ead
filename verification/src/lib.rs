//! Verified layout and scene description for the audio and animation demos.
//!
//! The numbers of the shared helpers (the hint and title layout, the font, the
//! background colour, the default camera, the light and the floor) are
//! described here in whole units (pixels, or thousandths of a world unit, a
//! radian or a colour channel); the program around the library turns them
//! into engine values.

pub mod overlay;
pub mod scene;
