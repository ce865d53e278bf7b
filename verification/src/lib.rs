//! Heading state machine and chase camera of a light-bike arena.
//!
//! The bike travels at constant speed along one of four cardinal headings
//! and turns by quarter turns; the camera trails it at a fixed offset,
//! confined to a box around the arena. All geometry is exact integer
//! arithmetic in fixed-point world coordinates.

pub mod camera;
pub mod heading;
pub mod keyboard;
pub mod vector;
