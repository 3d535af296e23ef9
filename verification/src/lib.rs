//! Decision core of a kinematic character controller.
//!
//! Each fixed tick a driver reads the player's input, integrates the
//! velocity, sweeps the character's shape through the scene and commits the
//! result. The arithmetic on vectors and the scene queries belong to the
//! engine; what is decided in between belongs to this crate: whether a jump
//! happens, which acceleration regime applies, which colliders a sweep
//! ignores, how long the slide goes on, which contact becomes the footing and
//! when the ground is probed for again.
pub mod filter;
pub mod ground;
pub mod laws;
pub mod movement;
pub mod slide;
pub mod vector;
