//! The engine's vector types, as the controller carries them.
use bevy::math::{Dir3, Vec3};
use vstd::prelude::*;

verus! {

/// `bevy::math::Vec3`, a vector in world space. The controller stores such
/// values and hands them on; it never looks inside one.
#[verifier::external_type_specification]
#[verifier::external_body]
pub struct ExVec3(Vec3);

/// `bevy::math::Dir3`, a vector of unit length. Like `Vec3` it is only
/// carried.
#[verifier::external_type_specification]
#[verifier::external_body]
pub struct ExDir3(Dir3);

/// The constant `Vec3::ZERO`, the velocity of a body at rest. Nothing is
/// claimed of the value.
#[verifier::external_body]
pub(crate) fn resting_velocity() -> (velocity: Vec3) {
    Vec3::ZERO
}

/// The constant `Dir3::Y`, the up axis of the world. Nothing is claimed of the
/// value.
#[verifier::external_body]
pub(crate) fn world_up() -> (up: Dir3) {
    Dir3::Y
}

} // verus!
