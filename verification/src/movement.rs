//! The state of a character and the decisions of one tick.
//!
//! A tick runs in this order. A jump that was triggered lifts a character
//! that stands on ground and takes its footing away. The footing then selects
//! the regime under which the driver integrates the velocity. The driver
//! slides the character through the scene and reports the contacts. Where the
//! slide met no walkable surface although the character stood on ground, the
//! driver probes downward once. At last the footing for the next tick is
//! settled.
use crate::ground::{floor_among, footing_after, probe_needed, snaps_to_ground, Surface};
use crate::slide::Slide;
use crate::vector::{resting_velocity, world_up};
use bevy::math::{Dir3, Vec3};
use vstd::prelude::*;

verus! {

/// A character that is moved through the scene.
#[derive(Clone, Copy, Debug)]
pub struct Character {
    velocity: Vec3,
    floor: Option<Dir3>,
    up: Dir3,
}

/// What a `Character` stands for.
pub struct CharacterView {
    /// The velocity in world space.
    pub velocity: Vec3,
    /// The outward normal of the ground that the character stands on, or none
    /// while it is in the air.
    pub floor: Option<Dir3>,
    /// The character's own up axis. No step of a tick changes it.
    pub up: Dir3,
}

/// How the velocity is integrated in a tick.
#[derive(Clone, Copy, Debug, PartialEq)]
pub enum Regime {
    /// The character stands on ground with the given normal: friction slows
    /// it, it does not move into the ground, and it is steered along the
    /// ground at the rate for ground.
    Grounded(Dir3),
    /// The character is in the air: gravity pulls it, and it is steered at the
    /// rate for air.
    Airborne,
}

/// The regime that a footing selects.
pub open spec fn regime_of(floor: Option<Dir3>) -> Regime {
    match floor {
        Some(normal) => Regime::Grounded(normal),
        None => Regime::Airborne,
    }
}

/// Whether a jump happens: it was triggered in this tick and the character
/// stands on ground.
pub open spec fn jump_happens(floor: Option<Dir3>, triggered: bool) -> bool {
    triggered && floor is Some
}

/// The footing once the jump of a tick is resolved: a jump takes it away.
pub open spec fn footing_after_jump(floor: Option<Dir3>, triggered: bool) -> Option<Dir3> {
    if jump_happens(floor, triggered) {
        None
    } else {
        floor
    }
}

impl View for Character {
    type V = CharacterView;

    closed spec fn view(&self) -> CharacterView {
        CharacterView { velocity: self.velocity, floor: self.floor, up: self.up }
    }
}

impl Default for Character {
    /// A character at rest in the air, with the world's up axis as its own.
    fn default() -> (character: Character)
        ensures
            character@.floor is None,
    {
        Character { velocity: resting_velocity(), floor: None, up: world_up() }
    }
}

impl Character {
    /// A character with the given velocity, footing and up axis.
    pub fn new(velocity: Vec3, floor: Option<Dir3>, up: Dir3) -> (character: Character)
        ensures
            character@ == (CharacterView { velocity, floor, up }),
    {
        Character { velocity, floor, up }
    }

    /// The velocity.
    pub fn get_velocity(&self) -> (velocity: Vec3)
        ensures
            velocity == self@.velocity,
    {
        self.velocity
    }

    /// The normal of the ground under the character, or none in the air.
    pub fn floor(&self) -> (floor: Option<Dir3>)
        ensures
            floor == self@.floor,
    {
        self.floor
    }

    /// The up axis.
    pub fn up(&self) -> (up: Dir3)
        ensures
            up == self@.up,
    {
        self.up
    }

    /// Replaces the velocity with what the driver has integrated.
    pub fn set_velocity(&mut self, velocity: Vec3)
        ensures
            final(self)@ == (CharacterView { velocity, ..old(self)@ }),
    {
        self.velocity = velocity;
    }

    /// Resolves the jump of a tick. Where it happens the character leaves the
    /// ground at once with the velocity `lifted`, which is its velocity with
    /// the impulse of the jump added; otherwise nothing changes. Returns
    /// whether the jump happened.
    pub fn jump(&mut self, triggered: bool, lifted: Vec3) -> (jumped: bool)
        ensures
            jumped == jump_happens(old(self)@.floor, triggered),
            final(self)@.floor == footing_after_jump(old(self)@.floor, triggered),
            final(self)@.velocity == if jumped {
                lifted
            } else {
                old(self)@.velocity
            },
            final(self)@.up == old(self)@.up,
    {
        if triggered && self.floor.is_some() {
            self.velocity = lifted;
            self.floor = None;
            true
        } else {
            false
        }
    }

    /// The regime under which the velocity is integrated in this tick.
    pub fn regime(&self) -> (regime: Regime)
        ensures
            regime == regime_of(self@.floor),
    {
        match self.floor {
            Some(normal) => Regime::Grounded(normal),
            None => Regime::Airborne,
        }
    }

    /// Whether the driver is to probe downward for the ground after `slide`.
    pub fn needs_probe(&self, slide: &Slide) -> (probe: bool)
        ensures
            probe == probe_needed(self@.floor, slide@.contacts),
    {
        self.floor.is_some() && slide.floor().is_none()
    }

    /// Settles the footing for the next tick from the contacts of `slide` and
    /// from what the downward probe hit, if it was made and hit anything.
    /// Returns whether the character is to be pulled down onto the surface
    /// that the probe hit.
    pub fn land(&mut self, slide: &Slide, probe: Option<Surface>) -> (snap: bool)
        ensures
            final(self)@.floor == footing_after(old(self)@.floor, slide@.contacts, probe),
            snap == snaps_to_ground(old(self)@.floor, slide@.contacts, probe),
            final(self)@.velocity == old(self)@.velocity,
            final(self)@.up == old(self)@.up,
    {
        let found = slide.floor();
        if found.is_some() {
            self.floor = found;
            false
        } else if self.floor.is_some() {
            match probe {
                Some(Surface::Walkable(normal)) => {
                    self.floor = Some(normal);
                    true
                },
                _ => {
                    self.floor = None;
                    false
                },
            }
        } else {
            false
        }
    }
}

} // verus!
