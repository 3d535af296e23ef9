//! Bookkeeping of the sweep-and-slide loop.
//!
//! The driver sweeps the character's shape along what is left of the motion.
//! A sweep that runs clear ends the slide. A sweep that is blocked reports its
//! contact, and the driver turns the velocity along the surface and sweeps
//! again, until the limit on sweeps is reached. `Slide` keeps the count and
//! the contacts; the driver does the geometry.
use crate::ground::{floor_among, last_walkable, Surface};
use bevy::math::Dir3;
use vstd::prelude::*;

verus! {

/// The progress of one slide.
pub struct Slide {
    contacts: Vec<Surface>,
    remaining: usize,
    settled: bool,
}

/// What a `Slide` stands for.
pub struct SlideView {
    /// The contacts reported so far, one for each blocked sweep, in order.
    pub contacts: Seq<Surface>,
    /// The greatest number of sweeps that this slide may make.
    pub limit: nat,
    /// Whether the motion is used up: a sweep ran clear, or nothing was left
    /// to move.
    pub settled: bool,
}

impl SlideView {
    /// Whether another sweep is due.
    pub open spec fn wants_sweep(self) -> bool {
        !self.settled && self.contacts.len() < self.limit
    }
}

impl View for Slide {
    type V = SlideView;

    closed spec fn view(&self) -> SlideView {
        SlideView {
            contacts: self.contacts@,
            limit: self.contacts@.len() + self.remaining as nat,
            settled: self.settled,
        }
    }
}

impl Slide {
    /// A slide never holds more contacts than its limit allows: the number
    /// of sweeps in one tick is bounded, however the scene is shaped.
    pub proof fn within_limit(self)
        ensures
            self@.contacts.len() <= self@.limit,
    {
    }

    /// A slide that has made no sweep yet and may make `limit` of them.
    pub fn new(limit: usize) -> (slide: Slide)
        ensures
            slide@.contacts == Seq::<Surface>::empty(),
            slide@.limit == limit,
            !slide@.settled,
    {
        Slide { contacts: Vec::new(), remaining: limit, settled: false }
    }

    /// Whether the driver is to sweep once more.
    pub fn wants_sweep(&self) -> (again: bool)
        ensures
            again == self@.wants_sweep(),
    {
        !self.settled && self.remaining > 0
    }

    /// The number of blocked sweeps so far. It never exceeds the limit.
    pub fn sweeps(&self) -> (count: usize)
        ensures
            count == self@.contacts.len(),
            count <= self@.limit,
    {
        self.contacts.len()
    }

    /// Records that a sweep ran clear, or that no motion was left to sweep:
    /// the slide is over.
    pub fn settle(&mut self)
        ensures
            final(self)@.settled,
            final(self)@.contacts == old(self)@.contacts,
            final(self)@.limit == old(self)@.limit,
    {
        self.settled = true;
    }

    /// Records that a sweep was blocked by `surface`. Returns whether the
    /// driver is to sweep again. A report that no sweep was due for is
    /// dropped.
    pub fn record(&mut self, surface: Surface) -> (again: bool)
        ensures
            final(self)@.contacts == if old(self)@.wants_sweep() {
                old(self)@.contacts.push(surface)
            } else {
                old(self)@.contacts
            },
            final(self)@.limit == old(self)@.limit,
            final(self)@.settled == old(self)@.settled,
            again == final(self)@.wants_sweep(),
    {
        if !self.settled && self.remaining > 0 {
            self.contacts.push(surface);
            self.remaining = self.remaining - 1;
        }
        !self.settled && self.remaining > 0
    }

    /// The contacts reported so far, one for each blocked sweep, in order.
    pub fn contacts(&self) -> (contacts: &Vec<Surface>)
        ensures
            contacts@ == self@.contacts,
    {
        &self.contacts
    }

    /// The footing that the slide found: the normal of its last walkable
    /// contact.
    pub fn floor(&self) -> (floor: Option<Dir3>)
        ensures
            floor == floor_among(self@.contacts),
    {
        last_walkable(&self.contacts)
    }
}

} // verus!
