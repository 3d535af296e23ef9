//! Ground classification: which contact a character may stand on.
use bevy::math::Dir3;
use vstd::prelude::*;

verus! {

/// A contact of the character's shape with the scene, classified by slope.
#[derive(Clone, Copy, Debug, PartialEq)]
pub enum Surface {
    /// The slope is gentle enough to stand on; holds the outward normal.
    Walkable(Dir3),
    /// Too steep to stand on: a wall to slide along.
    Steep,
}

impl Surface {
    /// The normal to stand on, where the surface offers one.
    pub open spec fn footing(self) -> Option<Dir3> {
        match self {
            Surface::Walkable(normal) => Some(normal),
            Surface::Steep => None,
        }
    }

    /// The normal to stand on, where the surface offers one.
    pub fn floor(&self) -> (floor: Option<Dir3>)
        ensures
            floor == self.footing(),
    {
        match self {
            Surface::Walkable(normal) => Some(*normal),
            Surface::Steep => None,
        }
    }
}

/// The footing that a run of contacts leaves behind: the normal of the last
/// walkable one, or none where every contact is steep. Contacts are given in
/// the order in which the sweeps met them.
pub open spec fn floor_among(contacts: Seq<Surface>) -> Option<Dir3>
    decreases contacts.len(),
{
    if contacts.len() == 0 {
        None
    } else if contacts.last() is Walkable {
        contacts.last().footing()
    } else {
        floor_among(contacts.drop_last())
    }
}

/// Whether the ground has to be probed for: the character stood on ground
/// when the slide began, and the slide met no walkable surface.
pub open spec fn probe_needed(footing: Option<Dir3>, contacts: Seq<Surface>) -> bool {
    footing is Some && floor_among(contacts) is None
}

/// The footing at the end of a tick. A walkable contact of the slide wins;
/// failing that, a character that stood on ground keeps it where the probe
/// found a walkable surface. `probe` counts only where `probe_needed` holds.
pub open spec fn footing_after(
    footing: Option<Dir3>,
    contacts: Seq<Surface>,
    probe: Option<Surface>,
) -> Option<Dir3> {
    if floor_among(contacts) is Some {
        floor_among(contacts)
    } else if footing is Some && probe is Some {
        probe->0.footing()
    } else {
        None
    }
}

/// Whether the character is pulled down onto the surface that the probe hit:
/// the probe was needed and what it found is walkable.
pub open spec fn snaps_to_ground(
    footing: Option<Dir3>,
    contacts: Seq<Surface>,
    probe: Option<Surface>,
) -> bool {
    probe_needed(footing, contacts) && probe is Some && probe->0 is Walkable
}

/// Finds the footing among the contacts of a slide: the last walkable contact
/// wins.
pub fn last_walkable(contacts: &Vec<Surface>) -> (floor: Option<Dir3>)
    ensures
        floor == floor_among(contacts@),
{
    let mut i: usize = contacts.len();
    assert(contacts@.take(i as int) == contacts@);
    while i > 0
        invariant
            i <= contacts.len(),
            floor_among(contacts@) == floor_among(contacts@.take(i as int)),
        decreases i,
    {
        i = i - 1;
        assert(contacts@.take(i + 1).last() == contacts@[i as int]);
        assert(contacts@.take(i + 1).drop_last() == contacts@.take(i as int));
        match contacts[i] {
            Surface::Walkable(normal) => {
                return Some(normal);
            },
            Surface::Steep => {},
        }
    }
    None
}

} // verus!
