//! What holds of every tick, whatever the scene and the input.
use crate::ground::{floor_among, footing_after, probe_needed, snaps_to_ground, Surface};
use crate::movement::{footing_after_jump, jump_happens, regime_of, Regime};
use bevy::math::Dir3;
use vstd::prelude::*;

verus! {

/// Whether `contacts[i]` is walkable and every later contact is steep.
pub open spec fn is_last_walkable(contacts: Seq<Surface>, i: int) -> bool {
    &&& 0 <= i < contacts.len()
    &&& contacts[i] is Walkable
    &&& forall|j: int| i < j < contacts.len() ==> contacts[j] is Steep
}

/// Among the contacts of a slide the last walkable one gives the footing;
/// there is no footing exactly when every contact is steep.
pub proof fn floor_is_last_walkable(contacts: Seq<Surface>)
    ensures
        floor_among(contacts) is Some ==> exists|i: int| #[trigger]
            is_last_walkable(contacts, i) && floor_among(contacts) == contacts[i].footing(),
        floor_among(contacts) is None <==> forall|i: int|
            0 <= i < contacts.len() ==> contacts[i] is Steep,
    decreases contacts.len(),
{
    if contacts.len() == 0 {
    } else if contacts.last() is Walkable {
        assert(is_last_walkable(contacts, contacts.len() - 1));
    } else {
        let rest = contacts.drop_last();
        floor_is_last_walkable(rest);
        if floor_among(rest) is Some {
            let i = choose|i: int| #[trigger]
                is_last_walkable(rest, i) && floor_among(rest) == rest[i].footing();
            assert forall|j: int| i < j < contacts.len() implies contacts[j] is Steep by {
                if j < rest.len() {
                    assert(rest[j] is Steep);
                }
            }
            assert(is_last_walkable(contacts, i));
        } else {
            assert forall|i: int| 0 <= i < contacts.len() implies contacts[i] is Steep by {
                if i < rest.len() {
                    assert(rest[i] is Steep);
                }
            }
        }
    }
}

/// One more contact at the end of a slide: a walkable one becomes the
/// footing, a steep one leaves the footing as it was.
pub proof fn floor_after_report(contacts: Seq<Surface>, surface: Surface)
    ensures
        floor_among(contacts.push(surface)) == if surface is Walkable {
            surface.footing()
        } else {
            floor_among(contacts)
        },
{
    assert(contacts.push(surface).last() == surface);
    assert(contacts.push(surface).drop_last() == contacts);
}

/// The ground is probed for exactly when the character stood on ground at
/// the start of the tick, did not jump, and the slide met no walkable
/// surface. A character that starts the tick in the air is never probed for.
pub proof fn probe_only_after_losing_ground(
    floor: Option<Dir3>,
    triggered: bool,
    contacts: Seq<Surface>,
)
    ensures
        probe_needed(footing_after_jump(floor, triggered), contacts) <==> floor is Some
            && !triggered && floor_among(contacts) is None,
        floor is None ==> !probe_needed(footing_after_jump(floor, triggered), contacts),
{
}

/// Where no probe is needed, what a probe would have hit changes nothing: the
/// footing is what the slide found, and the character is not pulled down.
pub proof fn unneeded_probe_is_ignored(
    floor: Option<Dir3>,
    contacts: Seq<Surface>,
    probe: Option<Surface>,
)
    requires
        !probe_needed(floor, contacts),
    ensures
        footing_after(floor, contacts, probe) == floor_among(contacts),
        !snaps_to_ground(floor, contacts, probe),
{
}

/// A footing is never taken from a steep contact: the footing at the end of
/// a tick is the normal of a walkable contact of the slide, or of the
/// walkable surface that a needed probe hit.
pub proof fn footing_is_walkable_contact(
    floor: Option<Dir3>,
    contacts: Seq<Surface>,
    probe: Option<Surface>,
    normal: Dir3,
)
    requires
        footing_after(floor, contacts, probe) == Some(normal),
    ensures
        (exists|i: int| 0 <= i < contacts.len() && contacts[i] == Surface::Walkable(normal)) || (
        probe_needed(floor, contacts) && probe == Some(Surface::Walkable(normal))),
{
    if floor_among(contacts) is Some {
        floor_is_last_walkable(contacts);
        let i = choose|i: int| #[trigger]
            is_last_walkable(contacts, i) && floor_among(contacts) == contacts[i].footing();
        assert(contacts[i] == Surface::Walkable(normal));
    }
}

/// The character is pulled down exactly when the probe gave it its footing.
pub proof fn snap_follows_probe(
    floor: Option<Dir3>,
    contacts: Seq<Surface>,
    probe: Option<Surface>,
)
    ensures
        snaps_to_ground(floor, contacts, probe) <==> probe_needed(floor, contacts)
            && footing_after(floor, contacts, probe) is Some,
{
}

/// A jump puts the character in the air for the rest of the tick: the regime
/// is that of the air, and the ground is not probed for, whatever the slide
/// meets. Without a jump the footing selects the regime as it stands.
pub proof fn jump_leaves_the_ground(
    floor: Option<Dir3>,
    triggered: bool,
    contacts: Seq<Surface>,
)
    ensures
        jump_happens(floor, triggered) ==> {
            &&& regime_of(footing_after_jump(floor, triggered)) == Regime::Airborne
            &&& !probe_needed(footing_after_jump(floor, triggered), contacts)
        },
        !jump_happens(floor, triggered) ==> footing_after_jump(floor, triggered) == floor,
        floor is None ==> !jump_happens(floor, triggered),
{
}

} // verus!
