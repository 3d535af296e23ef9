//! Which colliders a character's sweeps ignore.
//!
//! A sweep must not hit the character's own collider, nor a sensor, which is
//! a volume that only triggers and is not solid; and it sees only the
//! collision layers that the character collides with. The filter is the
//! physics engine's own `SpatialQueryFilter`, so that it can be handed to a
//! sweep as it is.
use avian3d::prelude::SpatialQueryFilter;
use bevy::ecs::entity::Entity;
use vstd::prelude::*;

verus! {

/// `bevy::ecs::entity::Entity`, the identity of an object in the scene. It is
/// carried and compared, never taken apart; two entities count as equal
/// where `Entity`'s own `==` holds, which is how the engine's hash set tells
/// its members apart.
#[verifier::external_type_specification]
#[verifier::external_body]
pub struct ExEntity(Entity);

/// `avian3d::prelude::SpatialQueryFilter`, the rules by which a spatial query
/// picks the colliders that it looks at.
#[verifier::external_type_specification]
#[verifier::external_body]
pub struct ExSpatialQueryFilter(SpatialQueryFilter);

/// The entities that a filter keeps out of a query: the members of its field
/// `excluded_entities`.
pub uninterp spec fn excluded(filter: SpatialQueryFilter) -> Set<Entity>;

/// The collision layers that a filter lets a query see: the bits of its field
/// `mask`, one bit for each layer.
pub uninterp spec fn visible_layers(filter: SpatialQueryFilter) -> u32;

/// Calls `SpatialQueryFilter::default`. Trusted: the filter that comes back
/// excludes no entity and sees all 32 layers.
#[verifier::external_body]
fn open_filter() -> (filter: SpatialQueryFilter)
    ensures
        excluded(filter) == Set::<Entity>::empty(),
        visible_layers(filter) == 0xffff_ffffu32,
{
    SpatialQueryFilter::default()
}

/// Calls `SpatialQueryFilter::with_excluded_entities` with the one entity.
/// Trusted: the call replaces the excluded entities, so that `entity` alone
/// is excluded afterwards, and leaves the layers as they were.
#[verifier::external_body]
fn excluding_only(filter: SpatialQueryFilter, entity: Entity) -> (narrowed: SpatialQueryFilter)
    ensures
        excluded(narrowed) == Set::<Entity>::empty().insert(entity),
        visible_layers(narrowed) == visible_layers(filter),
{
    filter.with_excluded_entities([entity])
}

/// Calls `SpatialQueryFilter::with_mask`. Trusted: the filter then sees the
/// layers whose bits are set in `layers` and no others, and excludes the
/// entities that it excluded before.
#[verifier::external_body]
fn masked(filter: SpatialQueryFilter, layers: u32) -> (narrowed: SpatialQueryFilter)
    ensures
        visible_layers(narrowed) == layers,
        excluded(narrowed) == excluded(filter),
{
    filter.with_mask(layers)
}

/// Calls `insert` on the filter's `excluded_entities`. Trusted: `entity`
/// joins the excluded entities, none leaves, and the layers stay as they
/// were.
#[verifier::external_body]
fn exclude(filter: &mut SpatialQueryFilter, entity: Entity)
    ensures
        excluded(*final(filter)) == excluded(*old(filter)).insert(entity),
        visible_layers(*final(filter)) == visible_layers(*old(filter)),
{
    filter.excluded_entities.insert(entity);
}

/// The filter for the sweeps of `character`: it excludes the character and
/// every one of `sensors`, nothing else, and sees exactly the layers whose
/// bits are set in `layers`, the layers that the character collides with.
pub fn sweep_filter(character: Entity, layers: u32, sensors: &Vec<Entity>) -> (filter:
    SpatialQueryFilter)
    ensures
        excluded(filter) == sensors@.to_set().insert(character),
        visible_layers(filter) == layers,
{
    let mut filter = masked(excluding_only(open_filter(), character), layers);
    let mut i: usize = 0;
    assert(sensors@.take(0).to_set() == Set::<Entity>::empty());
    while i < sensors.len()
        invariant
            i <= sensors.len(),
            excluded(filter) == sensors@.take(i as int).to_set().insert(character),
            visible_layers(filter) == layers,
        decreases sensors.len() - i,
    {
        exclude(&mut filter, sensors[i]);
        proof {
            let seen = sensors@.take(i as int);
            seen.lemma_push_to_set_commute(sensors@[i as int]);
            assert(sensors@.take(i + 1) == seen.push(sensors@[i as int]));
            assert(seen.to_set().insert(character).insert(sensors@[i as int])
                == seen.to_set().insert(sensors@[i as int]).insert(character));
        }
        i = i + 1;
    }
    assert(sensors@.take(i as int) == sensors@);
    filter
}

} // verus!
