//! Commands: entity id allocation and spawning.

use vstd::prelude::*;

use crate::bundle::{apply_elems, Bundle};
use crate::components::Component;
use crate::entity::EntityId;
use crate::storage::storage_put;
use crate::world::World;

verus! {

/// The spawning front end: owns the next-id counter and applies bundles to
/// a world. Ids start at zero, grow by one per allocation, and are never
/// reused; across any run of allocations the returned ids are consecutive.
pub struct Commands {
    pub next_id: u32,
}

impl Commands {
    /// A fresh allocator: the next id issued is 0.
    pub fn new() -> (c: Commands)
        ensures
            c.next_id == 0,
    {
        Commands { next_id: 0 }
    }

    /// Issues a fresh entity id: exactly the current counter value, which
    /// then grows by one, so successive calls return consecutive ids.
    pub fn create_entity(&mut self) -> (e: EntityId)
        requires
            old(self).next_id < u32::MAX,
        ensures
            e == EntityId(old(self).next_id),
            final(self).next_id == old(self).next_id + 1,
    {
        let id = EntityId(self.next_id);
        self.next_id += 1;
        id
    }

    /// Attaches `component` to `entity` in `world`; the counter is
    /// untouched.
    pub fn insert<T: Component>(&mut self, world: &mut World, entity: EntityId, component: T)
        requires
            old(world).wf(),
        ensures
            *final(self) == *old(self),
            final(world).wf(),
            final(world).components_view() == storage_put(
                old(world).components_view(),
                T::kind_spec(),
                entity,
                component.erase_spec(),
            ),
            final(world).resources_view() == old(world).resources_view(),
    {
        world.insert(entity, component);
    }

    /// Allocates a fresh id, then applies every element of `bundle` to it,
    /// in bundle order, and returns the id. Inserts happen synchronously
    /// and cannot fail.
    pub fn spawn<B: Bundle>(&mut self, world: &mut World, bundle: B) -> (e: EntityId)
        requires
            old(self).next_id < u32::MAX,
            old(world).wf(),
        ensures
            e == EntityId(old(self).next_id),
            final(self).next_id == old(self).next_id + 1,
            final(world).wf(),
            final(world).components_view() == apply_elems(
                old(world).components_view(),
                e,
                bundle.elems_spec(),
            ),
            final(world).resources_view() == old(world).resources_view(),
    {
        let entity = self.create_entity();
        bundle.insert_all(self, world, entity);
        entity
    }
}

} // verus!
