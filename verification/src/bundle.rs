//! Bundles: fixed-arity heterogeneous groups of components applied to one
//! entity at spawn time.
//!
//! A bundle is a tuple of one to six component values, consumed exactly
//! once; spawning applies one insert per element, in tuple order. Element
//! order has no effect beyond insertion order into independent per-kind
//! maps: inserts of distinct kinds commute, and within one kind the last
//! write wins. Larger arities follow the same pattern.

use vstd::prelude::*;

use crate::commands::Commands;
use crate::components::{kind_of, Component, ComponentKind, ComponentValue};
use crate::entity::EntityId;
use crate::storage::storage_put;
use crate::world::World;

verus! {

/// The store after inserting each element of `elems` for entity `e`, in
/// order.
pub open spec fn apply_elems(
    m: Map<ComponentKind, Seq<(EntityId, ComponentValue)>>,
    e: EntityId,
    elems: Seq<ComponentValue>,
) -> Map<ComponentKind, Seq<(EntityId, ComponentValue)>>
    decreases elems.len(),
{
    if elems.len() == 0 {
        m
    } else {
        storage_put(apply_elems(m, e, elems.drop_last()), kind_of(elems.last()), e, elems.last())
    }
}

/// Applying one more element is one more put.
pub proof fn lemma_apply_push(
    m: Map<ComponentKind, Seq<(EntityId, ComponentValue)>>,
    e: EntityId,
    elems: Seq<ComponentValue>,
    v: ComponentValue,
)
    ensures
        apply_elems(m, e, elems.push(v)) == storage_put(apply_elems(m, e, elems), kind_of(v), e, v),
{
    assert(elems.push(v).drop_last() =~= elems);
    assert(elems.push(v).last() == v);
}

/// A fixed-arity group of component values, applied to one entity with one
/// insert per element, in order.
pub trait Bundle: Sized {
    /// The erased elements of the bundle, in application order.
    spec fn elems_spec(self) -> Seq<ComponentValue>;

    /// Applies one insert per element against `world`, in order, all
    /// attached to `entity`; the id counter and the resource table are
    /// untouched.
    fn insert_all(self, commands: &mut Commands, world: &mut World, entity: EntityId)
        requires
            old(world).wf(),
        ensures
            *final(commands) == *old(commands),
            final(world).wf(),
            final(world).components_view() == apply_elems(
                old(world).components_view(),
                entity,
                self.elems_spec(),
            ),
            final(world).resources_view() == old(world).resources_view(),
    ;
}

impl<A: Component> Bundle for (A,) {
    open spec fn elems_spec(self) -> Seq<ComponentValue> {
        seq![
            self.0.erase_spec(),
        ]
    }

    fn insert_all(self, commands: &mut Commands, world: &mut World, entity: EntityId) {
        let ghost m0 = world.components_view();
        proof {
            self.0.lemma_erase_kind();
            assert(apply_elems(m0, entity, Seq::<ComponentValue>::empty()) == m0);
            lemma_apply_push(m0, entity, Seq::<ComponentValue>::empty(), self.0.erase_spec());
            assert(Seq::<ComponentValue>::empty().push(self.0.erase_spec()) =~= seq![self.0.erase_spec()]);
            assert(self.elems_spec() =~= seq![self.0.erase_spec()]);
        }
        let (a,) = self;
        commands.insert(world, entity, a);
    }
}

impl<A: Component, B: Component> Bundle for (A, B) {
    open spec fn elems_spec(self) -> Seq<ComponentValue> {
        seq![
            self.0.erase_spec(),
            self.1.erase_spec(),
        ]
    }

    fn insert_all(self, commands: &mut Commands, world: &mut World, entity: EntityId) {
        let ghost m0 = world.components_view();
        proof {
            self.0.lemma_erase_kind();
            self.1.lemma_erase_kind();
            assert(apply_elems(m0, entity, Seq::<ComponentValue>::empty()) == m0);
            lemma_apply_push(m0, entity, Seq::<ComponentValue>::empty(), self.0.erase_spec());
            assert(Seq::<ComponentValue>::empty().push(self.0.erase_spec()) =~= seq![self.0.erase_spec()]);
            lemma_apply_push(m0, entity, seq![self.0.erase_spec()], self.1.erase_spec());
            assert(seq![self.0.erase_spec()].push(self.1.erase_spec()) =~= seq![self.0.erase_spec(), self.1.erase_spec()]);
            assert(self.elems_spec() =~= seq![self.0.erase_spec(), self.1.erase_spec()]);
        }
        let (a, b) = self;
        commands.insert(world, entity, a);
        commands.insert(world, entity, b);
    }
}

impl<A: Component, B: Component, C: Component> Bundle for (A, B, C) {
    open spec fn elems_spec(self) -> Seq<ComponentValue> {
        seq![
            self.0.erase_spec(),
            self.1.erase_spec(),
            self.2.erase_spec(),
        ]
    }

    fn insert_all(self, commands: &mut Commands, world: &mut World, entity: EntityId) {
        let ghost m0 = world.components_view();
        proof {
            self.0.lemma_erase_kind();
            self.1.lemma_erase_kind();
            self.2.lemma_erase_kind();
            assert(apply_elems(m0, entity, Seq::<ComponentValue>::empty()) == m0);
            lemma_apply_push(m0, entity, Seq::<ComponentValue>::empty(), self.0.erase_spec());
            assert(Seq::<ComponentValue>::empty().push(self.0.erase_spec()) =~= seq![self.0.erase_spec()]);
            lemma_apply_push(m0, entity, seq![self.0.erase_spec()], self.1.erase_spec());
            assert(seq![self.0.erase_spec()].push(self.1.erase_spec()) =~= seq![self.0.erase_spec(), self.1.erase_spec()]);
            lemma_apply_push(m0, entity, seq![self.0.erase_spec(), self.1.erase_spec()], self.2.erase_spec());
            assert(seq![self.0.erase_spec(), self.1.erase_spec()].push(self.2.erase_spec()) =~= seq![self.0.erase_spec(), self.1.erase_spec(), self.2.erase_spec()]);
            assert(self.elems_spec() =~= seq![self.0.erase_spec(), self.1.erase_spec(), self.2.erase_spec()]);
        }
        let (a, b, c) = self;
        commands.insert(world, entity, a);
        commands.insert(world, entity, b);
        commands.insert(world, entity, c);
    }
}

impl<A: Component, B: Component, C: Component, D: Component> Bundle for (A, B, C, D) {
    open spec fn elems_spec(self) -> Seq<ComponentValue> {
        seq![
            self.0.erase_spec(),
            self.1.erase_spec(),
            self.2.erase_spec(),
            self.3.erase_spec(),
        ]
    }

    fn insert_all(self, commands: &mut Commands, world: &mut World, entity: EntityId) {
        let ghost m0 = world.components_view();
        proof {
            self.0.lemma_erase_kind();
            self.1.lemma_erase_kind();
            self.2.lemma_erase_kind();
            self.3.lemma_erase_kind();
            assert(apply_elems(m0, entity, Seq::<ComponentValue>::empty()) == m0);
            lemma_apply_push(m0, entity, Seq::<ComponentValue>::empty(), self.0.erase_spec());
            assert(Seq::<ComponentValue>::empty().push(self.0.erase_spec()) =~= seq![self.0.erase_spec()]);
            lemma_apply_push(m0, entity, seq![self.0.erase_spec()], self.1.erase_spec());
            assert(seq![self.0.erase_spec()].push(self.1.erase_spec()) =~= seq![self.0.erase_spec(), self.1.erase_spec()]);
            lemma_apply_push(m0, entity, seq![self.0.erase_spec(), self.1.erase_spec()], self.2.erase_spec());
            assert(seq![self.0.erase_spec(), self.1.erase_spec()].push(self.2.erase_spec()) =~= seq![self.0.erase_spec(), self.1.erase_spec(), self.2.erase_spec()]);
            lemma_apply_push(m0, entity, seq![self.0.erase_spec(), self.1.erase_spec(), self.2.erase_spec()], self.3.erase_spec());
            assert(seq![self.0.erase_spec(), self.1.erase_spec(), self.2.erase_spec()].push(self.3.erase_spec()) =~= seq![self.0.erase_spec(), self.1.erase_spec(), self.2.erase_spec(), self.3.erase_spec()]);
            assert(self.elems_spec() =~= seq![self.0.erase_spec(), self.1.erase_spec(), self.2.erase_spec(), self.3.erase_spec()]);
        }
        let (a, b, c, d) = self;
        commands.insert(world, entity, a);
        commands.insert(world, entity, b);
        commands.insert(world, entity, c);
        commands.insert(world, entity, d);
    }
}

impl<A: Component, B: Component, C: Component, D: Component, E: Component> Bundle for (A, B, C, D, E) {
    open spec fn elems_spec(self) -> Seq<ComponentValue> {
        seq![
            self.0.erase_spec(),
            self.1.erase_spec(),
            self.2.erase_spec(),
            self.3.erase_spec(),
            self.4.erase_spec(),
        ]
    }

    fn insert_all(self, commands: &mut Commands, world: &mut World, entity: EntityId) {
        let ghost m0 = world.components_view();
        proof {
            self.0.lemma_erase_kind();
            self.1.lemma_erase_kind();
            self.2.lemma_erase_kind();
            self.3.lemma_erase_kind();
            self.4.lemma_erase_kind();
            assert(apply_elems(m0, entity, Seq::<ComponentValue>::empty()) == m0);
            lemma_apply_push(m0, entity, Seq::<ComponentValue>::empty(), self.0.erase_spec());
            assert(Seq::<ComponentValue>::empty().push(self.0.erase_spec()) =~= seq![self.0.erase_spec()]);
            lemma_apply_push(m0, entity, seq![self.0.erase_spec()], self.1.erase_spec());
            assert(seq![self.0.erase_spec()].push(self.1.erase_spec()) =~= seq![self.0.erase_spec(), self.1.erase_spec()]);
            lemma_apply_push(m0, entity, seq![self.0.erase_spec(), self.1.erase_spec()], self.2.erase_spec());
            assert(seq![self.0.erase_spec(), self.1.erase_spec()].push(self.2.erase_spec()) =~= seq![self.0.erase_spec(), self.1.erase_spec(), self.2.erase_spec()]);
            lemma_apply_push(m0, entity, seq![self.0.erase_spec(), self.1.erase_spec(), self.2.erase_spec()], self.3.erase_spec());
            assert(seq![self.0.erase_spec(), self.1.erase_spec(), self.2.erase_spec()].push(self.3.erase_spec()) =~= seq![self.0.erase_spec(), self.1.erase_spec(), self.2.erase_spec(), self.3.erase_spec()]);
            lemma_apply_push(m0, entity, seq![self.0.erase_spec(), self.1.erase_spec(), self.2.erase_spec(), self.3.erase_spec()], self.4.erase_spec());
            assert(seq![self.0.erase_spec(), self.1.erase_spec(), self.2.erase_spec(), self.3.erase_spec()].push(self.4.erase_spec()) =~= seq![self.0.erase_spec(), self.1.erase_spec(), self.2.erase_spec(), self.3.erase_spec(), self.4.erase_spec()]);
            assert(self.elems_spec() =~= seq![self.0.erase_spec(), self.1.erase_spec(), self.2.erase_spec(), self.3.erase_spec(), self.4.erase_spec()]);
        }
        let (a, b, c, d, e2) = self;
        commands.insert(world, entity, a);
        commands.insert(world, entity, b);
        commands.insert(world, entity, c);
        commands.insert(world, entity, d);
        commands.insert(world, entity, e2);
    }
}

impl<A: Component, B: Component, C: Component, D: Component, E: Component, F: Component> Bundle for (A, B, C, D, E, F) {
    open spec fn elems_spec(self) -> Seq<ComponentValue> {
        seq![
            self.0.erase_spec(),
            self.1.erase_spec(),
            self.2.erase_spec(),
            self.3.erase_spec(),
            self.4.erase_spec(),
            self.5.erase_spec(),
        ]
    }

    fn insert_all(self, commands: &mut Commands, world: &mut World, entity: EntityId) {
        let ghost m0 = world.components_view();
        proof {
            self.0.lemma_erase_kind();
            self.1.lemma_erase_kind();
            self.2.lemma_erase_kind();
            self.3.lemma_erase_kind();
            self.4.lemma_erase_kind();
            self.5.lemma_erase_kind();
            assert(apply_elems(m0, entity, Seq::<ComponentValue>::empty()) == m0);
            lemma_apply_push(m0, entity, Seq::<ComponentValue>::empty(), self.0.erase_spec());
            assert(Seq::<ComponentValue>::empty().push(self.0.erase_spec()) =~= seq![self.0.erase_spec()]);
            lemma_apply_push(m0, entity, seq![self.0.erase_spec()], self.1.erase_spec());
            assert(seq![self.0.erase_spec()].push(self.1.erase_spec()) =~= seq![self.0.erase_spec(), self.1.erase_spec()]);
            lemma_apply_push(m0, entity, seq![self.0.erase_spec(), self.1.erase_spec()], self.2.erase_spec());
            assert(seq![self.0.erase_spec(), self.1.erase_spec()].push(self.2.erase_spec()) =~= seq![self.0.erase_spec(), self.1.erase_spec(), self.2.erase_spec()]);
            lemma_apply_push(m0, entity, seq![self.0.erase_spec(), self.1.erase_spec(), self.2.erase_spec()], self.3.erase_spec());
            assert(seq![self.0.erase_spec(), self.1.erase_spec(), self.2.erase_spec()].push(self.3.erase_spec()) =~= seq![self.0.erase_spec(), self.1.erase_spec(), self.2.erase_spec(), self.3.erase_spec()]);
            lemma_apply_push(m0, entity, seq![self.0.erase_spec(), self.1.erase_spec(), self.2.erase_spec(), self.3.erase_spec()], self.4.erase_spec());
            assert(seq![self.0.erase_spec(), self.1.erase_spec(), self.2.erase_spec(), self.3.erase_spec()].push(self.4.erase_spec()) =~= seq![self.0.erase_spec(), self.1.erase_spec(), self.2.erase_spec(), self.3.erase_spec(), self.4.erase_spec()]);
            lemma_apply_push(m0, entity, seq![self.0.erase_spec(), self.1.erase_spec(), self.2.erase_spec(), self.3.erase_spec(), self.4.erase_spec()], self.5.erase_spec());
            assert(seq![self.0.erase_spec(), self.1.erase_spec(), self.2.erase_spec(), self.3.erase_spec(), self.4.erase_spec()].push(self.5.erase_spec()) =~= seq![self.0.erase_spec(), self.1.erase_spec(), self.2.erase_spec(), self.3.erase_spec(), self.4.erase_spec(), self.5.erase_spec()]);
            assert(self.elems_spec() =~= seq![self.0.erase_spec(), self.1.erase_spec(), self.2.erase_spec(), self.3.erase_spec(), self.4.erase_spec(), self.5.erase_spec()]);
        }
        let (a, b, c, d, e2, f) = self;
        commands.insert(world, entity, a);
        commands.insert(world, entity, b);
        commands.insert(world, entity, c);
        commands.insert(world, entity, d);
        commands.insert(world, entity, e2);
        commands.insert(world, entity, f);
    }
}

} // verus!
