//! The join engine: multi-component queries with required and optional
//! slots.
//!
//! A query is an ordered list of slots, each naming a component kind and a
//! presence mode. The first slot is the anchor: its per-kind map drives
//! iteration, in that map's entry order. An entity is yielded when every
//! required slot's map holds it; optional slots decorate the row with
//! presence or absence. If any slot's kind was never used anywhere — the
//! anchor, a required slot, or even an optional one — the whole query is
//! empty. That last case deliberately conflates "kind never used" with
//! "component absent on this entity"; the tests pin the choice down.

use vstd::prelude::*;

use core::marker::PhantomData;

use crate::components::{Component, ComponentKind, ComponentValue};
use crate::entity::EntityId;
use crate::storage::{
    seq_keys, storage_has, storage_lookup, ComponentStorage,
};

verus! {

/// Whether a slot must be present for an entity to be yielded.
#[derive(Clone, Copy, PartialEq, Eq, Structural, Debug)]
pub enum SlotMode {
    Required,
    Optional,
}

/// One requested column of a query: a component kind and a presence mode.
#[derive(Clone, Copy, PartialEq, Eq, Structural, Debug)]
pub struct QuerySlot {
    pub kind: ComponentKind,
    pub mode: SlotMode,
}

/// Every slot's kind has a per-kind map in `m`.
pub open spec fn all_kinds_present(
    m: Map<ComponentKind, Seq<(EntityId, ComponentValue)>>,
    slots: Seq<QuerySlot>,
) -> bool {
    forall|i: int| 0 <= i < slots.len() ==> m.dom().contains((#[trigger] slots[i]).kind)
}

/// Entity `e` satisfies every required slot of the query.
pub open spec fn passes(
    m: Map<ComponentKind, Seq<(EntityId, ComponentValue)>>,
    slots: Seq<QuerySlot>,
    e: EntityId,
) -> bool {
    forall|i: int|
        0 <= i < slots.len() && (#[trigger] slots[i]).mode == SlotMode::Required
            ==> storage_has(m, slots[i].kind, e)
}

/// The row yielded for entity `e`: one lookup result per slot, in slot
/// order.
pub open spec fn row_items(
    m: Map<ComponentKind, Seq<(EntityId, ComponentValue)>>,
    slots: Seq<QuerySlot>,
    e: EntityId,
) -> Seq<Option<ComponentValue>> {
    Seq::new(slots.len(), |i: int| storage_lookup(m, slots[i].kind, e))
}

/// The rows produced by walking `keys` in order and yielding each entity
/// that passes the query.
pub open spec fn join_rows(
    m: Map<ComponentKind, Seq<(EntityId, ComponentValue)>>,
    slots: Seq<QuerySlot>,
    keys: Seq<EntityId>,
) -> Seq<(EntityId, Seq<Option<ComponentValue>>)>
    decreases keys.len(),
{
    if keys.len() == 0 {
        Seq::empty()
    } else {
        let prefix = join_rows(m, slots, keys.drop_last());
        if passes(m, slots, keys.last()) {
            prefix.push((keys.last(), row_items(m, slots, keys.last())))
        } else {
            prefix
        }
    }
}

/// The full query result: the anchor map's entities walked in order, or
/// nothing at all when some slot's kind was never used.
pub open spec fn query_result(
    m: Map<ComponentKind, Seq<(EntityId, ComponentValue)>>,
    slots: Seq<QuerySlot>,
) -> Seq<(EntityId, Seq<Option<ComponentValue>>)> {
    if slots.len() > 0 && all_kinds_present(m, slots) {
        join_rows(m, slots, seq_keys(m[slots[0].kind]))
    } else {
        Seq::empty()
    }
}

/// One yielded result: the entity and, per slot in slot order, its
/// component value or an absence marker (possible only for optional slots).
pub struct QueryRow {
    pub entity: EntityId,
    pub items: Vec<Option<ComponentValue>>,
}

/// The rows of `r` are exactly the rows of `res`, in order.
pub open spec fn rows_match(
    r: Seq<QueryRow>,
    res: Seq<(EntityId, Seq<Option<ComponentValue>>)>,
) -> bool {
    r.len() == res.len() && forall|i: int|
        0 <= i < res.len() ==> (#[trigger] r[i]).entity == res[i].0 && r[i].items@ == res[i].1
}

/// Runs the query described by `slots` against `storage` and collects the
/// rows. Each call walks the storage afresh; values are copied out, so the
/// rows stay valid however the storage changes afterwards.
pub fn fetch(storage: &ComponentStorage, slots: &Vec<QuerySlot>) -> (r: Vec<QueryRow>)
    requires
        storage.wf(),
        slots@.len() >= 1,
    ensures
        rows_match(r@, query_result(storage@, slots@)),
{
    let ghost v = storage@;
    let nslots = slots.len();

    // If any slot's kind was never used, the query is empty.
    let mut j: usize = 0;
    while j < nslots
        invariant
            nslots == slots@.len(),
            j <= nslots,
            forall|q: int| 0 <= q < j ==> v.dom().contains((#[trigger] slots@[q]).kind),
            storage.wf(),
            v == storage@,
        decreases nslots - j,
    {
        if !storage.has_kind(slots[j].kind) {
            assert(!all_kinds_present(v, slots@));
            return Vec::new();
        }
        j += 1;
    }
    assert(all_kinds_present(v, slots@));

    let anchor = match storage.get_map(slots[0].kind) {
        Some(m) => m,
        None => vstd::pervasive::unreached(),
    };
    let ghost keys = seq_keys(v[slots@[0].kind]);
    let n = anchor.len();
    let mut rows: Vec<QueryRow> = Vec::new();
    let mut idx: usize = 0;
    while idx < n
        invariant
            storage.wf(),
            v == storage@,
            nslots == slots@.len(),
            nslots >= 1,
            all_kinds_present(v, slots@),
            anchor@ == v[slots@[0].kind],
            keys == seq_keys(v[slots@[0].kind]),
            n == anchor@.len(),
            idx <= n,
            rows_match(rows@, join_rows(v, slots@, keys.take(idx as int))),
        decreases n - idx,
    {
        let e = anchor.key_at(idx);
        assert(e == keys[idx as int]);

        let mut items: Vec<Option<ComponentValue>> = Vec::new();
        let mut ok = true;
        let mut j: usize = 0;
        while j < nslots
            invariant
                storage.wf(),
                v == storage@,
                nslots == slots@.len(),
                all_kinds_present(v, slots@),
                j <= nslots,
                items@.len() == j,
                forall|q: int|
                    0 <= q < j ==> items@[q] == storage_lookup(v, (#[trigger] slots@[q]).kind, e),
                ok == forall|q: int|
                    0 <= q < j && (#[trigger] slots@[q]).mode == SlotMode::Required
                        ==> storage_has(v, slots@[q].kind, e),
            decreases nslots - j,
        {
            let slot = slots[j];
            let map = match storage.get_map(slot.kind) {
                Some(m) => m,
                None => vstd::pervasive::unreached(),
            };
            match map.get(&e) {
                Some(value) => {
                    items.push(Some(value.clone()));
                }
                None => {
                    if matches!(slot.mode, SlotMode::Required) {
                        ok = false;
                    }
                    items.push(None);
                }
            }
            j += 1;
        }

        proof {
            assert(keys.take(idx + 1).drop_last() =~= keys.take(idx as int));
            assert(keys.take(idx + 1).last() == keys[idx as int]);
            if ok {
                assert(items@ =~= row_items(v, slots@, e));
            }
        }
        if ok {
            rows.push(QueryRow { entity: e, items });
        }
        idx += 1;
    }
    proof {
        assert(keys.take(n as int) =~= keys);
    }
    rows
}

/// One fetchable column of a typed query: it knows which slot it stands
/// for. Implemented by [`Req`] and [`Opt`].
pub trait FetchComponent {
    /// The slot this column requests.
    spec fn slot_spec() -> QuerySlot;

    /// The slot, computed at run time.
    fn slot() -> (s: QuerySlot)
        ensures
            s == Self::slot_spec(),
    ;
}

/// A required column: entities lacking `T` are excluded from the result.
pub struct Req<T: Component>(PhantomData<T>);

/// An optional column: rows carry presence or absence of `T`.
pub struct Opt<T: Component>(PhantomData<T>);

impl<T: Component> FetchComponent for Req<T> {
    open spec fn slot_spec() -> QuerySlot {
        QuerySlot { kind: T::kind_spec(), mode: SlotMode::Required }
    }

    fn slot() -> QuerySlot {
        QuerySlot { kind: T::kind(), mode: SlotMode::Required }
    }
}

impl<T: Component> FetchComponent for Opt<T> {
    open spec fn slot_spec() -> QuerySlot {
        QuerySlot { kind: T::kind_spec(), mode: SlotMode::Optional }
    }

    fn slot() -> QuerySlot {
        QuerySlot { kind: T::kind(), mode: SlotMode::Optional }
    }
}

/// A typed query: an ordered tuple of one to five [`FetchComponent`]
/// columns, giving the slot list the join runs on.
pub trait Query {
    /// The requested slots, in column order.
    spec fn slots_spec() -> Seq<QuerySlot>;

    /// The slots, computed at run time.
    fn slots() -> (v: Vec<QuerySlot>)
        ensures
            v@ == Self::slots_spec(),
    ;
}

impl<A: FetchComponent> Query for (A,) {
    open spec fn slots_spec() -> Seq<QuerySlot> {
        seq![A::slot_spec()]
    }

    fn slots() -> (v: Vec<QuerySlot>) {
        let mut v: Vec<QuerySlot> = Vec::new();
        v.push(A::slot());
        proof {
            assert(v@ =~= Self::slots_spec());
        }
        v
    }
}

impl<A: FetchComponent, B: FetchComponent> Query for (A, B) {
    open spec fn slots_spec() -> Seq<QuerySlot> {
        seq![A::slot_spec(), B::slot_spec()]
    }

    fn slots() -> (v: Vec<QuerySlot>) {
        let mut v: Vec<QuerySlot> = Vec::new();
        v.push(A::slot());
        v.push(B::slot());
        proof {
            assert(v@ =~= Self::slots_spec());
        }
        v
    }
}

impl<A: FetchComponent, B: FetchComponent, C: FetchComponent> Query for (A, B, C) {
    open spec fn slots_spec() -> Seq<QuerySlot> {
        seq![A::slot_spec(), B::slot_spec(), C::slot_spec()]
    }

    fn slots() -> (v: Vec<QuerySlot>) {
        let mut v: Vec<QuerySlot> = Vec::new();
        v.push(A::slot());
        v.push(B::slot());
        v.push(C::slot());
        proof {
            assert(v@ =~= Self::slots_spec());
        }
        v
    }
}

impl<A: FetchComponent, B: FetchComponent, C: FetchComponent, D: FetchComponent> Query for (
    A,
    B,
    C,
    D,
) {
    open spec fn slots_spec() -> Seq<QuerySlot> {
        seq![A::slot_spec(), B::slot_spec(), C::slot_spec(), D::slot_spec()]
    }

    fn slots() -> (v: Vec<QuerySlot>) {
        let mut v: Vec<QuerySlot> = Vec::new();
        v.push(A::slot());
        v.push(B::slot());
        v.push(C::slot());
        v.push(D::slot());
        proof {
            assert(v@ =~= Self::slots_spec());
        }
        v
    }
}

impl<
    A: FetchComponent,
    B: FetchComponent,
    C: FetchComponent,
    D: FetchComponent,
    E: FetchComponent,
> Query for (A, B, C, D, E) {
    open spec fn slots_spec() -> Seq<QuerySlot> {
        seq![
            A::slot_spec(),
            B::slot_spec(),
            C::slot_spec(),
            D::slot_spec(),
            E::slot_spec(),
        ]
    }

    fn slots() -> (v: Vec<QuerySlot>) {
        let mut v: Vec<QuerySlot> = Vec::new();
        v.push(A::slot());
        v.push(B::slot());
        v.push(C::slot());
        v.push(D::slot());
        v.push(E::slot());
        proof {
            assert(v@ =~= Self::slots_spec());
        }
        v
    }
}

} // verus!
