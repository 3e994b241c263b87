//! The laws of the store and the join engine, stated and proved once over
//! the view-level operations that every contract in the crate speaks of.

use vstd::prelude::*;

use crate::bundle::apply_elems;
use crate::components::{kind_of, ComponentKind, ComponentValue};
use crate::entity::EntityId;
use crate::query::{
    all_kinds_present, join_rows, passes, query_result, row_items, QuerySlot, SlotMode,
};
use crate::storage::{
    keys_unique, seq_has_key, seq_index_of, seq_keys, seq_put, seq_value_of, storage_has,
    storage_lookup, storage_put,
};

verus! {

/// Every per-kind map of `m` has one entry per entity.
pub open spec fn all_keys_unique(m: Map<ComponentKind, Seq<(EntityId, ComponentValue)>>) -> bool {
    forall|k: ComponentKind| #[trigger] m.dom().contains(k) ==> keys_unique(m[k])
}

/// Putting `(e, v)` into a map with unique keys makes `e` map to `v`,
/// keeps the keys unique, and keeps every other entity's entry.
proof fn lemma_seq_put_value(s: Seq<(EntityId, ComponentValue)>, e: EntityId, v: ComponentValue)
    requires
        keys_unique(s),
    ensures
        keys_unique(seq_put(s, e, v)),
        seq_has_key(seq_put(s, e, v), e),
        seq_value_of(seq_put(s, e, v), e) == v,
        forall|e2: EntityId|
            e2 != e ==> #[trigger] seq_has_key(seq_put(s, e, v), e2) == seq_has_key(s, e2),
        forall|e2: EntityId|
            e2 != e && seq_has_key(s, e2) ==> #[trigger] seq_value_of(seq_put(s, e, v), e2)
                == seq_value_of(s, e2),
{
    let s2 = seq_put(s, e, v);
    if seq_has_key(s, e) {
        let idx = seq_index_of(s, e);
        assert(0 <= idx < s.len() && s[idx].0 == e);
        assert forall|i: int, j: int|
            #![trigger s2[i], s2[j]]
            0 <= i < j < s2.len() implies s2[i].0 != s2[j].0 by {
            if i != idx {
                assert(s2[i] == s[i]);
            }
            if j != idx {
                assert(s2[j] == s[j]);
            }
        }
        assert(s2[idx].0 == e);
        assert(seq_index_of(s2, e) == idx);
        assert forall|e2: EntityId| e2 != e implies #[trigger] seq_has_key(s2, e2) == seq_has_key(
            s,
            e2,
        ) by {
            if seq_has_key(s2, e2) {
                let j = seq_index_of(s2, e2);
                assert(j != idx);
                assert(s[j].0 == e2);
            }
            if seq_has_key(s, e2) {
                let j = seq_index_of(s, e2);
                assert(j != idx);
                assert(s2[j].0 == e2);
            }
        }
        assert forall|e2: EntityId|
            e2 != e && seq_has_key(s, e2) implies #[trigger] seq_value_of(s2, e2) == seq_value_of(
            s,
            e2,
        ) by {
            let j = seq_index_of(s, e2);
            assert(0 <= j < s.len() && s[j].0 == e2);
            assert(j != idx);
            assert(s2[j] == s[j]);
            assert(seq_has_key(s2, e2));
            assert(seq_index_of(s2, e2) == j);
        }
    } else {
        let n = s.len() as int;
        assert(s2[n].0 == e);
        assert forall|i: int, j: int|
            #![trigger s2[i], s2[j]]
            0 <= i < j < s2.len() implies s2[i].0 != s2[j].0 by {
            if j < n {
                assert(s2[i] == s[i] && s2[j] == s[j]);
            } else {
                assert(s2[i] == s[i]);
                assert(!seq_has_key(s, e));
            }
        }
        assert(seq_index_of(s2, e) == n);
        assert forall|e2: EntityId| e2 != e implies #[trigger] seq_has_key(s2, e2) == seq_has_key(
            s,
            e2,
        ) by {
            if seq_has_key(s2, e2) {
                let j = seq_index_of(s2, e2);
                assert(j != n);
                assert(s[j].0 == e2);
            }
            if seq_has_key(s, e2) {
                let j = seq_index_of(s, e2);
                assert(s2[j].0 == e2);
            }
        }
        assert forall|e2: EntityId|
            e2 != e && seq_has_key(s, e2) implies #[trigger] seq_value_of(s2, e2) == seq_value_of(
            s,
            e2,
        ) by {
            let j = seq_index_of(s, e2);
            assert(0 <= j < s.len() && s[j].0 == e2);
            assert(s2[j] == s[j]);
            assert(seq_has_key(s2, e2));
            assert(seq_index_of(s2, e2) == j);
        }
    }
}

/// A value just written for a (kind, entity) pair is what a lookup of that
/// pair returns, whether the write was an insert or a mutation through a
/// mutable reference.
pub proof fn lemma_put_lookup(
    m: Map<ComponentKind, Seq<(EntityId, ComponentValue)>>,
    k: ComponentKind,
    e: EntityId,
    v: ComponentValue,
)
    requires
        all_keys_unique(m),
    ensures
        storage_lookup(storage_put(m, k, e, v), k, e) == Some(v),
        all_keys_unique(storage_put(m, k, e, v)),
{
    let s = if m.dom().contains(k) {
        m[k]
    } else {
        Seq::<(EntityId, ComponentValue)>::empty()
    };
    lemma_seq_put_value(s, e, v);
    assert forall|k2: ComponentKind|
        #[trigger] storage_put(m, k, e, v).dom().contains(k2) implies keys_unique(
        storage_put(m, k, e, v)[k2],
    ) by {
        if k2 != k {
            assert(storage_put(m, k, e, v)[k2] == m[k2]);
        }
    }
}

/// Writing one (kind, entity) pair leaves every other pair's lookup as it
/// was: inserts never remove or change data of other kinds or entities.
pub proof fn lemma_put_frame(
    m: Map<ComponentKind, Seq<(EntityId, ComponentValue)>>,
    k: ComponentKind,
    e: EntityId,
    v: ComponentValue,
    k2: ComponentKind,
    e2: EntityId,
)
    requires
        all_keys_unique(m),
        k2 != k || e2 != e,
    ensures
        storage_lookup(storage_put(m, k, e, v), k2, e2) == storage_lookup(m, k2, e2),
{
    if k2 == k {
        let s = if m.dom().contains(k) {
            m[k]
        } else {
            Seq::<(EntityId, ComponentValue)>::empty()
        };
        lemma_seq_put_value(s, e, v);
        if !m.dom().contains(k) {
            assert(!seq_has_key(Seq::<(EntityId, ComponentValue)>::empty(), e2));
        }
    } else {
        assert(storage_put(m, k, e, v)[k2] == m[k2]);
    }
}

/// A lookup in the empty store finds nothing, for every kind and entity.
pub proof fn lemma_lookup_empty(k: ComponentKind, e: EntityId)
    ensures
        storage_lookup(Map::<ComponentKind, Seq<(EntityId, ComponentValue)>>::empty(), k, e)
            is None,
{
}

/// Absence is stable: a (kind, entity) pair that a lookup does not find is
/// still not found after a write to any other pair.
pub proof fn lemma_absence_preserved(
    m: Map<ComponentKind, Seq<(EntityId, ComponentValue)>>,
    k: ComponentKind,
    e: EntityId,
    k2: ComponentKind,
    e2: EntityId,
    v: ComponentValue,
)
    requires
        all_keys_unique(m),
        storage_lookup(m, k, e) is None,
        k2 != k || e2 != e,
    ensures
        storage_lookup(storage_put(m, k2, e2, v), k, e) is None,
{
    lemma_put_frame(m, k2, e2, v, k, e);
}

/// Applying a bundle keeps the per-kind maps' keys unique.
proof fn lemma_apply_keeps_unique(
    m: Map<ComponentKind, Seq<(EntityId, ComponentValue)>>,
    e: EntityId,
    elems: Seq<ComponentValue>,
)
    requires
        all_keys_unique(m),
    ensures
        all_keys_unique(apply_elems(m, e, elems)),
    decreases elems.len(),
{
    if elems.len() > 0 {
        lemma_apply_keeps_unique(m, e, elems.drop_last());
        lemma_put_lookup(apply_elems(m, e, elems.drop_last()), kind_of(elems.last()), e,
            elems.last());
    }
}

/// Bundle completeness: spawning with an arity-K bundle of pairwise
/// distinct component kinds performs exactly K inserts, one per element,
/// all attached to the one entity — afterwards each element is what a
/// lookup of its kind finds on that entity.
pub proof fn lemma_bundle_completeness(
    m: Map<ComponentKind, Seq<(EntityId, ComponentValue)>>,
    e: EntityId,
    elems: Seq<ComponentValue>,
)
    requires
        all_keys_unique(m),
        forall|i: int, j: int|
            0 <= i < j < elems.len() ==> kind_of(#[trigger] elems[i]) != kind_of(
                #[trigger] elems[j],
            ),
    ensures
        forall|i: int|
            0 <= i < elems.len() ==> storage_lookup(
                apply_elems(m, e, elems),
                kind_of(#[trigger] elems[i]),
                e,
            ) == Some(elems[i]),
    decreases elems.len(),
{
    if elems.len() > 0 {
        let prefix = elems.drop_last();
        let last = elems.last();
        lemma_bundle_completeness(m, e, prefix);
        lemma_apply_keeps_unique(m, e, prefix);
        lemma_put_lookup(apply_elems(m, e, prefix), kind_of(last), e, last);
        assert forall|i: int|
            0 <= i < elems.len() implies storage_lookup(
            apply_elems(m, e, elems),
            kind_of(#[trigger] elems[i]),
            e,
        ) == Some(elems[i]) by {
            if i < elems.len() - 1 {
                assert(elems[i] == prefix[i]);
                assert(kind_of(elems[i]) != kind_of(last));
                lemma_put_frame(
                    apply_elems(m, e, prefix),
                    kind_of(last),
                    e,
                    last,
                    kind_of(elems[i]),
                    e,
                );
            }
        }
    }
}

/// Bundle frame: applying a bundle to entity `e` changes no lookup of
/// another entity, nor of a kind the bundle does not carry.
pub proof fn lemma_bundle_frame(
    m: Map<ComponentKind, Seq<(EntityId, ComponentValue)>>,
    e: EntityId,
    elems: Seq<ComponentValue>,
    k2: ComponentKind,
    e2: EntityId,
)
    requires
        all_keys_unique(m),
        e2 != e || forall|i: int| 0 <= i < elems.len() ==> kind_of(#[trigger] elems[i]) != k2,
    ensures
        storage_lookup(apply_elems(m, e, elems), k2, e2) == storage_lookup(m, k2, e2),
    decreases elems.len(),
{
    if elems.len() > 0 {
        let prefix = elems.drop_last();
        lemma_bundle_frame(m, e, prefix, k2, e2);
        lemma_apply_keeps_unique(m, e, prefix);
        lemma_put_frame(apply_elems(m, e, prefix), kind_of(elems.last()), e, elems.last(), k2, e2);
    }
}

/// Last write wins: after two inserts for the same (kind, entity) pair, a
/// lookup of that pair returns the second value.
pub proof fn lemma_last_write_wins(
    m: Map<ComponentKind, Seq<(EntityId, ComponentValue)>>,
    k: ComponentKind,
    e: EntityId,
    v1: ComponentValue,
    v2: ComponentValue,
)
    requires
        all_keys_unique(m),
    ensures
        storage_lookup(storage_put(storage_put(m, k, e, v1), k, e, v2), k, e) == Some(v2),
{
    lemma_put_lookup(m, k, e, v1);
    lemma_put_lookup(storage_put(m, k, e, v1), k, e, v2);
}

/// Walking keys that all pass the query yields one row per key, in order.
proof fn lemma_join_all_pass(
    m: Map<ComponentKind, Seq<(EntityId, ComponentValue)>>,
    slots: Seq<QuerySlot>,
    keys: Seq<EntityId>,
)
    requires
        forall|i: int| 0 <= i < keys.len() ==> passes(m, slots, #[trigger] keys[i]),
    ensures
        join_rows(m, slots, keys).len() == keys.len(),
        forall|i: int|
            0 <= i < keys.len() ==> (#[trigger] join_rows(m, slots, keys)[i]) == (
                keys[i],
                row_items(m, slots, keys[i]),
            ),
    decreases keys.len(),
{
    if keys.len() > 0 {
        lemma_join_all_pass(m, slots, keys.drop_last());
        assert(passes(m, slots, keys.last()));
    }
}

/// Every row of a walk comes from a key that passes the query and carries
/// that entity's per-slot lookups; every passing key yields a row.
proof fn lemma_join_membership(
    m: Map<ComponentKind, Seq<(EntityId, ComponentValue)>>,
    slots: Seq<QuerySlot>,
    keys: Seq<EntityId>,
)
    ensures
        forall|i: int|
            0 <= i < join_rows(m, slots, keys).len() ==> {
                let row = #[trigger] join_rows(m, slots, keys)[i];
                &&& exists|j: int| 0 <= j < keys.len() && keys[j] == row.0
                &&& passes(m, slots, row.0)
                &&& row.1 == row_items(m, slots, row.0)
            },
        forall|j: int|
            0 <= j < keys.len() && passes(m, slots, #[trigger] keys[j]) ==> exists|i: int|
                0 <= i < join_rows(m, slots, keys).len() && (#[trigger] join_rows(
                    m,
                    slots,
                    keys,
                )[i]).0 == keys[j],
    decreases keys.len(),
{
    if keys.len() > 0 {
        let prefix = keys.drop_last();
        let pjoin = join_rows(m, slots, prefix);
        let join = join_rows(m, slots, keys);
        lemma_join_membership(m, slots, prefix);
        assert(forall|j: int| 0 <= j < prefix.len() ==> #[trigger] prefix[j] == keys[j]);
        assert forall|i: int| 0 <= i < join.len() implies {
            let row = #[trigger] join[i];
            &&& exists|j: int| 0 <= j < keys.len() && keys[j] == row.0
            &&& passes(m, slots, row.0)
            &&& row.1 == row_items(m, slots, row.0)
        } by {
            if i < pjoin.len() {
                assert(join[i] == pjoin[i]);
                let j = choose|j: int| 0 <= j < prefix.len() && prefix[j] == pjoin[i].0;
                assert(keys[j] == join[i].0);
            } else {
                assert(passes(m, slots, keys.last()));
                assert(join[i] == (keys.last(), row_items(m, slots, keys.last())));
                assert(keys[keys.len() - 1] == join[i].0);
            }
        }
        assert forall|j: int|
            0 <= j < keys.len() && passes(m, slots, #[trigger] keys[j]) implies exists|i: int|
            0 <= i < join.len() && (#[trigger] join[i]).0 == keys[j] by {
            if j < keys.len() - 1 {
                let i = choose|i: int| 0 <= i < pjoin.len() && (#[trigger] pjoin[i]).0 == prefix[j];
                assert(join[i] == pjoin[i]);
                assert((join[i]).0 == keys[j]);
            } else {
                assert((join[join.len() - 1]).0 == keys[j]);
            }
        }
    }
}

/// With pairwise-distinct keys, no entity is yielded twice.
proof fn lemma_join_distinct(
    m: Map<ComponentKind, Seq<(EntityId, ComponentValue)>>,
    slots: Seq<QuerySlot>,
    keys: Seq<EntityId>,
)
    requires
        forall|a: int, b: int| 0 <= a < b < keys.len() ==> keys[a] != keys[b],
    ensures
        forall|i1: int, i2: int|
            0 <= i1 < i2 < join_rows(m, slots, keys).len() ==> (#[trigger] join_rows(
                m,
                slots,
                keys,
            )[i1]).0 != (#[trigger] join_rows(m, slots, keys)[i2]).0,
    decreases keys.len(),
{
    if keys.len() > 0 {
        let prefix = keys.drop_last();
        let pjoin = join_rows(m, slots, prefix);
        let join = join_rows(m, slots, keys);
        lemma_join_distinct(m, slots, prefix);
        lemma_join_membership(m, slots, prefix);
        assert(forall|j: int| 0 <= j < prefix.len() ==> #[trigger] prefix[j] == keys[j]);
        assert forall|i1: int, i2: int|
            0 <= i1 < i2 < join.len() implies (#[trigger] join[i1]).0 != (
        #[trigger] join[i2]).0 by {
            if i2 < pjoin.len() {
                assert(join[i1] == pjoin[i1] && join[i2] == pjoin[i2]);
            } else {
                assert(join[i1] == pjoin[i1]);
                assert(join[i2].0 == keys.last());
                let j = choose|j: int| 0 <= j < prefix.len() && prefix[j] == pjoin[i1].0;
                assert(keys[j] != keys[keys.len() - 1]);
            }
        }
    }
}

/// Inner-join correctness, in general: when every slot's kind is in use,
/// the query yields exactly the entities the anchor map holds that satisfy
/// every required slot, each exactly once, each row carrying one lookup
/// result per slot in slot order.
pub proof fn lemma_query_is_inner_join(
    m: Map<ComponentKind, Seq<(EntityId, ComponentValue)>>,
    slots: Seq<QuerySlot>,
)
    requires
        all_keys_unique(m),
        slots.len() >= 1,
        all_kinds_present(m, slots),
    ensures
        forall|i: int|
            0 <= i < query_result(m, slots).len() ==> {
                let row = #[trigger] query_result(m, slots)[i];
                &&& storage_has(m, slots[0].kind, row.0)
                &&& passes(m, slots, row.0)
                &&& row.1 == row_items(m, slots, row.0)
            },
        forall|e: EntityId|
            storage_has(m, slots[0].kind, e) && passes(m, slots, e) ==> exists|i: int|
                0 <= i < query_result(m, slots).len() && (#[trigger] query_result(m, slots)[i]).0
                    == e,
        forall|i1: int, i2: int|
            0 <= i1 < i2 < query_result(m, slots).len() ==> (#[trigger] query_result(
                m,
                slots,
            )[i1]).0 != (#[trigger] query_result(m, slots)[i2]).0,
{
    let k0 = slots[0].kind;
    let keys = seq_keys(m[k0]);
    assert(m.dom().contains(k0));
    assert(forall|j: int| 0 <= j < keys.len() ==> #[trigger] keys[j] == m[k0][j].0);
    lemma_join_membership(m, slots, keys);
    assert forall|a: int, b: int| 0 <= a < b < keys.len() implies keys[a] != keys[b] by {
        assert(m[k0][a].0 != m[k0][b].0);
    }
    lemma_join_distinct(m, slots, keys);
    let res = query_result(m, slots);
    assert forall|i: int| 0 <= i < res.len() implies {
        let row = #[trigger] res[i];
        &&& storage_has(m, k0, row.0)
        &&& passes(m, slots, row.0)
        &&& row.1 == row_items(m, slots, row.0)
    } by {
        let j = choose|j: int| 0 <= j < keys.len() && keys[j] == res[i].0;
        assert(m[k0][j].0 == res[i].0);
        assert(seq_has_key(m[k0], res[i].0));
    }
    assert forall|e: EntityId| storage_has(m, k0, e) && passes(m, slots, e) implies exists|i: int|
        0 <= i < res.len() && (#[trigger] res[i]).0 == e by {
        let j = seq_index_of(m[k0], e);
        assert(0 <= j < m[k0].len() && m[k0][j].0 == e);
        assert(keys[j] == e);
        assert(passes(m, slots, keys[j]));
    }
}

/// Single-type query correctness: a one-slot required query over kind `k`
/// yields exactly the entities of `k`'s per-kind map, in its order, each
/// exactly once, each row carrying that entity's stored value; if the kind
/// was never used the query is empty.
pub proof fn lemma_single_required_query(
    m: Map<ComponentKind, Seq<(EntityId, ComponentValue)>>,
    k: ComponentKind,
)
    requires
        all_keys_unique(m),
    ensures
        !m.dom().contains(k) ==> query_result(m, seq![QuerySlot { kind: k, mode: SlotMode::Required }])
            == Seq::<(EntityId, Seq<Option<ComponentValue>>)>::empty(),
        m.dom().contains(k) ==> {
            let res = query_result(m, seq![QuerySlot { kind: k, mode: SlotMode::Required }]);
            &&& res.len() == m[k].len()
            &&& forall|i: int|
                0 <= i < res.len() ==> (#[trigger] res[i]).0 == m[k][i].0 && res[i].1 == seq![
                    Some(m[k][i].1),
                ]
            &&& forall|i: int, j: int| 0 <= i < j < res.len() ==> res[i].0 != res[j].0
        },
{
    let slots = seq![QuerySlot { kind: k, mode: SlotMode::Required }];
    if m.dom().contains(k) {
        let keys = seq_keys(m[k]);
        assert(all_kinds_present(m, slots));
        assert forall|i: int| 0 <= i < keys.len() implies passes(m, slots, #[trigger] keys[i]) by {
            assert(m[k][i].0 == keys[i]);
            assert(seq_has_key(m[k], keys[i]));
        }
        lemma_join_all_pass(m, slots, keys);
        let res = query_result(m, slots);
        assert forall|i: int|
            0 <= i < res.len() implies (#[trigger] res[i]).0 == m[k][i].0 && res[i].1 == seq![
            Some(m[k][i].1),
        ] by {
            assert(res[i] == (keys[i], row_items(m, slots, keys[i])));
            assert(keys[i] == m[k][i].0);
            assert(seq_has_key(m[k], keys[i]));
            let j = seq_index_of(m[k], keys[i]);
            assert(0 <= j < m[k].len() && m[k][j].0 == keys[i]);
            assert(j == i);
            assert(storage_lookup(m, k, keys[i]) == Some(m[k][i].1));
            assert(row_items(m, slots, keys[i]) =~= seq![Some(m[k][i].1)]);
        }
        assert forall|i: int, j: int| 0 <= i < j < res.len() implies res[i].0 != res[j].0 by {
            assert(res[i].0 == m[k][i].0 && res[j].0 == m[k][j].0);
        }
    }
}

} // verus!

