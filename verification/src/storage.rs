//! Type-erased component storage.
//!
//! [`ComponentStorage`] maps a component kind to a per-kind map from entity
//! to erased value. A kind no value was ever inserted under is absent from
//! the outer map, which keeps "this kind was never used" distinct from
//! "this entity lacks the component". Inserting is the only mutation that
//! adds entries; it overwrites on a repeated (kind, entity) pair and never
//! touches entries of other kinds or entities.
//!
//! Per-kind maps are backed by vectors ordered by first insertion, with one
//! entry per entity; that order is what iteration and queries walk.

use vstd::prelude::*;

use crate::components::{kind_of, Component, ComponentKind, ComponentValue};
use crate::entity::EntityId;

verus! {

/// Does `s` hold an entry for entity `e`?
pub open spec fn seq_has_key(s: Seq<(EntityId, ComponentValue)>, e: EntityId) -> bool {
    exists|i: int| 0 <= i < s.len() && s[i].0 == e
}

/// The index of the entry for entity `e` in `s`.
pub open spec fn seq_index_of(s: Seq<(EntityId, ComponentValue)>, e: EntityId) -> int {
    choose|i: int| 0 <= i < s.len() && s[i].0 == e
}

/// The value stored for entity `e` in `s`.
pub open spec fn seq_value_of(s: Seq<(EntityId, ComponentValue)>, e: EntityId) -> ComponentValue {
    s[seq_index_of(s, e)].1
}

/// The entities of `s`, in entry order.
pub open spec fn seq_keys(s: Seq<(EntityId, ComponentValue)>) -> Seq<EntityId> {
    s.map_values(|p: (EntityId, ComponentValue)| p.0)
}

/// No two entries of `s` name the same entity.
pub open spec fn keys_unique(s: Seq<(EntityId, ComponentValue)>) -> bool {
    forall|i: int, j: int|
        #![trigger s[i], s[j]]
        0 <= i < j < s.len() ==> s[i].0 != s[j].0
}

/// `s` with the entry for `e` set to `v`: overwritten in place when `e`
/// already has an entry, appended otherwise.
pub open spec fn seq_put(
    s: Seq<(EntityId, ComponentValue)>,
    e: EntityId,
    v: ComponentValue,
) -> Seq<(EntityId, ComponentValue)> {
    if seq_has_key(s, e) {
        s.update(seq_index_of(s, e), (e, v))
    } else {
        s.push((e, v))
    }
}

/// One per-kind map from entity to erased component value, ordered by first
/// insertion.
pub struct ComponentMap {
    entries: Vec<(EntityId, ComponentValue)>,
}

impl View for ComponentMap {
    type V = Seq<(EntityId, ComponentValue)>;

    closed spec fn view(&self) -> Seq<(EntityId, ComponentValue)> {
        self.entries@
    }
}

impl ComponentMap {
    /// One entry per entity.
    pub open spec fn wf(&self) -> bool {
        keys_unique(self@)
    }

    /// An empty map.
    pub fn new() -> (r: ComponentMap)
        ensures
            r@ == Seq::<(EntityId, ComponentValue)>::empty(),
            r.wf(),
    {
        ComponentMap { entries: Vec::new() }
    }

    /// The number of entities holding this component.
    pub fn len(&self) -> (r: usize)
        ensures
            r == self@.len(),
    {
        self.entries.len()
    }

    /// The position of the entry for `e`, if there is one.
    fn index_of(&self, e: &EntityId) -> (r: Option<usize>)
        ensures
            match r {
                Some(i) => i < self@.len() && self@[i as int].0 == *e,
                None => !seq_has_key(self@, *e),
            },
    {
        let n = self.entries.len();
        let mut i: usize = 0;
        while i < n
            invariant
                n == self@.len(),
                i <= n,
                forall|j: int| 0 <= j < i ==> (#[trigger] self@[j]).0 != *e,
            decreases n - i,
        {
            if self.entries[i].0 == *e {
                return Some(i);
            }
            i += 1;
        }
        None
    }

    /// Does entity `e` hold this component?
    pub fn contains(&self, e: &EntityId) -> (r: bool)
        ensures
            r == seq_has_key(self@, *e),
    {
        self.index_of(e).is_some()
    }

    /// The value stored for `e`, or absence; absence is normal, not an
    /// error.
    pub fn get(&self, e: &EntityId) -> (r: Option<&ComponentValue>)
        requires
            self.wf(),
        ensures
            match r {
                Some(v) => seq_has_key(self@, *e) && *v == seq_value_of(self@, *e),
                None => !seq_has_key(self@, *e),
            },
    {
        match self.index_of(e) {
            Some(i) => Some(&self.entries[i].1),
            None => None,
        }
    }

    /// Sets the value for `e`, overwriting any earlier one (last write
    /// wins); always succeeds and disturbs no other entity's entry.
    pub fn insert(&mut self, e: EntityId, v: ComponentValue)
        requires
            old(self).wf(),
        ensures
            final(self)@ == seq_put(old(self)@, e, v),
            final(self).wf(),
    {
        match self.index_of(&e) {
            Some(i) => {
                let slot = &mut self.entries[i];
                *slot = (e, v);
            }
            None => {
                self.entries.push((e, v));
            }
        }
    }

    /// A mutable reference to the value stored for `e`, or absence; the
    /// entry follows whatever the caller writes through the reference,
    /// and no other entry moves.
    pub fn get_mut(&mut self, e: &EntityId) -> (r: Option<&mut ComponentValue>)
        requires
            old(self).wf(),
        ensures
            match r {
                Some(m) => seq_has_key(old(self)@, *e) && *m == seq_value_of(old(self)@, *e)
                    && final(self)@ == seq_put(old(self)@, *e, *final(m)) && final(self).wf(),
                None => !seq_has_key(old(self)@, *e) && final(self)@ == old(self)@
                    && final(self).wf(),
            },
    {
        match self.index_of(e) {
            Some(i) => {
                let slot = &mut self.entries[i];
                Some(&mut slot.1)
            }
            None => None,
        }
    }

    /// The entity of the entry at position `i`.
    pub fn key_at(&self, i: usize) -> (r: EntityId)
        requires
            i < self@.len(),
        ensures
            r == self@[i as int].0,
    {
        self.entries[i].0
    }

    /// The value of the entry at position `i`.
    pub fn value_at(&self, i: usize) -> (r: &ComponentValue)
        requires
            i < self@.len(),
        ensures
            *r == self@[i as int].1,
    {
        &self.entries[i].1
    }
}

/// Does `m` hold a value for entity `e` under kind `k`?
pub open spec fn storage_has(
    m: Map<ComponentKind, Seq<(EntityId, ComponentValue)>>,
    k: ComponentKind,
    e: EntityId,
) -> bool {
    m.dom().contains(k) && seq_has_key(m[k], e)
}

/// The value `m` holds for entity `e` under kind `k`, or absence.
pub open spec fn storage_lookup(
    m: Map<ComponentKind, Seq<(EntityId, ComponentValue)>>,
    k: ComponentKind,
    e: EntityId,
) -> Option<ComponentValue> {
    if storage_has(m, k, e) {
        Some(seq_value_of(m[k], e))
    } else {
        None
    }
}

/// `m` with the value for entity `e` under kind `k` set to `v`. Creates the
/// per-kind map when the kind was never used; entries of other kinds and
/// entities are untouched.
pub open spec fn storage_put(
    m: Map<ComponentKind, Seq<(EntityId, ComponentValue)>>,
    k: ComponentKind,
    e: EntityId,
    v: ComponentValue,
) -> Map<ComponentKind, Seq<(EntityId, ComponentValue)>> {
    m.insert(
        k,
        seq_put(
            if m.dom().contains(k) {
                m[k]
            } else {
                Seq::empty()
            },
            e,
            v,
        ),
    )
}

/// The storage invariant at the view level: each per-kind map has one entry
/// per entity, and a value stored under a kind tag has that kind.
pub open spec fn storage_inv(m: Map<ComponentKind, Seq<(EntityId, ComponentValue)>>) -> bool {
    &&& forall|k: ComponentKind| #[trigger] m.dom().contains(k) ==> keys_unique(m[k])
    &&& forall|k: ComponentKind, i: int|
        m.dom().contains(k) && 0 <= i < m[k].len() ==> kind_of(#[trigger] m[k][i].1) == k
}

/// No two outer entries carry the same kind tag.
spec fn outer_kinds_unique(s: Seq<(ComponentKind, ComponentMap)>) -> bool {
    forall|i: int, j: int|
        #![trigger s[i], s[j]]
        0 <= i < j < s.len() ==> s[i].0 != s[j].0
}

/// The map from kind to per-kind entry sequence that `s` represents.
spec fn storage_seq_view(s: Seq<(ComponentKind, ComponentMap)>) -> Map<
    ComponentKind,
    Seq<(EntityId, ComponentValue)>,
> {
    Map::new(
        |k: ComponentKind| exists|i: int| 0 <= i < s.len() && s[i].0 == k,
        |k: ComponentKind| s[choose|i: int| 0 <= i < s.len() && s[i].0 == k].1@,
    )
}

/// With unique kind tags, the view at the kind of entry `i` is exactly that
/// entry's map.
proof fn lemma_view_at(s: Seq<(ComponentKind, ComponentMap)>, i: int)
    requires
        outer_kinds_unique(s),
        0 <= i < s.len(),
    ensures
        storage_seq_view(s).dom().contains(s[i].0),
        storage_seq_view(s)[s[i].0] == s[i].1@,
{
    let k = s[i].0;
    assert(0 <= i < s.len() && s[i].0 == k);
    let j = choose|j: int| 0 <= j < s.len() && s[j].0 == k;
    assert(j == i);
}

/// Replacing entry `i`'s map updates the view at its kind and nothing else.
proof fn lemma_view_update(s: Seq<(ComponentKind, ComponentMap)>, i: int, m: ComponentMap)
    requires
        outer_kinds_unique(s),
        0 <= i < s.len(),
    ensures
        outer_kinds_unique(s.update(i, (s[i].0, m))),
        storage_seq_view(s.update(i, (s[i].0, m))) =~= storage_seq_view(s).insert(s[i].0, m@),
{
    let k = s[i].0;
    let s2 = s.update(i, (k, m));
    assert forall|a: int, b: int|
        #![trigger s2[a], s2[b]]
        0 <= a < b < s2.len() implies s2[a].0 != s2[b].0 by {
        assert(s2[a].0 == s[a].0 && s2[b].0 == s[b].0);
    }
    let v2 = storage_seq_view(s2);
    let v1 = storage_seq_view(s).insert(k, m@);
    assert forall|k2: ComponentKind| v2.dom().contains(k2) <==> v1.dom().contains(k2) by {
        assert(forall|j: int| 0 <= j < s.len() ==> (#[trigger] s2[j]).0 == s[j].0);
        if v2.dom().contains(k2) {
            let j = choose|j: int| 0 <= j < s2.len() && s2[j].0 == k2;
            assert(0 <= j < s.len() && s[j].0 == k2);
        }
        if v1.dom().contains(k2) {
            if k2 == k {
                assert(0 <= i < s2.len() && s2[i].0 == k2);
            } else {
                let j = choose|j: int| 0 <= j < s.len() && s[j].0 == k2;
                assert(0 <= j < s2.len() && s2[j].0 == k2);
            }
        }
    }
    assert forall|k2: ComponentKind| v2.dom().contains(k2) implies v2[k2] == v1[k2] by {
        let j = choose|j: int| 0 <= j < s2.len() && s2[j].0 == k2;
        lemma_view_at(s2, j);
        if k2 == k {
            assert(j == i);
        } else {
            assert(s[j].0 == k2);
            lemma_view_at(s, j);
        }
    }
}

/// Appending an entry under a fresh kind adds exactly that kind's map to
/// the view.
proof fn lemma_view_push(s: Seq<(ComponentKind, ComponentMap)>, k: ComponentKind, m: ComponentMap)
    requires
        outer_kinds_unique(s),
        forall|i: int| 0 <= i < s.len() ==> (#[trigger] s[i]).0 != k,
    ensures
        outer_kinds_unique(s.push((k, m))),
        storage_seq_view(s.push((k, m))) =~= storage_seq_view(s).insert(k, m@),
{
    let s2 = s.push((k, m));
    assert forall|a: int, b: int|
        #![trigger s2[a], s2[b]]
        0 <= a < b < s2.len() implies s2[a].0 != s2[b].0 by {
        if b < s.len() {
            assert(s2[a] == s[a] && s2[b] == s[b]);
        } else {
            assert(s2[a] == s[a] && s2[b] == (k, m));
        }
    }
    let v2 = storage_seq_view(s2);
    let v1 = storage_seq_view(s).insert(k, m@);
    assert forall|k2: ComponentKind| v2.dom().contains(k2) <==> v1.dom().contains(k2) by {
        if v2.dom().contains(k2) {
            let j = choose|j: int| 0 <= j < s2.len() && s2[j].0 == k2;
            if j < s.len() {
                assert(0 <= j < s.len() && s[j].0 == k2);
            }
        }
        if v1.dom().contains(k2) {
            if k2 == k {
                assert(s2[s.len() as int].0 == k2);
            } else {
                let j = choose|j: int| 0 <= j < s.len() && s[j].0 == k2;
                assert(0 <= j < s2.len() && s2[j].0 == k2);
            }
        }
    }
    assert forall|k2: ComponentKind| v2.dom().contains(k2) implies v2[k2] == v1[k2] by {
        let j = choose|j: int| 0 <= j < s2.len() && s2[j].0 == k2;
        lemma_view_at(s2, j);
        if k2 == k {
            assert(j == s.len());
        } else {
            assert(j < s.len() && s[j].0 == k2);
            lemma_view_at(s, j);
        }
    }
}

/// The type-erased component store: one per-kind map for every component
/// kind some value was inserted under.
pub struct ComponentStorage {
    storages: Vec<(ComponentKind, ComponentMap)>,
}

impl View for ComponentStorage {
    type V = Map<ComponentKind, Seq<(EntityId, ComponentValue)>>;

    closed spec fn view(&self) -> Map<ComponentKind, Seq<(EntityId, ComponentValue)>> {
        storage_seq_view(self.storages@)
    }
}

impl ComponentStorage {
    /// Kind tags are unique and the view-level invariant holds.
    pub closed spec fn wf(&self) -> bool {
        outer_kinds_unique(self.storages@) && storage_inv(self@)
    }

    /// Well-formedness gives the view-level invariant.
    pub proof fn lemma_wf_inv(&self)
        requires
            self.wf(),
        ensures
            storage_inv(self@),
    {
    }

    /// An empty store: no kind was ever used.
    pub fn new() -> (r: ComponentStorage)
        ensures
            r@ == Map::<ComponentKind, Seq<(EntityId, ComponentValue)>>::empty(),
            r.wf(),
    {
        let r = ComponentStorage { storages: Vec::new() };
        proof {
            assert(r@ =~= Map::<ComponentKind, Seq<(EntityId, ComponentValue)>>::empty());
        }
        r
    }

    /// The position of the per-kind map for `k`, if the kind was ever used.
    fn find_kind(&self, k: ComponentKind) -> (r: Option<usize>)
        ensures
            match r {
                Some(i) => i < self.storages@.len() && self.storages@[i as int].0 == k,
                None => !self@.dom().contains(k),
            },
    {
        let n = self.storages.len();
        let mut i: usize = 0;
        while i < n
            invariant
                n == self.storages@.len(),
                i <= n,
                forall|j: int| 0 <= j < i ==> (#[trigger] self.storages@[j]).0 != k,
            decreases n - i,
        {
            if self.storages[i].0 == k {
                return Some(i);
            }
            i += 1;
        }
        None
    }

    /// Sets the erased value for entity `e` under kind `k`, creating the
    /// per-kind map if the kind was never used. The only mutator: it always
    /// succeeds, overwrites on a repeated pair, and removes nothing.
    pub fn insert_value(&mut self, k: ComponentKind, e: EntityId, v: ComponentValue)
        requires
            old(self).wf(),
            kind_of(v) == k,
        ensures
            final(self)@ == storage_put(old(self)@, k, e, v),
            final(self).wf(),
    {
        let ghost s0 = self.storages@;
        match self.find_kind(k) {
            Some(i) => {
                proof {
                    lemma_view_at(s0, i as int);
                }
                let pair = &mut self.storages[i];
                assert(pair.1.wf());
                pair.1.insert(e, v);
                proof {
                    lemma_view_update(s0, i as int, self.storages@[i as int].1);
                    assert(self.storages@ =~= s0.update(
                        i as int,
                        (k, self.storages@[i as int].1),
                    ));
                    assert(self@ =~= storage_put(old(self)@, k, e, v));
                    lemma_put_preserves_inv(old(self)@, k, e, v);
                }
            }
            None => {
                let mut m = ComponentMap::new();
                m.insert(e, v);
                proof {
                    lemma_view_push(s0, k, m);
                }
                self.storages.push((k, m));
                proof {
                    assert(m@ =~= seq_put(Seq::empty(), e, v));
                    assert(self@ =~= storage_put(old(self)@, k, e, v));
                    lemma_put_preserves_inv(old(self)@, k, e, v);
                }
            }
        }
    }

    /// The erased value for entity `e` under kind `k`, or absence.
    pub fn get_value(&self, k: ComponentKind, e: &EntityId) -> (r: Option<&ComponentValue>)
        requires
            self.wf(),
        ensures
            match r {
                Some(v) => storage_lookup(self@, k, *e) == Some(*v),
                None => storage_lookup(self@, k, *e) is None,
            },
    {
        match self.find_kind(k) {
            Some(i) => {
                proof {
                    lemma_view_at(self.storages@, i as int);
                }
                self.storages[i].1.get(e)
            }
            None => None,
        }
    }

    /// Attaches `component` to `entity`, overwriting any earlier value of
    /// the same type on that entity (last write wins). Always succeeds.
    pub fn insert<T: Component>(&mut self, entity: EntityId, component: T)
        requires
            old(self).wf(),
        ensures
            final(self)@ == storage_put(
                old(self)@,
                T::kind_spec(),
                entity,
                component.erase_spec(),
            ),
            final(self).wf(),
    {
        proof {
            component.lemma_erase_kind();
        }
        let k = T::kind();
        let v = component.erase();
        self.insert_value(k, entity, v);
    }

    /// The component of type `T` attached to `entity`, or absence; absence
    /// is normal, not an error. Recovery from the erased value cannot fail:
    /// the tag it was stored under is derived from `T` itself.
    pub fn get<T: Component>(&self, entity: &EntityId) -> (r: Option<&T>)
        requires
            self.wf(),
        ensures
            match r {
                Some(c) => storage_lookup(self@, T::kind_spec(), *entity) == Some(c.erase_spec()),
                None => storage_lookup(self@, T::kind_spec(), *entity) is None,
            },
    {
        match self.get_value(T::kind(), entity) {
            Some(v) => {
                let r = T::recover_ref(v);
                proof {
                    if r is None {
                        let ghost k = T::kind_spec();
                        let ghost e = *entity;
                        assert(kind_of(self@[k][seq_index_of(self@[k], e)].1) == k);
                    }
                }
                r
            }
            None => None,
        }
    }

    /// A mutable reference to the component of type `T` attached to
    /// `entity`, or absence. The store follows whatever the caller writes
    /// through the reference; every other (kind, entity) pair is untouched.
    pub fn get_mut<T: Component>(&mut self, entity: &EntityId) -> (r: Option<&mut T>)
        requires
            old(self).wf(),
        ensures
            match r {
                Some(m) => storage_lookup(old(self)@, T::kind_spec(), *entity) == Some(
                    (*m).erase_spec(),
                ) && final(self)@ == storage_put(
                    old(self)@,
                    T::kind_spec(),
                    *entity,
                    (*final(m)).erase_spec(),
                ) && final(self).wf(),
                None => storage_lookup(old(self)@, T::kind_spec(), *entity) is None
                    && final(self)@ == old(self)@ && final(self).wf(),
            },
    {
        let ghost s0 = self.storages@;
        let ghost v0 = self@;
        let k = T::kind();
        let i = match self.find_kind(k) {
            Some(i) => i,
            None => {
                return None;
            }
        };
        proof {
            lemma_view_at(s0, i as int);
            assert forall|t: T| kind_of(#[trigger] t.erase_spec()) == T::kind_spec() by {
                t.lemma_erase_kind();
            }
            assert forall|t: T|
                storage_inv(storage_put(v0, k, *entity, #[trigger] t.erase_spec())) by {
                t.lemma_erase_kind();
                lemma_put_preserves_inv(v0, k, *entity, t.erase_spec());
            }
            assert forall|mnew: ComponentMap|
                #[trigger] storage_seq_view(s0.update(i as int, (k, mnew))) == storage_seq_view(
                    s0,
                ).insert(k, mnew@) by {
                lemma_view_update(s0, i as int, mnew);
            }
            if seq_has_key(v0[k], *entity) {
                assert(kind_of(v0[k][seq_index_of(v0[k], *entity)].1) == k);
            }
        }
        let pair = &mut self.storages[i];
        assert(pair.1.wf());
        match pair.1.get_mut(entity) {
            Some(v) => {
                match T::recover_ref_mut(v) {
                    Some(m) => Some(m),
                    None => vstd::pervasive::unreached(),
                }
            }
            None => None,
        }
    }

    /// The entire per-kind map for `T`, or absence if no value of type `T`
    /// was ever inserted for any entity.
    pub fn get_all<T: Component>(&self) -> (r: Option<&ComponentMap>)
        requires
            self.wf(),
        ensures
            match r {
                Some(m) => self@.dom().contains(T::kind_spec()) && m@ == self@[T::kind_spec()]
                    && m.wf(),
                None => !self@.dom().contains(T::kind_spec()),
            },
    {
        self.get_map(T::kind())
    }

    /// Was any value ever inserted under kind `k`?
    pub fn has_kind(&self, k: ComponentKind) -> (r: bool)
        ensures
            r == self@.dom().contains(k),
    {
        self.find_kind(k).is_some()
    }

    /// The entire per-kind map for `k`, or absence if the kind was never
    /// used.
    pub fn get_map(&self, k: ComponentKind) -> (r: Option<&ComponentMap>)
        requires
            self.wf(),
        ensures
            match r {
                Some(m) => self@.dom().contains(k) && m@ == self@[k] && m.wf(),
                None => !self@.dom().contains(k),
            },
    {
        match self.find_kind(k) {
            Some(i) => {
                proof {
                    lemma_view_at(self.storages@, i as int);
                }
                Some(&self.storages[i].1)
            }
            None => None,
        }
    }

    /// The entities currently holding a component of type `T`, in iteration
    /// order; empty if the type was never used. Pair each id with
    /// [`ComponentStorage::get_mut`] to mutate the values in place.
    pub fn query_mut<T: Component>(&self) -> (r: Vec<EntityId>)
        requires
            self.wf(),
        ensures
            r@ == if self@.dom().contains(T::kind_spec()) {
                seq_keys(self@[T::kind_spec()])
            } else {
                Seq::<EntityId>::empty()
            },
    {
        match self.get_all::<T>() {
            Some(m) => {
                let n = m.len();
                let mut r: Vec<EntityId> = Vec::new();
                let mut i: usize = 0;
                while i < n
                    invariant
                        n == m@.len(),
                        i <= n,
                        r@.len() == i,
                        forall|j: int| 0 <= j < i ==> r@[j] == (#[trigger] m@[j]).0,
                    decreases n - i,
                {
                    r.push(m.key_at(i));
                    i += 1;
                }
                proof {
                    assert(r@ =~= seq_keys(m@));
                }
                r
            }
            None => Vec::new(),
        }
    }
}

/// Putting a kind-consistent value keeps the view-level invariant.
proof fn lemma_put_preserves_inv(
    m: Map<ComponentKind, Seq<(EntityId, ComponentValue)>>,
    k: ComponentKind,
    e: EntityId,
    v: ComponentValue,
)
    requires
        storage_inv(m),
        kind_of(v) == k,
    ensures
        storage_inv(storage_put(m, k, e, v)),
{
    let m2 = storage_put(m, k, e, v);
    let s0 = if m.dom().contains(k) {
        m[k]
    } else {
        Seq::<(EntityId, ComponentValue)>::empty()
    };
    let s2 = seq_put(s0, e, v);
    assert(keys_unique(s0));
    if seq_has_key(s0, e) {
        let idx = seq_index_of(s0, e);
        assert(0 <= idx < s0.len() && s0[idx].0 == e);
        assert forall|i: int, j: int|
            #![trigger s2[i], s2[j]]
            0 <= i < j < s2.len() implies s2[i].0 != s2[j].0 by {
            assert(s2[i].0 == s0[i].0 && s2[j].0 == s0[j].0);
        }
        assert(forall|i: int| 0 <= i < s2.len() && i != idx ==> #[trigger] s2[i] == s0[i]);
    } else {
        assert forall|i: int, j: int|
            #![trigger s2[i], s2[j]]
            0 <= i < j < s2.len() implies s2[i].0 != s2[j].0 by {
            if j < s0.len() {
                assert(s2[i] == s0[i] && s2[j] == s0[j]);
            } else {
                assert(s2[j] == (e, v));
                assert(s2[i] == s0[i]);
                assert(!seq_has_key(s0, e));
            }
        }
    }
    assert forall|k2: ComponentKind, i: int|
        m2.dom().contains(k2) && 0 <= i < m2[k2].len() implies kind_of(
        #[trigger] m2[k2][i].1,
    ) == k2 by {
        if k2 != k {
            assert(m2[k2] == m[k2]);
        }
    }
}

} // verus!
