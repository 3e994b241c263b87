//! The world: component storage plus the named resource table.

use vstd::prelude::*;

use crate::components::{Component, ComponentKind, ComponentValue};
use crate::entity::EntityId;
use crate::query::{fetch, query_result, rows_match, Query, QueryRow, QuerySlot};
use crate::shader::Shader;
use crate::storage::{
    seq_keys, storage_inv, storage_lookup, storage_put, ComponentStorage,
};

verus! {

/// No two entries carry the same name.
spec fn res_names_unique(s: Seq<(String, Shader)>) -> bool {
    forall|i: int, j: int|
        #![trigger s[i], s[j]]
        0 <= i < j < s.len() ==> s[i].0@ != s[j].0@
}

/// The name-to-shader map that `s` represents.
spec fn res_seq_view(s: Seq<(String, Shader)>) -> Map<Seq<char>, Shader> {
    Map::new(
        |n: Seq<char>| exists|i: int| 0 <= i < s.len() && s[i].0@ == n,
        |n: Seq<char>| s[choose|i: int| 0 <= i < s.len() && s[i].0@ == n].1,
    )
}

/// With unique names, the view at the name of entry `i` is exactly that
/// entry's shader.
proof fn lemma_res_view_at(s: Seq<(String, Shader)>, i: int)
    requires
        res_names_unique(s),
        0 <= i < s.len(),
    ensures
        res_seq_view(s).dom().contains(s[i].0@),
        res_seq_view(s)[s[i].0@] == s[i].1,
{
    let n = s[i].0@;
    assert(0 <= i < s.len() && s[i].0@ == n);
    let j = choose|j: int| 0 <= j < s.len() && s[j].0@ == n;
    assert(j == i);
}

/// The world-scoped bag of named shared objects; here, a shader table.
/// Looking a name up returns absence when the name is unregistered; callers
/// for whom that is fatal check before use.
pub struct Resources {
    shaders: Vec<(String, Shader)>,
}

impl View for Resources {
    type V = Map<Seq<char>, Shader>;

    closed spec fn view(&self) -> Map<Seq<char>, Shader> {
        res_seq_view(self.shaders@)
    }
}

impl Resources {
    /// One entry per name.
    pub closed spec fn wf(&self) -> bool {
        res_names_unique(self.shaders@)
    }

    /// An empty table.
    pub fn new() -> (r: Resources)
        ensures
            r@ == Map::<Seq<char>, Shader>::empty(),
            r.wf(),
    {
        let r = Resources { shaders: Vec::new() };
        proof {
            assert(r@ =~= Map::<Seq<char>, Shader>::empty());
        }
        r
    }

    /// The position of the entry named `name`, if there is one.
    fn index_of(&self, name: &String) -> (r: Option<usize>)
        ensures
            match r {
                Some(i) => i < self.shaders@.len() && self.shaders@[i as int].0@ == name@,
                None => !self@.dom().contains(name@),
            },
    {
        let n = self.shaders.len();
        let mut i: usize = 0;
        while i < n
            invariant
                n == self.shaders@.len(),
                i <= n,
                forall|j: int| 0 <= j < i ==> (#[trigger] self.shaders@[j]).0@ != name@,
            decreases n - i,
        {
            if self.shaders[i].0 == *name {
                return Some(i);
            }
            i += 1;
        }
        None
    }

    /// Registers `shader` under `name`, replacing any earlier entry of that
    /// name.
    pub fn insert_shader(&mut self, name: String, shader: Shader)
        requires
            old(self).wf(),
        ensures
            final(self)@ == old(self)@.insert(name@, shader),
            final(self).wf(),
    {
        let ghost s0 = self.shaders@;
        match self.index_of(&name) {
            Some(i) => {
                proof {
                    lemma_res_view_at(s0, i as int);
                }
                let slot = &mut self.shaders[i];
                *slot = (name, shader);
                proof {
                    let s2 = self.shaders@;
                    assert forall|a: int, b: int|
                        #![trigger s2[a], s2[b]]
                        0 <= a < b < s2.len() implies s2[a].0@ != s2[b].0@ by {
                        if a != i as int {
                            assert(s2[a] == s0[a]);
                        }
                        if b != i as int {
                            assert(s2[b] == s0[b]);
                        }
                    }
                    assert forall|n2: Seq<char>|
                        res_seq_view(s2).dom().contains(n2) <==> res_seq_view(s0).insert(
                            name@,
                            shader,
                        ).dom().contains(n2) by {
                        if res_seq_view(s2).dom().contains(n2) {
                            let j = choose|j: int| 0 <= j < s2.len() && s2[j].0@ == n2;
                            if j != i as int {
                                assert(s0[j].0@ == n2);
                            }
                        }
                        if res_seq_view(s0).insert(name@, shader).dom().contains(n2) {
                            if n2 == name@ {
                                assert(s2[i as int].0@ == n2);
                            } else {
                                let j = choose|j: int| 0 <= j < s0.len() && s0[j].0@ == n2;
                                assert(s2[j].0@ == n2);
                            }
                        }
                    }
                    assert forall|n2: Seq<char>|
                        res_seq_view(s2).dom().contains(n2) implies res_seq_view(s2)[n2]
                        == res_seq_view(s0).insert(name@, shader)[n2] by {
                        let j = choose|j: int| 0 <= j < s2.len() && s2[j].0@ == n2;
                        lemma_res_view_at(s2, j);
                        if n2 == name@ {
                            assert(j == i as int);
                        } else {
                            assert(s0[j].0@ == n2);
                            lemma_res_view_at(s0, j);
                        }
                    }
                    assert(self@ =~= old(self)@.insert(name@, shader));
                }
            }
            None => {
                proof {
                    assert(forall|j: int|
                        0 <= j < s0.len() ==> (#[trigger] s0[j]).0@ != name@);
                }
                self.shaders.push((name, shader));
                proof {
                    let s2 = self.shaders@;
                    assert forall|a: int, b: int|
                        #![trigger s2[a], s2[b]]
                        0 <= a < b < s2.len() implies s2[a].0@ != s2[b].0@ by {
                        if b < s0.len() {
                            assert(s2[a] == s0[a] && s2[b] == s0[b]);
                        } else {
                            assert(s2[a] == s0[a]);
                        }
                    }
                    assert forall|n2: Seq<char>|
                        res_seq_view(s2).dom().contains(n2) <==> res_seq_view(s0).insert(
                            name@,
                            shader,
                        ).dom().contains(n2) by {
                        if res_seq_view(s2).dom().contains(n2) {
                            let j = choose|j: int| 0 <= j < s2.len() && s2[j].0@ == n2;
                            if j < s0.len() {
                                assert(s0[j].0@ == n2);
                            }
                        }
                        if res_seq_view(s0).insert(name@, shader).dom().contains(n2) {
                            if n2 == name@ {
                                assert(s2[s0.len() as int].0@ == n2);
                            } else {
                                let j = choose|j: int| 0 <= j < s0.len() && s0[j].0@ == n2;
                                assert(s2[j].0@ == n2);
                            }
                        }
                    }
                    assert forall|n2: Seq<char>|
                        res_seq_view(s2).dom().contains(n2) implies res_seq_view(s2)[n2]
                        == res_seq_view(s0).insert(name@, shader)[n2] by {
                        let j = choose|j: int| 0 <= j < s2.len() && s2[j].0@ == n2;
                        lemma_res_view_at(s2, j);
                        if n2 == name@ {
                            assert(j == s0.len());
                        } else {
                            assert(j < s0.len() && s0[j].0@ == n2);
                            lemma_res_view_at(s0, j);
                        }
                    }
                    assert(self@ =~= old(self)@.insert(name@, shader));
                }
            }
        }
    }

    /// The shader registered under `name`, or absence if the name is
    /// unregistered.
    pub fn get(&self, name: &String) -> (r: Option<&Shader>)
        requires
            self.wf(),
        ensures
            match r {
                Some(s) => self@.dom().contains(name@) && *s == self@[name@],
                None => !self@.dom().contains(name@),
            },
    {
        match self.index_of(name) {
            Some(i) => {
                proof {
                    lemma_res_view_at(self.shaders@, i as int);
                }
                Some(&self.shaders[i].1)
            }
            None => None,
        }
    }

}

/// The world: the sole owner of the component store, plus the resource
/// table. External systems read and write components only through it.
pub struct World {
    pub resources: Resources,
    components: ComponentStorage,
}

impl World {
    /// The component store's contents.
    pub closed spec fn components_view(&self) -> Map<
        ComponentKind,
        Seq<(EntityId, ComponentValue)>,
    > {
        self.components@
    }

    /// The resource table's contents.
    pub closed spec fn resources_view(&self) -> Map<Seq<char>, Shader> {
        self.resources@
    }

    /// The component store and the resource table are well-formed.
    pub closed spec fn wf(&self) -> bool {
        self.components.wf() && self.resources.wf()
    }

    /// The shader registered under `name`, or absence if the name is
    /// unregistered.
    pub fn get_resource(&self, name: &String) -> (r: Option<&Shader>)
        requires
            self.wf(),
        ensures
            match r {
                Some(s) => self.resources_view().dom().contains(name@) && *s
                    == self.resources_view()[name@],
                None => !self.resources_view().dom().contains(name@),
            },
    {
        self.resources.get(name)
    }

    /// Registers `shader` under `name`, replacing any earlier entry of
    /// that name; components are untouched.
    pub fn insert_resource(&mut self, name: String, shader: Shader)
        requires
            old(self).wf(),
        ensures
            final(self).wf(),
            final(self).resources_view() == old(self).resources_view().insert(name@, shader),
            final(self).components_view() == old(self).components_view(),
    {
        self.resources.insert_shader(name, shader);
    }

    /// Well-formedness gives the view-level storage invariant.
    pub proof fn lemma_wf_inv(&self)
        requires
            self.wf(),
        ensures
            storage_inv(self.components_view()),
    {
        self.components.lemma_wf_inv();
    }

    /// A fresh world: no component was ever inserted, and the resource
    /// table holds exactly the `"default"` shader entry.
    pub fn new(default_shader: Shader) -> (r: World)
        ensures
            r.wf(),
            r.components_view() == Map::<ComponentKind, Seq<(EntityId, ComponentValue)>>::empty(),
            r.resources_view() == Map::<Seq<char>, Shader>::empty().insert("default"@, default_shader),
    {
        let mut resources = Resources::new();
        resources.insert_shader(String::from_str("default"), default_shader);
        World { resources, components: ComponentStorage::new() }
    }

    /// The component of type `T` attached to `entity`, or absence.
    pub fn get<T: Component>(&self, entity: &EntityId) -> (r: Option<&T>)
        requires
            self.wf(),
        ensures
            match r {
                Some(c) => storage_lookup(self.components_view(), T::kind_spec(), *entity)
                    == Some(c.erase_spec()),
                None => storage_lookup(self.components_view(), T::kind_spec(), *entity) is None,
            },
    {
        self.components.get::<T>(entity)
    }

    /// A mutable reference to the component of type `T` attached to
    /// `entity`, or absence; the store follows whatever the caller writes
    /// through the reference.
    pub fn get_mut<T: Component>(&mut self, entity: &EntityId) -> (r: Option<&mut T>)
        requires
            old(self).wf(),
        ensures
            match r {
                Some(m) => storage_lookup(old(self).components_view(), T::kind_spec(), *entity)
                    == Some((*m).erase_spec()) && final(self).components_view() == storage_put(
                    old(self).components_view(),
                    T::kind_spec(),
                    *entity,
                    (*final(m)).erase_spec(),
                ) && final(self).wf() && final(self).resources_view() == old(self).resources_view(),
                None => storage_lookup(old(self).components_view(), T::kind_spec(), *entity)
                    is None && final(self).components_view() == old(self).components_view()
                    && final(self).wf() && final(self).resources_view() == old(self).resources_view(),
            },
    {
        self.components.get_mut::<T>(entity)
    }

    /// Attaches `component` to `entity`, overwriting any earlier value of
    /// the same type on that entity. Always succeeds; entries of other
    /// types and entities, and the resource table, are untouched.
    pub fn insert<T: Component>(&mut self, entity: EntityId, component: T)
        requires
            old(self).wf(),
        ensures
            final(self).components_view() == storage_put(
                old(self).components_view(),
                T::kind_spec(),
                entity,
                component.erase_spec(),
            ),
            final(self).wf(),
            final(self).resources_view() == old(self).resources_view(),
    {
        self.components.insert(entity, component);
    }

    /// Runs the typed query `Q` and collects its rows: every entity of the
    /// anchor column's map, in that map's order, that satisfies all
    /// required columns.
    pub fn query<Q: Query>(&self) -> (r: Vec<QueryRow>)
        requires
            self.wf(),
            Q::slots_spec().len() >= 1,
        ensures
            rows_match(r@, query_result(self.components_view(), Q::slots_spec())),
    {
        let slots = Q::slots();
        fetch(&self.components, &slots)
    }

    /// Runs the query described by a slot list built at run time.
    pub fn query_slots(&self, slots: &Vec<QuerySlot>) -> (r: Vec<QueryRow>)
        requires
            self.wf(),
            slots@.len() >= 1,
        ensures
            rows_match(r@, query_result(self.components_view(), slots@)),
    {
        fetch(&self.components, slots)
    }

    /// The entities currently holding a component of type `T`, in
    /// iteration order; empty if the type was never used. Pair each id
    /// with [`World::get_mut`] to mutate the values in place.
    pub fn query_mut<T: Component>(&self) -> (r: Vec<EntityId>)
        requires
            self.wf(),
        ensures
            r@ == if self.components_view().dom().contains(T::kind_spec()) {
                seq_keys(self.components_view()[T::kind_spec()])
            } else {
                Seq::<EntityId>::empty()
            },
    {
        self.components.query_mut::<T>()
    }
}

} // verus!
