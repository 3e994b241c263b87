//! The component set and its erased form.
//!
//! Component storage is type-erased: every stored value has the single type
//! [`ComponentValue`], tagged by its [`ComponentKind`]. The component set is
//! closed and registered here; attaching a new kind of data to entities
//! means adding a variant to both enums and an impl of [`Component`].
//! Recovery from the erased form is safe by construction: a value stored
//! under a kind tag always has that kind, so a lookup that derives its tag
//! from the requested type can never see a mismatched value.

use vstd::prelude::*;

use crate::camera::Camera;
use crate::color::Color;
use crate::mesh::Mesh;
use crate::texture::Texture;
use crate::transform::Transform;
use crate::use_shader::UseShader;

verus! {

/// The identity of a component type: the tag the erased storage is keyed by.
#[derive(Clone, Copy, PartialEq, Eq, Structural, Debug)]
pub enum ComponentKind {
    Transform,
    Camera,
    Color,
    Texture,
    Mesh,
    UseShader,
}

/// A component value with its concrete type erased.
#[derive(PartialEq, Debug)]
pub enum ComponentValue {
    Transform(Transform),
    Camera(Camera),
    Color(Color),
    Texture(Texture),
    Mesh(Mesh),
    UseShader(UseShader),
}

/// The kind tag of an erased value.
pub open spec fn kind_of(v: ComponentValue) -> ComponentKind {
    match v {
        ComponentValue::Transform(_) => ComponentKind::Transform,
        ComponentValue::Camera(_) => ComponentKind::Camera,
        ComponentValue::Color(_) => ComponentKind::Color,
        ComponentValue::Texture(_) => ComponentKind::Texture,
        ComponentValue::Mesh(_) => ComponentKind::Mesh,
        ComponentValue::UseShader(_) => ComponentKind::UseShader,
    }
}

impl Clone for ComponentValue {
    /// Clones the erased value, keeping it equal to the original.
    fn clone(&self) -> (r: Self)
        ensures
            r == *self,
    {
        match self {
            ComponentValue::Transform(t) => ComponentValue::Transform(*t),
            ComponentValue::Camera(c) => ComponentValue::Camera(*c),
            ComponentValue::Color(c) => ComponentValue::Color(*c),
            ComponentValue::Texture(t) => ComponentValue::Texture(*t),
            ComponentValue::Mesh(m) => ComponentValue::Mesh(*m),
            ComponentValue::UseShader(u) => ComponentValue::UseShader(u.clone()),
        }
    }
}

/// The capability of being attached to an entity. A component type knows
/// its kind tag, how to erase itself into a [`ComponentValue`], and how to
/// recover a reference to itself from an erased value of its kind.
pub trait Component: Sized {
    /// The kind tag of this component type.
    spec fn kind_spec() -> ComponentKind;

    /// The erased form of a value of this type.
    spec fn erase_spec(self) -> ComponentValue;

    /// The kind tag, computed at run time.
    fn kind() -> (k: ComponentKind)
        ensures
            k == Self::kind_spec(),
    ;

    /// Erases a value of this type.
    fn erase(self) -> (v: ComponentValue)
        ensures
            v == self.erase_spec(),
    ;

    /// Recovers a reference to a value of this type from an erased value.
    /// Succeeds exactly on values of this type's kind.
    fn recover_ref(v: &ComponentValue) -> (r: Option<&Self>)
        ensures
            match r {
                Some(c) => *v == c.erase_spec() && kind_of(*v) == Self::kind_spec(),
                None => kind_of(*v) != Self::kind_spec(),
            },
    ;

    /// Recovers an owned value of this type from an erased value.
    /// Succeeds exactly on values of this type's kind.
    fn recover(v: ComponentValue) -> (r: Option<Self>)
        ensures
            match r {
                Some(c) => v == c.erase_spec() && kind_of(v) == Self::kind_spec(),
                None => kind_of(v) != Self::kind_spec(),
            },
    ;

    /// Recovers a mutable reference to a value of this type from an erased
    /// value. Succeeds exactly on values of this type's kind; the erased
    /// value follows whatever the caller writes through the reference.
    fn recover_ref_mut(v: &mut ComponentValue) -> (r: Option<&mut Self>)
        ensures
            match r {
                Some(m) => kind_of(*old(v)) == Self::kind_spec() && *old(v) == (*m).erase_spec()
                    && *final(v) == (*final(m)).erase_spec(),
                None => kind_of(*old(v)) != Self::kind_spec() && *final(v) == *old(v),
            },
    ;

    /// Erasing determines the kind tag.
    proof fn lemma_erase_kind(self)
        ensures
            kind_of(self.erase_spec()) == Self::kind_spec(),
    ;
}

impl Component for Transform {
    open spec fn kind_spec() -> ComponentKind {
        ComponentKind::Transform
    }

    open spec fn erase_spec(self) -> ComponentValue {
        ComponentValue::Transform(self)
    }

    fn kind() -> ComponentKind {
        ComponentKind::Transform
    }

    fn erase(self) -> ComponentValue {
        ComponentValue::Transform(self)
    }

    fn recover_ref(v: &ComponentValue) -> Option<&Self> {
        match v {
            ComponentValue::Transform(c) => Some(c),
            _ => None,
        }
    }

    fn recover(v: ComponentValue) -> Option<Self> {
        match v {
            ComponentValue::Transform(c) => Some(c),
            _ => None,
        }
    }

    fn recover_ref_mut(v: &mut ComponentValue) -> Option<&mut Self> {
        match v {
            ComponentValue::Transform(c) => Some(c),
            _ => None,
        }
    }

    proof fn lemma_erase_kind(self) {
    }
}

impl Component for Camera {
    open spec fn kind_spec() -> ComponentKind {
        ComponentKind::Camera
    }

    open spec fn erase_spec(self) -> ComponentValue {
        ComponentValue::Camera(self)
    }

    fn kind() -> ComponentKind {
        ComponentKind::Camera
    }

    fn erase(self) -> ComponentValue {
        ComponentValue::Camera(self)
    }

    fn recover_ref(v: &ComponentValue) -> Option<&Self> {
        match v {
            ComponentValue::Camera(c) => Some(c),
            _ => None,
        }
    }

    fn recover(v: ComponentValue) -> Option<Self> {
        match v {
            ComponentValue::Camera(c) => Some(c),
            _ => None,
        }
    }

    fn recover_ref_mut(v: &mut ComponentValue) -> Option<&mut Self> {
        match v {
            ComponentValue::Camera(c) => Some(c),
            _ => None,
        }
    }

    proof fn lemma_erase_kind(self) {
    }
}

impl Component for Color {
    open spec fn kind_spec() -> ComponentKind {
        ComponentKind::Color
    }

    open spec fn erase_spec(self) -> ComponentValue {
        ComponentValue::Color(self)
    }

    fn kind() -> ComponentKind {
        ComponentKind::Color
    }

    fn erase(self) -> ComponentValue {
        ComponentValue::Color(self)
    }

    fn recover_ref(v: &ComponentValue) -> Option<&Self> {
        match v {
            ComponentValue::Color(c) => Some(c),
            _ => None,
        }
    }

    fn recover(v: ComponentValue) -> Option<Self> {
        match v {
            ComponentValue::Color(c) => Some(c),
            _ => None,
        }
    }

    fn recover_ref_mut(v: &mut ComponentValue) -> Option<&mut Self> {
        match v {
            ComponentValue::Color(c) => Some(c),
            _ => None,
        }
    }

    proof fn lemma_erase_kind(self) {
    }
}

impl Component for Texture {
    open spec fn kind_spec() -> ComponentKind {
        ComponentKind::Texture
    }

    open spec fn erase_spec(self) -> ComponentValue {
        ComponentValue::Texture(self)
    }

    fn kind() -> ComponentKind {
        ComponentKind::Texture
    }

    fn erase(self) -> ComponentValue {
        ComponentValue::Texture(self)
    }

    fn recover_ref(v: &ComponentValue) -> Option<&Self> {
        match v {
            ComponentValue::Texture(c) => Some(c),
            _ => None,
        }
    }

    fn recover(v: ComponentValue) -> Option<Self> {
        match v {
            ComponentValue::Texture(c) => Some(c),
            _ => None,
        }
    }

    fn recover_ref_mut(v: &mut ComponentValue) -> Option<&mut Self> {
        match v {
            ComponentValue::Texture(c) => Some(c),
            _ => None,
        }
    }

    proof fn lemma_erase_kind(self) {
    }
}

impl Component for Mesh {
    open spec fn kind_spec() -> ComponentKind {
        ComponentKind::Mesh
    }

    open spec fn erase_spec(self) -> ComponentValue {
        ComponentValue::Mesh(self)
    }

    fn kind() -> ComponentKind {
        ComponentKind::Mesh
    }

    fn erase(self) -> ComponentValue {
        ComponentValue::Mesh(self)
    }

    fn recover_ref(v: &ComponentValue) -> Option<&Self> {
        match v {
            ComponentValue::Mesh(c) => Some(c),
            _ => None,
        }
    }

    fn recover(v: ComponentValue) -> Option<Self> {
        match v {
            ComponentValue::Mesh(c) => Some(c),
            _ => None,
        }
    }

    fn recover_ref_mut(v: &mut ComponentValue) -> Option<&mut Self> {
        match v {
            ComponentValue::Mesh(c) => Some(c),
            _ => None,
        }
    }

    proof fn lemma_erase_kind(self) {
    }
}

impl Component for UseShader {
    open spec fn kind_spec() -> ComponentKind {
        ComponentKind::UseShader
    }

    open spec fn erase_spec(self) -> ComponentValue {
        ComponentValue::UseShader(self)
    }

    fn kind() -> ComponentKind {
        ComponentKind::UseShader
    }

    fn erase(self) -> ComponentValue {
        ComponentValue::UseShader(self)
    }

    fn recover_ref(v: &ComponentValue) -> Option<&Self> {
        match v {
            ComponentValue::UseShader(c) => Some(c),
            _ => None,
        }
    }

    fn recover(v: ComponentValue) -> Option<Self> {
        match v {
            ComponentValue::UseShader(c) => Some(c),
            _ => None,
        }
    }

    fn recover_ref_mut(v: &mut ComponentValue) -> Option<&mut Self> {
        match v {
            ComponentValue::UseShader(c) => Some(c),
            _ => None,
        }
    }

    proof fn lemma_erase_kind(self) {
    }
}

} // verus!
