use crowengine::color::Color;
use crowengine::components::{Component, ComponentValue};
use crowengine::entity::EntityId;
use crowengine::storage::ComponentStorage;
use crowengine::texture::Texture;
use crowengine::transform::Transform;
use crowengine::use_shader::UseShader;

#[test]
fn last_write_wins_same_pair() {
    let mut storage = ComponentStorage::new();
    let e = EntityId(7);
    storage.insert(e, Texture::new(1));
    storage.insert(e, Texture::new(2));
    let got = storage.get::<Texture>(&e).expect("texture present");
    assert_eq!(got.id, 2);
}

#[test]
fn absence_for_never_inserted_pair() {
    let mut storage = ComponentStorage::new();
    let e = EntityId(0);
    assert!(storage.get::<Transform>(&e).is_none());
    assert!(storage.get::<Color>(&e).is_none());
    storage.insert(e, Texture::new(1));
    // Still absent for other types on the same entity, and for other
    // entities of the same type.
    assert!(storage.get::<Transform>(&e).is_none());
    assert!(storage.get::<Texture>(&EntityId(1)).is_none());
}

#[test]
fn insert_keeps_other_entries() {
    let mut storage = ComponentStorage::new();
    storage.insert(EntityId(0), Texture::new(10));
    storage.insert(EntityId(1), Texture::new(11));
    storage.insert(EntityId(0), Color::new(1, 2, 3));
    assert_eq!(storage.get::<Texture>(&EntityId(0)).unwrap().id, 10);
    assert_eq!(storage.get::<Texture>(&EntityId(1)).unwrap().id, 11);
    assert_eq!(storage.get::<Color>(&EntityId(0)).unwrap().color.x, 1);
}

#[test]
fn get_all_distinguishes_unused_type() {
    let mut storage = ComponentStorage::new();
    assert!(storage.get_all::<Texture>().is_none());
    storage.insert(EntityId(3), Texture::new(4));
    let map = storage.get_all::<Texture>().expect("type used");
    assert_eq!(map.len(), 1);
    assert!(map.contains(&EntityId(3)));
    assert!(!map.contains(&EntityId(4)));
}

#[test]
fn get_all_walk_matches_inserts() {
    let mut storage = ComponentStorage::new();
    storage.insert(EntityId(8), Texture::new(80));
    storage.insert(EntityId(3), Texture::new(30));
    let map = storage.get_all::<Texture>().expect("type used");
    let mut seen = Vec::new();
    for i in 0..map.len() {
        let id = map.key_at(i);
        match map.value_at(i) {
            ComponentValue::Texture(t) => seen.push((id, t.id)),
            _ => panic!("a texture map holds textures"),
        }
    }
    assert_eq!(seen, vec![(EntityId(8), 80), (EntityId(3), 30)]);
}

#[test]
fn get_mut_changes_are_visible() {
    let mut storage = ComponentStorage::new();
    let e = EntityId(5);
    storage.insert(e, Transform::from_xyz(1, 2, 3));
    {
        let t = storage.get_mut::<Transform>(&e).expect("present");
        t.position.z += 100;
    }
    let t = storage.get::<Transform>(&e).expect("present");
    assert_eq!(t.position.z, 103);
}

#[test]
fn get_mut_absent_is_none() {
    let mut storage = ComponentStorage::new();
    storage.insert(EntityId(0), Texture::new(1));
    assert!(storage.get_mut::<Transform>(&EntityId(0)).is_none());
    assert!(storage.get_mut::<Texture>(&EntityId(9)).is_none());
}

#[test]
fn query_mut_lists_holders_in_insertion_order() {
    let mut storage = ComponentStorage::new();
    storage.insert(EntityId(2), Texture::new(1));
    storage.insert(EntityId(0), Texture::new(2));
    storage.insert(EntityId(1), Color::new(0, 0, 0));
    storage.insert(EntityId(2), Texture::new(3));
    let ids = storage.query_mut::<Texture>();
    assert_eq!(ids, vec![EntityId(2), EntityId(0)]);
    assert!(storage.query_mut::<Transform>().is_empty());
}

#[test]
fn erased_value_recovers_only_its_own_type() {
    let v: ComponentValue = Texture::new(9).erase();
    assert!(<Texture as Component>::recover(v.clone()).is_some());
    assert!(<Color as Component>::recover(v.clone()).is_none());
    assert!(<Transform as Component>::recover(v).is_none());
}

#[test]
fn string_component_round_trips() {
    let mut storage = ComponentStorage::new();
    let e = EntityId(0);
    storage.insert(e, UseShader::new("glow".to_string()));
    let u = storage.get::<UseShader>(&e).expect("present");
    assert_eq!(u.shader_name, "glow");
}
