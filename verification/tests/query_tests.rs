use crowengine::camera::Camera;
use crowengine::color::Color;
use crowengine::components::{ComponentKind, ComponentValue};
use crowengine::entity::EntityId;
use crowengine::mesh::Mesh;
use crowengine::query::{Opt, QuerySlot, Req, SlotMode};
use crowengine::shader::Shader;
use crowengine::texture::Texture;
use crowengine::transform::Transform;
use crowengine::world::World;

fn world_with(entries: &[(u32, ComponentValue)]) -> World {
    let mut world = World::new(Shader::new(1));
    for (id, value) in entries {
        match value {
            ComponentValue::Transform(c) => world.insert(EntityId(*id), *c),
            ComponentValue::Camera(c) => world.insert(EntityId(*id), *c),
            ComponentValue::Color(c) => world.insert(EntityId(*id), *c),
            ComponentValue::Texture(c) => world.insert(EntityId(*id), *c),
            ComponentValue::Mesh(c) => world.insert(EntityId(*id), *c),
            ComponentValue::UseShader(c) => world.insert(EntityId(*id), c.clone()),
        }
    }
    world
}

#[test]
fn single_type_query_yields_each_holder_once() {
    let world = world_with(&[
        (4, ComponentValue::Texture(Texture::new(40))),
        (1, ComponentValue::Texture(Texture::new(10))),
        (1, ComponentValue::Texture(Texture::new(11))),
        (2, ComponentValue::Color(Color::new(0, 0, 0))),
    ]);
    let rows = world.query::<(Req<Texture>,)>();
    let ids: Vec<EntityId> = rows.iter().map(|r| r.entity).collect();
    assert_eq!(ids, vec![EntityId(4), EntityId(1)]);
    match rows[1].items[0] {
        Some(ComponentValue::Texture(t)) => assert_eq!(t.id, 11),
        _ => panic!("expected the overwritten texture"),
    }
}

#[test]
fn inner_join_excludes_entities_missing_a_required_slot() {
    // Entity 0 holds Transform and Camera; entity 1 holds Transform only.
    let world = world_with(&[
        (0, ComponentValue::Transform(Transform::from_xyz(0, 0, 3000))),
        (0, ComponentValue::Camera(Camera::new(785, 100, 100_000, 1500))),
        (1, ComponentValue::Transform(Transform::from_xyz(1, 1, 1))),
    ]);
    let rows = world.query::<(Req<Transform>, Req<Camera>)>();
    assert_eq!(rows.len(), 1);
    assert_eq!(rows[0].entity, EntityId(0));
    assert!(matches!(rows[0].items[0], Some(ComponentValue::Transform(_))));
    assert!(matches!(rows[0].items[1], Some(ComponentValue::Camera(_))));
}

#[test]
fn optional_slot_marks_absence() {
    // Entity 2 holds Transform and Mesh but no Color; some other entity
    // holds a Color so the Color map exists.
    let world = world_with(&[
        (2, ComponentValue::Transform(Transform::from_xyz(5, 6, 7))),
        (2, ComponentValue::Mesh(Mesh::new(3, 36))),
        (9, ComponentValue::Color(Color::new(1, 2, 3))),
    ]);
    let rows = world.query::<(Req<Transform>, Opt<Color>, Req<Mesh>)>();
    assert_eq!(rows.len(), 1);
    assert_eq!(rows[0].entity, EntityId(2));
    assert!(matches!(rows[0].items[0], Some(ComponentValue::Transform(_))));
    assert!(rows[0].items[1].is_none());
    match rows[0].items[2] {
        Some(ComponentValue::Mesh(m)) => assert_eq!(m.vao, 3),
        _ => panic!("expected the mesh"),
    }
}

#[test]
fn optional_slot_of_unused_kind_empties_the_query() {
    // No Color was ever inserted anywhere: even though the slot is
    // optional, the whole query is empty.
    let world = world_with(&[
        (0, ComponentValue::Transform(Transform::from_xyz(0, 0, 0))),
        (0, ComponentValue::Mesh(Mesh::new(1, 36))),
    ]);
    let rows = world.query::<(Req<Transform>, Opt<Color>, Req<Mesh>)>();
    assert!(rows.is_empty());
}

#[test]
fn required_slot_of_unused_kind_empties_the_query() {
    let world = world_with(&[(0, ComponentValue::Transform(Transform::from_xyz(0, 0, 0)))]);
    let rows = world.query::<(Req<Transform>, Req<Camera>)>();
    assert!(rows.is_empty());
}

#[test]
fn unused_anchor_empties_the_query() {
    let world = world_with(&[(0, ComponentValue::Camera(Camera::new(1, 2, 3, 4)))]);
    let rows = world.query::<(Req<Transform>, Opt<Camera>)>();
    assert!(rows.is_empty());
}

#[test]
fn query_by_runtime_slot_list() {
    let world = world_with(&[
        (0, ComponentValue::Texture(Texture::new(1))),
        (1, ComponentValue::Texture(Texture::new(2))),
        (1, ComponentValue::Color(Color::new(9, 9, 9))),
    ]);
    let slots = vec![
        QuerySlot { kind: ComponentKind::Texture, mode: SlotMode::Required },
        QuerySlot { kind: ComponentKind::Color, mode: SlotMode::Optional },
    ];
    let rows = world.query_slots(&slots);
    assert_eq!(rows.len(), 2);
    assert_eq!(rows[0].entity, EntityId(0));
    assert!(rows[0].items[1].is_none());
    assert_eq!(rows[1].entity, EntityId(1));
    assert!(matches!(rows[1].items[1], Some(ComponentValue::Color(_))));
}

#[test]
fn mutation_is_visible_to_later_query() {
    let mut world = world_with(&[
        (0, ComponentValue::Transform(Transform::from_xyz(0, 0, 0))),
        (1, ComponentValue::Transform(Transform::from_xyz(0, 0, 0))),
    ]);
    // The per-frame movement pass: walk every Transform holder, move it.
    for id in world.query_mut::<Transform>() {
        let t = world.get_mut::<Transform>(&id).expect("listed holder");
        t.position.z += 100;
    }
    assert_eq!(world.get::<Transform>(&EntityId(0)).unwrap().position.z, 100);
    let rows = world.query::<(Req<Transform>,)>();
    assert_eq!(rows.len(), 2);
    for row in &rows {
        match row.items[0] {
            Some(ComponentValue::Transform(t)) => assert_eq!(t.position.z, 100),
            _ => panic!("expected a transform"),
        }
    }
}
