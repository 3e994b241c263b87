use crowengine::camera::Camera;
use crowengine::color::Color;
use crowengine::commands::Commands;
use crowengine::entity::EntityId;
use crowengine::mesh::Mesh;
use crowengine::shader::Shader;
use crowengine::texture::Texture;
use crowengine::transform::Transform;
use crowengine::use_shader::UseShader;
use crowengine::world::World;

#[test]
fn spawn_ids_are_consecutive_from_zero() {
    let mut world = World::new(Shader::new(1));
    let mut commands = Commands::new();
    let a = commands.spawn(&mut world, (Texture::new(1),));
    let b = commands.spawn(
        &mut world,
        (Transform::from_xyz(0, 0, 0), Camera::new(785, 100, 100_000, 1500)),
    );
    let c = commands.spawn(&mut world, (Color::new(1, 0, 0),));
    assert_eq!(a, EntityId(0));
    assert_eq!(b, EntityId(1));
    assert_eq!(c, EntityId(2));
    assert_eq!(commands.next_id, 3);
}

#[test]
fn create_entity_increments_by_one() {
    let mut commands = Commands::new();
    assert_eq!(commands.create_entity(), EntityId(0));
    assert_eq!(commands.create_entity(), EntityId(1));
    assert_eq!(commands.create_entity(), EntityId(2));
}

#[test]
fn bundle_arity_two_inserts_both() {
    let mut world = World::new(Shader::new(1));
    let mut commands = Commands::new();
    let e = commands.spawn(&mut world, (Transform::from_xyz(1, 2, 3), Texture::new(7)));
    assert_eq!(world.get::<Transform>(&e).unwrap().position.x, 1);
    assert_eq!(world.get::<Texture>(&e).unwrap().id, 7);
    assert!(world.get::<Color>(&e).is_none());
}

#[test]
fn bundle_arity_six_inserts_all_on_one_entity() {
    let mut world = World::new(Shader::new(1));
    let mut commands = Commands::new();
    let e = commands.spawn(
        &mut world,
        (
            Transform::from_xyz(1, 2, 3),
            Camera::new(785, 100, 100_000, 1500),
            Color::new(1000, 0, 0),
            Texture::new(4),
            Mesh::new(5, 36),
            UseShader::new("default".to_string()),
        ),
    );
    assert_eq!(e, EntityId(0));
    assert_eq!(world.get::<Transform>(&e).unwrap().position.y, 2);
    assert_eq!(world.get::<Camera>(&e).unwrap().fov_y, 785);
    assert_eq!(world.get::<Color>(&e).unwrap().color.x, 1000);
    assert_eq!(world.get::<Texture>(&e).unwrap().id, 4);
    assert_eq!(world.get::<Mesh>(&e).unwrap().indices_count, 36);
    assert_eq!(world.get::<UseShader>(&e).unwrap().shader_name, "default");
    // No component leaked onto a different entity.
    assert!(world.get::<Transform>(&EntityId(1)).is_none());
}

#[test]
fn commands_insert_after_spawn() {
    let mut world = World::new(Shader::new(1));
    let mut commands = Commands::new();
    let e = commands.spawn(&mut world, (Texture::new(1),));
    commands.insert(&mut world, e, Color::new(0, 1000, 0));
    assert_eq!(world.get::<Color>(&e).unwrap().color.y, 1000);
    // Direct insert does not consume an id.
    assert_eq!(commands.next_id, 1);
}

#[test]
fn bundle_order_within_a_kind_is_last_write() {
    let mut world = World::new(Shader::new(1));
    let mut commands = Commands::new();
    let e = commands.spawn(&mut world, (Texture::new(1), Texture::new(2)));
    assert_eq!(world.get::<Texture>(&e).unwrap().id, 2);
}
