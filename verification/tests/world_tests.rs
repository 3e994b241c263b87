use crowengine::camera::Camera;
use crowengine::color::Color;
use crowengine::commands::Commands;
use crowengine::cube::Cube;
use crowengine::entity::EntityId;
use crowengine::fixed::FIXED_ONE;
use crowengine::mesh::Mesh;
use crowengine::query::{Opt, Req};
use crowengine::shader::Shader;
use crowengine::texture::Texture;
use crowengine::transform::Transform;
use crowengine::use_shader::UseShader;
use crowengine::world::World;

#[test]
fn new_world_registers_the_default_shader() {
    let world = World::new(Shader::new(42));
    let shader = world.get_resource(&"default".to_string()).expect("default entry");
    assert_eq!(shader.shader_program, 42);
    assert!(world.get_resource(&"glow".to_string()).is_none());
}

#[test]
fn insert_resource_overwrites_by_name() {
    let mut world = World::new(Shader::new(1));
    world.insert_resource("glow".to_string(), Shader::new(2));
    world.insert_resource("glow".to_string(), Shader::new(3));
    assert_eq!(world.get_resource(&"glow".to_string()).unwrap().shader_program, 3);
    assert_eq!(world.get_resource(&"default".to_string()).unwrap().shader_program, 1);
}

#[test]
fn use_shader_resolves_its_named_entry() {
    let mut world = World::new(Shader::new(1));
    world.insert_resource("glow".to_string(), Shader::new(8));
    let component = UseShader::new("glow".to_string());
    assert_eq!(component.get_shader(&world).shader_program, 8);
}

#[test]
fn absent_use_shader_falls_back_to_default() {
    let mut world = World::new(Shader::new(5));
    world.insert_resource("glow".to_string(), Shader::new(8));
    let named = UseShader::new("glow".to_string());
    assert_eq!(UseShader::get_optional_shader(Some(&named), &world).shader_program, 8);
    assert_eq!(UseShader::get_optional_shader(None, &world).shader_program, 5);
}

#[test]
fn transform_constructors_fill_exact_fields() {
    let t = Transform::from_xyz(1, 2, 3);
    assert_eq!((t.position.x, t.position.y, t.position.z), (1, 2, 3));
    assert_eq!((t.rotation.x, t.rotation.y, t.rotation.z, t.rotation.w), (0, 0, 0, FIXED_ONE));
    assert_eq!((t.scale.x, t.scale.y, t.scale.z), (FIXED_ONE, FIXED_ONE, FIXED_ONE));
    let t = t.with_scale(2000, 2000, 2000);
    assert_eq!(t.scale.x, 2000);
    assert_eq!(t.position.x, 1);
}

#[test]
fn cube_geometry_is_exact() {
    let (vertices, indices) = Cube::new(500, 500, 500);
    assert_eq!(vertices.len(), 64);
    assert_eq!(indices.len(), 36);
    // First vertex: position (-250, -250, 250), uv (0, 0), color white.
    assert_eq!(&vertices[0..8], &[-250, -250, 250, 0, 0, FIXED_ONE, FIXED_ONE, FIXED_ONE]);
    // Third vertex of the front face.
    assert_eq!(&vertices[16..24], &[250, 250, 250, FIXED_ONE, FIXED_ONE, FIXED_ONE, FIXED_ONE,
        FIXED_ONE]);
    assert_eq!(&indices[0..6], &[0, 1, 2, 2, 3, 0]);
    assert_eq!(&indices[30..36], &[4, 5, 1, 1, 0, 4]);
}

#[test]
fn end_to_end_scene() {
    // Spawn three entities with bundles of arity 3, 4 and 5; the ids come
    // out 0, 1, 2; each entity's declared component set reads back
    // unchanged.
    let mut world = World::new(Shader::new(1));
    let mut commands = Commands::new();

    let a = commands.spawn(
        &mut world,
        (
            Camera::new(785, 100, 100_000, 1500),
            Transform::from_xyz(0, 0, 3000),
            Color::new(0, 0, 1000),
        ),
    );
    let b = commands.spawn(
        &mut world,
        (
            Transform::from_xyz(0, 0, 0),
            Mesh::new(11, 36),
            Texture::new(21),
            UseShader::new("default".to_string()),
        ),
    );
    let c = commands.spawn(
        &mut world,
        (
            Transform::from_xyz(500, 500, 0),
            Mesh::new(12, 36),
            Texture::new(22),
            Color::new(1000, 0, 0),
            UseShader::new("default".to_string()),
        ),
    );
    assert_eq!((a, b, c), (EntityId(0), EntityId(1), EntityId(2)));

    assert_eq!(world.get::<Camera>(&a).unwrap().fov_y, 785);
    assert_eq!(world.get::<Transform>(&a).unwrap().position.z, 3000);
    assert_eq!(world.get::<Color>(&a).unwrap().color.z, 1000);

    assert_eq!(world.get::<Transform>(&b).unwrap().position.z, 0);
    assert_eq!(world.get::<Mesh>(&b).unwrap().vao, 11);
    assert_eq!(world.get::<Texture>(&b).unwrap().id, 21);
    assert_eq!(world.get::<UseShader>(&b).unwrap().shader_name, "default");
    assert!(world.get::<Color>(&b).is_none());

    assert_eq!(world.get::<Transform>(&c).unwrap().position.x, 500);
    assert_eq!(world.get::<Mesh>(&c).unwrap().vao, 12);
    assert_eq!(world.get::<Texture>(&c).unwrap().id, 22);
    assert_eq!(world.get::<Color>(&c).unwrap().color.x, 1000);

    // The render pass shape: cameras, then drawable objects.
    let cameras = world.query::<(Req<Transform>, Req<Camera>)>();
    assert_eq!(cameras.len(), 1);
    assert_eq!(cameras[0].entity, a);
    let drawables = world.query::<(
        Req<Transform>,
        Opt<Color>,
        Req<Texture>,
        Req<Mesh>,
        Opt<UseShader>,
    )>();
    assert_eq!(drawables.len(), 2);
    assert_eq!(drawables[0].entity, b);
    assert!(drawables[0].items[1].is_none());
    assert_eq!(drawables[1].entity, c);
    assert!(drawables[1].items[1].is_some());
}
