//! A minimal entity-component runtime for a small interactive 3D scene.
//!
//! The core is the entity-component machinery: entity id allocation,
//! per-type component storage behind a single erased value type, bundle-based
//! multi-component insertion, and a generic multi-component join with
//! required and optional slots. Windowing, graphics-API calls and
//! floating-point linear algebra live outside this crate; components carry
//! their numeric data as fixed-point integers that the host converts at the
//! rendering boundary.

pub mod bundle;
pub mod camera;
pub mod commands;
pub mod color;
pub mod components;
pub mod cube;
pub mod entity;
pub mod fixed;
pub mod laws;
pub mod mesh;
pub mod query;
pub mod shader;
pub mod storage;
pub mod texture;
pub mod transform;
pub mod use_shader;
pub mod world;

pub use entity::EntityId;
