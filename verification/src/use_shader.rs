//! The shader-selection component.

use vstd::prelude::*;

use crate::shader::Shader;
use crate::world::World;

verus! {

/// Names the shader resource an entity wants to be drawn with. An entity
/// without this component is drawn with the `"default"` resource entry.
#[derive(PartialEq, Eq, Debug)]
pub struct UseShader {
    pub shader_name: String,
}

impl UseShader {
    /// Builds the component from a shader resource name.
    pub fn new(shader_name: String) -> (r: UseShader)
        ensures
            r == (UseShader { shader_name }),
    {
        UseShader { shader_name }
    }
}

impl UseShader {
    /// The shader this component names. An unregistered name is a caller
    /// contract violation, not an expected condition, so registration is
    /// required up front; [`crate::world::World::get_resource`] is the
    /// checked lookup.
    pub fn get_shader<'a>(&self, world: &'a World) -> (r: &'a Shader)
        requires
            world.wf(),
            world.resources_view().dom().contains(self.shader_name@),
        ensures
            *r == world.resources_view()[self.shader_name@],
    {
        match world.get_resource(&self.shader_name) {
            Some(s) => s,
            None => vstd::pervasive::unreached(),
        }
    }

    /// The shader named by `use_shader`, or the `"default"` resource entry
    /// when the component is absent.
    pub fn get_optional_shader<'a>(use_shader: Option<&UseShader>, world: &'a World) -> (r:
        &'a Shader)
        requires
            world.wf(),
            match use_shader {
                Some(u) => world.resources_view().dom().contains(u.shader_name@),
                None => world.resources_view().dom().contains("default"@),
            },
        ensures
            *r == match use_shader {
                Some(u) => world.resources_view()[u.shader_name@],
                None => world.resources_view()["default"@],
            },
    {
        match use_shader {
            Some(u) => u.get_shader(world),
            None => {
                let name = String::from_str("default");
                match world.get_resource(&name) {
                    Some(s) => s,
                    None => vstd::pervasive::unreached(),
                }
            }
        }
    }
}

impl Clone for UseShader {
    /// Clones the component, keeping the shader name.
    fn clone(&self) -> (r: Self)
        ensures
            r == *self,
    {
        UseShader { shader_name: self.shader_name.clone() }
    }
}

} // verus!
