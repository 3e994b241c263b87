//! Shader resource handles.

use vstd::prelude::*;

verus! {

/// A handle to a linked shader program owned by the graphics API.
/// Compiling and linking, and setting uniforms, happen in the host; the
/// resource table only stores and hands out the handle.
#[derive(Clone, Copy, PartialEq, Eq, Structural, Debug)]
pub struct Shader {
    pub shader_program: u32,
}

impl Shader {
    /// Wraps a linked shader-program handle.
    pub fn new(shader_program: u32) -> (r: Shader)
        ensures
            r == (Shader { shader_program }),
    {
        Shader { shader_program }
    }
}

} // verus!
