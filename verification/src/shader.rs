//! A shader before it reaches the graphics driver: its stage, its name and
//! its source text, and the id that the driver gave it.

use vstd::prelude::*;

verus! {

#[derive(Clone, Copy, Debug, PartialEq, Eq, Structural)]
pub enum ShaderType {
    Vertex,
    Fragment,
}

pub struct Shader {
    shader_type: ShaderType,
    name: String,
    source: String,
    id: u32,
}

impl Shader {
    pub closed spec fn stage(self) -> ShaderType {
        self.shader_type
    }

    pub closed spec fn name(self) -> Seq<char> {
        self.name@
    }

    pub closed spec fn source(self) -> Seq<char> {
        self.source@
    }

    pub closed spec fn id(self) -> u32 {
        self.id
    }

    /// A shader that the driver has not seen yet: its id is 0.
    pub fn new(shader_type: ShaderType, name: String, source: String) -> (s: Self)
        ensures
            s.stage() == shader_type,
            s.name() == name@,
            s.source() == source@,
            s.id() == 0,
    {
        Self { shader_type, name, source, id: 0 }
    }

    pub fn is_vertex_shader(&self) -> (r: bool)
        ensures
            r == (self.stage() == ShaderType::Vertex),
    {
        matches!(self.shader_type, ShaderType::Vertex)
    }

    pub fn is_fragment_shader(&self) -> (r: bool)
        ensures
            r == (self.stage() == ShaderType::Fragment),
    {
        matches!(self.shader_type, ShaderType::Fragment)
    }

    pub fn borrow_name(&self) -> (r: &String)
        ensures
            r@ == self.name(),
    {
        &self.name
    }

    pub fn borrow_source(&self) -> (r: &String)
        ensures
            r@ == self.source(),
    {
        &self.source
    }

    pub fn get_id(&self) -> (r: u32)
        ensures
            r == self.id(),
    {
        self.id
    }

    /// Records the id that the driver gave the shader; nothing else changes.
    pub fn set_id(&mut self, id: u32)
        ensures
            final(self).id() == id,
            final(self).stage() == old(self).stage(),
            final(self).name() == old(self).name(),
            final(self).source() == old(self).source(),
    {
        self.id = id;
    }
}

/// Whether the two shaders can be built into a program: the first has to be a
/// vertex shader and the second a fragment shader. The first that is not what
/// it should be is the one named in the error.
pub fn check_stages(vertex_shader: &Shader, fragment_shader: &Shader) -> (r: Result<(), String>)
    ensures
        r is Ok <==> vertex_shader.stage() == ShaderType::Vertex && fragment_shader.stage()
            == ShaderType::Fragment,
        r matches Err(e) ==> e@ == (if vertex_shader.stage() != ShaderType::Vertex {
            "'vertex_shader' is not a Vertex Shader"@
        } else {
            "'fragment_shader' is not a Fragment Shader"@
        }),
{
    if !vertex_shader.is_vertex_shader() {
        return Err("'vertex_shader' is not a Vertex Shader".to_string());
    }
    if !fragment_shader.is_fragment_shader() {
        return Err("'fragment_shader' is not a Fragment Shader".to_string());
    }
    Ok(())
}

} // verus!
