//! The shader program: its two stages and their sources.

use vstd::prelude::*;
use vstd::string::StringExecFns;
use crate::gl::{FRAGMENT_SHADER, VERTEX_SHADER};

verus! {

/// The version directive that opens every shader source.
pub const SHADER_VERSION: &'static str = "#version 130";

/// The vertex shader below the version directive: it hands texture
/// coordinate and color through and projects the position.
pub const VERTEX_SHADER_BODY: &'static str =
    "uniform mat4 ProjMtx;\nin vec2 Position;\nin vec2 UV;\nin vec4 Color;\nout vec2 Frag_UV;\nout vec4 Frag_Color;\n\nvoid main()\n{\n    Frag_UV = UV;\n    Frag_Color = Color;\n    gl_Position = ProjMtx * vec4(Position.xy,0,1);\n}\n";

/// The fragment shader below the version directive: it modulates the color
/// with the texture.
pub const FRAGMENT_SHADER_BODY: &'static str =
    "uniform sampler2D Texture;\nin vec2 Frag_UV;\nin vec4 Frag_Color;\nout vec4 Out_Color;\n\nvoid main()\n{\n    Out_Color = Frag_Color * texture(Texture, Frag_UV.st);\n}\n";

/// A stage of the shader program.
#[derive(Clone, Copy, Debug, PartialEq, Eq, Structural)]
pub enum ShaderStage {
    Vertex,
    Fragment,
}

impl ShaderStage {
    /// The shader type under which the stage is created.
    pub open spec fn spec_shader_type(self) -> u32 {
        match self {
            ShaderStage::Vertex => VERTEX_SHADER,
            ShaderStage::Fragment => FRAGMENT_SHADER,
        }
    }

    /// The source of the stage: the version directive, a line break, and
    /// the body of the stage.
    pub open spec fn spec_source(self) -> Seq<char> {
        match self {
            ShaderStage::Vertex => SHADER_VERSION@ + "\n"@ + VERTEX_SHADER_BODY@,
            ShaderStage::Fragment => SHADER_VERSION@ + "\n"@ + FRAGMENT_SHADER_BODY@,
        }
    }

    /// The word for the stage in messages.
    pub open spec fn spec_name(self) -> Seq<char> {
        match self {
            ShaderStage::Vertex => "vertex"@,
            ShaderStage::Fragment => "fragment"@,
        }
    }

    /// The word for the stage in messages.
    pub fn name(self) -> (name: &'static str)
        ensures
            name@ == self.spec_name(),
    {
        match self {
            ShaderStage::Vertex => "vertex",
            ShaderStage::Fragment => "fragment",
        }
    }

    /// The shader type under which the stage is created.
    pub fn shader_type(self) -> (shader_type: u32)
        ensures
            shader_type == self.spec_shader_type(),
    {
        match self {
            ShaderStage::Vertex => VERTEX_SHADER,
            ShaderStage::Fragment => FRAGMENT_SHADER,
        }
    }

    /// The source of the stage.
    pub fn source(self) -> (source: String)
        ensures
            source@ == self.spec_source(),
    {
        let body = match self {
            ShaderStage::Vertex => VERTEX_SHADER_BODY,
            ShaderStage::Fragment => FRAGMENT_SHADER_BODY,
        };
        String::from_str(SHADER_VERSION).concat("\n").concat(body)
    }
}

} // verus!
