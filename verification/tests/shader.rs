use imgui_opengl::shader::{
    ShaderStage, FRAGMENT_SHADER_BODY, SHADER_VERSION, VERTEX_SHADER_BODY,
};

#[test]
fn shader_types_are_those_of_opengl() {
    assert_eq!(ShaderStage::Vertex.shader_type(), glow::VERTEX_SHADER);
    assert_eq!(ShaderStage::Fragment.shader_type(), glow::FRAGMENT_SHADER);
}

#[test]
fn source_is_version_line_break_body() {
    assert_eq!(
        ShaderStage::Vertex.source(),
        format!("{}\n{}", SHADER_VERSION, VERTEX_SHADER_BODY)
    );
    assert_eq!(
        ShaderStage::Fragment.source(),
        format!("{}\n{}", SHADER_VERSION, FRAGMENT_SHADER_BODY)
    );
}

#[test]
fn vertex_source_is_exact() {
    assert_eq!(
        ShaderStage::Vertex.source(),
        "#version 130\nuniform mat4 ProjMtx;\nin vec2 Position;\nin vec2 UV;\nin vec4 Color;\nout vec2 Frag_UV;\nout vec4 Frag_Color;\n\nvoid main()\n{\n    Frag_UV = UV;\n    Frag_Color = Color;\n    gl_Position = ProjMtx * vec4(Position.xy,0,1);\n}\n"
    );
}

#[test]
fn fragment_source_is_exact() {
    assert_eq!(
        ShaderStage::Fragment.source(),
        "#version 130\nuniform sampler2D Texture;\nin vec2 Frag_UV;\nin vec4 Frag_Color;\nout vec4 Out_Color;\n\nvoid main()\n{\n    Out_Color = Frag_Color * texture(Texture, Frag_UV.st);\n}\n"
    );
}

#[test]
fn version_directive_is_the_first_line() {
    for stage in [ShaderStage::Vertex, ShaderStage::Fragment] {
        assert_eq!(stage.source().lines().next(), Some("#version 130"));
    }
}
