use imgui_opengl::draw::{projection, DrawBatch, DrawCommand, DrawData, ScissorRect, TextureId};
use imgui_opengl::gl;
use imgui_opengl::gl::GlCall;
use imgui_opengl::layout::{encode_indices, encode_vertices, Vertex};
use imgui_opengl::renderer::{Locs, RenderError, Renderer, Unsupported};

fn renderer() -> Renderer {
    Renderer {
        program: 3,
        locs: Locs { texture: 11, proj_mtx: 12, position: 0, uv: 1, color: 2 },
        vbo: 5,
        ebo: 6,
        font_texture: 7,
    }
}

const X_SCALE: u32 = 0x3b23_d70a;

const Y_SCALE: u32 = 0xbb5a_740e;

fn matrix() -> [u32; 16] {
    [
        X_SCALE, 0, 0, 0,
        0, Y_SCALE, 0, 0,
        0, 0, 0xbf80_0000, 0,
        0xbf80_0000, 0x3f80_0000, 0, 0x3f80_0000,
    ]
}

fn frame(batches: Vec<DrawBatch>) -> DrawData {
    DrawData {
        framebuffer_width: 800.0f32.to_bits(),
        framebuffer_height: 600.0f32.to_bits(),
        x_scale: X_SCALE,
        y_scale: Y_SCALE,
        batches,
    }
}

fn vertex(x: f32, y: f32) -> Vertex {
    Vertex { pos: [x.to_bits(), y.to_bits()], uv: [0, 0], col: [255, 255, 255, 255] }
}

fn rect(x: f32, y: f32, width: f32, height: f32) -> ScissorRect {
    ScissorRect { x: x.to_bits(), y: y.to_bits(), width: width.to_bits(), height: height.to_bits() }
}

fn elements(count: u32, idx_offset: u32, texture: usize) -> DrawCommand {
    DrawCommand::Elements {
        count,
        scissor: rect(10.0, 480.0, 100.0, 100.0),
        texture_id: TextureId { id: texture },
        idx_offset,
    }
}

fn opening(vertex_array: u32) -> Vec<GlCall> {
    vec![
        GlCall::ActiveTexture { unit: 0x84C0 },
        GlCall::Enable { parameter: 0x0BE2 },
        GlCall::BlendEquation { mode: 0x8006 },
        GlCall::BlendFunc { src: 0x0302, dst: 0x0303 },
        GlCall::Disable { parameter: 0x0B44 },
        GlCall::Disable { parameter: 0x0B71 },
        GlCall::Enable { parameter: 0x0C11 },
        GlCall::PolygonMode { face: 0x0408, mode: 0x1B02 },
        GlCall::Viewport { x: 0, y: 0, width: 800, height: 600 },
        GlCall::UseProgram { program: 3 },
        GlCall::Uniform1i { location: 11, value: 0 },
        GlCall::UniformMatrix4 { location: 12, transpose: false, matrix: matrix() },
        GlCall::BindSampler { unit: 0, sampler: 0 },
        GlCall::BindVertexArray { vertex_array },
        GlCall::BindBuffer { target: 0x8892, buffer: 5 },
        GlCall::EnableVertexAttribArray { index: 0 },
        GlCall::EnableVertexAttribArray { index: 1 },
        GlCall::EnableVertexAttribArray { index: 2 },
        GlCall::VertexAttribPointer {
            index: 0,
            size: 2,
            data_type: 0x1406,
            normalized: false,
            stride: 20,
            offset: 0,
        },
        GlCall::VertexAttribPointer {
            index: 1,
            size: 2,
            data_type: 0x1406,
            normalized: false,
            stride: 20,
            offset: 8,
        },
        GlCall::VertexAttribPointer {
            index: 2,
            size: 4,
            data_type: 0x1401,
            normalized: true,
            stride: 20,
            offset: 16,
        },
    ]
}

fn upload(batch: &DrawBatch) -> Vec<GlCall> {
    vec![
        GlCall::BindBuffer { target: 0x8892, buffer: 5 },
        GlCall::BufferData {
            target: 0x8892,
            data: encode_vertices(&batch.vertices),
            usage: 0x88E0,
        },
        GlCall::BindBuffer { target: 0x8893, buffer: 6 },
        GlCall::BufferData {
            target: 0x8893,
            data: encode_indices(&batch.indices),
            usage: 0x88E0,
        },
    ]
}

fn batch_a() -> DrawBatch {
    DrawBatch {
        vertices: vec![vertex(0.0, 0.0), vertex(10.0, 0.0), vertex(0.0, 10.0), vertex(10.0, 10.0)],
        indices: vec![0, 1, 2, 2, 1, 3],
        commands: vec![elements(3, 0, 7), elements(3, 3, 9)],
    }
}

fn batch_b() -> DrawBatch {
    DrawBatch {
        vertices: vec![vertex(5.0, 5.0), vertex(6.0, 5.0), vertex(5.0, 6.0)],
        indices: vec![2, 1, 0],
        commands: vec![elements(3, 0, 7)],
    }
}

#[test]
fn empty_frame_sets_state_and_nothing_else() {
    let plan = renderer().render(4, &frame(Vec::new())).unwrap();
    let mut expected = opening(4);
    expected.push(GlCall::DeleteVertexArray { vertex_array: 4 });
    assert_eq!(plan, expected);
}

#[test]
fn empty_frame_uploads_nothing_and_draws_nothing() {
    let plan = renderer().render(4, &frame(Vec::new())).unwrap();
    assert!(plan.iter().all(|call| !matches!(call, GlCall::BufferData { .. })));
    assert!(plan.iter().all(|call| !matches!(call, GlCall::DrawElements { .. })));
}

#[test]
fn batch_without_commands_is_uploaded_and_not_drawn() {
    let batch = DrawBatch { vertices: vec![vertex(1.0, 2.0)], indices: vec![0], commands: vec![] };
    let plan = renderer().render(4, &frame(vec![batch.clone()])).unwrap();
    let mut expected = opening(4);
    expected.extend(upload(&batch));
    expected.push(GlCall::DeleteVertexArray { vertex_array: 4 });
    assert_eq!(plan, expected);
}

#[test]
fn frame_of_two_batches_is_exact() {
    let plan = renderer().render(9, &frame(vec![batch_a(), batch_b()])).unwrap();
    let scissor = GlCall::Scissor { x: 10, y: 480, width: 100, height: 100 };
    let mut expected = opening(9);
    expected.extend(upload(&batch_a()));
    expected.push(GlCall::BindTexture { target: 0x0DE1, texture: 7 });
    expected.push(scissor.clone());
    expected.push(GlCall::DrawElements { mode: 4, count: 3, element_type: 0x1403, offset: 0 });
    expected.push(GlCall::BindTexture { target: 0x0DE1, texture: 9 });
    expected.push(scissor.clone());
    expected.push(GlCall::DrawElements { mode: 4, count: 3, element_type: 0x1403, offset: 6 });
    expected.extend(upload(&batch_b()));
    expected.push(GlCall::BindTexture { target: 0x0DE1, texture: 7 });
    expected.push(scissor);
    expected.push(GlCall::DrawElements { mode: 4, count: 3, element_type: 0x1403, offset: 0 });
    expected.push(GlCall::DeleteVertexArray { vertex_array: 9 });
    assert_eq!(plan, expected);
}

#[test]
fn upload_carries_exact_bytes() {
    let batch = DrawBatch {
        vertices: vec![Vertex { pos: [1, 2], uv: [3, 4], col: [5, 6, 7, 8] }],
        indices: vec![0x0a0b],
        commands: vec![],
    };
    let plan = renderer().render(4, &frame(vec![batch])).unwrap();
    let uploads: Vec<&GlCall> =
        plan.iter().filter(|call| matches!(call, GlCall::BufferData { .. })).collect();
    assert_eq!(
        uploads,
        vec![
            &GlCall::BufferData {
                target: gl::ARRAY_BUFFER,
                data: vec![1, 0, 0, 0, 2, 0, 0, 0, 3, 0, 0, 0, 4, 0, 0, 0, 5, 6, 7, 8],
                usage: gl::STREAM_DRAW,
            },
            &GlCall::BufferData {
                target: gl::ELEMENT_ARRAY_BUFFER,
                data: vec![0x0b, 0x0a],
                usage: gl::STREAM_DRAW,
            },
        ]
    );
}

/// Issues the calls against a model of the two binding points and the
/// buffer stores, and yields what each draw call reads.
fn data_read_by_draws(plan: &[GlCall]) -> Vec<(Vec<u8>, Vec<u8>)> {
    let mut array_binding = 0u32;
    let mut element_binding = 0u32;
    let mut stores: Vec<(u32, Vec<u8>)> = vec![(5, vec![0xaa; 64]), (6, vec![0xbb; 64])];
    let mut seen = Vec::new();
    for call in plan {
        match call {
            GlCall::BindBuffer { target, buffer } if *target == gl::ARRAY_BUFFER => {
                array_binding = *buffer;
            }
            GlCall::BindBuffer { target, buffer } if *target == gl::ELEMENT_ARRAY_BUFFER => {
                element_binding = *buffer;
            }
            GlCall::BufferData { target, data, .. } => {
                let bound =
                    if *target == gl::ARRAY_BUFFER { array_binding } else { element_binding };
                stores.retain(|(name, _)| *name != bound);
                stores.push((bound, data.clone()));
            }
            GlCall::DrawElements { .. } => {
                let read = |bound: u32| {
                    stores.iter().find(|(name, _)| *name == bound).unwrap().1.clone()
                };
                seen.push((read(array_binding), read(element_binding)));
            }
            _ => {}
        }
    }
    seen
}

#[test]
fn draws_read_the_streams_of_their_own_batch() {
    let (a, b) = (batch_a(), batch_b());
    let plan = renderer().render(4, &frame(vec![a.clone(), b.clone()])).unwrap();
    let of_a = (encode_vertices(&a.vertices), encode_indices(&a.indices));
    let of_b = (encode_vertices(&b.vertices), encode_indices(&b.indices));
    assert_eq!(data_read_by_draws(&plan), vec![of_a.clone(), of_a, of_b]);
}

#[test]
fn shorter_batch_leaves_nothing_of_the_longer_one() {
    let (a, b) = (batch_a(), batch_b());
    let plan = renderer().render(4, &frame(vec![a, b.clone()])).unwrap();
    let last = data_read_by_draws(&plan).pop().unwrap();
    assert_eq!(last.0.len(), 20 * b.vertices.len());
    assert_eq!(last.1.len(), 2 * b.indices.len());
}

#[test]
fn next_frame_replaces_the_uploads_of_the_last() {
    let (a, b) = (batch_a(), batch_b());
    let mut calls = renderer().render(4, &frame(vec![a])).unwrap();
    calls.extend(renderer().render(8, &frame(vec![b.clone()])).unwrap());
    let last = data_read_by_draws(&calls).pop().unwrap();
    assert_eq!(last, (encode_vertices(&b.vertices), encode_indices(&b.indices)));
}

#[test]
fn draw_offset_is_in_bytes() {
    let batch = DrawBatch {
        vertices: vec![],
        indices: vec![],
        commands: vec![elements(6, 3, 1), elements(0, u32::MAX, 1), elements(u32::MAX, 1, 1)],
    };
    let plan = renderer().render(4, &frame(vec![batch])).unwrap();
    let draws: Vec<&GlCall> =
        plan.iter().filter(|call| matches!(call, GlCall::DrawElements { .. })).collect();
    assert_eq!(
        draws,
        vec![
            &GlCall::DrawElements {
                mode: gl::TRIANGLES,
                count: 6,
                element_type: gl::UNSIGNED_SHORT,
                offset: 6,
            },
            &GlCall::DrawElements {
                mode: gl::TRIANGLES,
                count: 0,
                element_type: gl::UNSIGNED_SHORT,
                offset: 8_589_934_590,
            },
            &GlCall::DrawElements {
                mode: gl::TRIANGLES,
                count: u32::MAX,
                element_type: gl::UNSIGNED_SHORT,
                offset: 2,
            },
        ]
    );
}

#[test]
fn scissor_of_the_command_is_set_before_its_draw() {
    let command = DrawCommand::Elements {
        count: 3,
        scissor: rect(-1.75, 2.5, 30.0, 40.999),
        texture_id: TextureId { id: 1 },
        idx_offset: 0,
    };
    let batch = DrawBatch { vertices: vec![], indices: vec![0, 0, 0], commands: vec![command] };
    let plan = renderer().render(4, &frame(vec![batch])).unwrap();
    let n = plan.len();
    assert_eq!(plan[n - 4], GlCall::BindTexture { target: gl::TEXTURE_2D, texture: 1 });
    assert_eq!(plan[n - 3], GlCall::Scissor { x: -1, y: 2, width: 30, height: 40 });
    assert!(matches!(plan[n - 2], GlCall::DrawElements { .. }));
}

#[test]
fn reset_render_state_is_reported() {
    let batch = DrawBatch {
        vertices: vec![],
        indices: vec![],
        commands: vec![elements(3, 0, 1), DrawCommand::ResetRenderState],
    };
    assert_eq!(
        renderer().render(4, &frame(vec![batch])),
        Err(RenderError { batch: 0, command: 1, kind: Unsupported::ResetRenderState })
    );
}

#[test]
fn raw_callback_is_reported() {
    let fine = batch_a();
    let batch = DrawBatch { vertices: vec![], indices: vec![], commands: vec![DrawCommand::RawCallback] };
    assert_eq!(
        renderer().render(4, &frame(vec![fine, batch])),
        Err(RenderError { batch: 1, command: 0, kind: Unsupported::RawCallback })
    );
}

#[test]
fn first_unsupported_command_is_the_one_reported() {
    let first = DrawBatch {
        vertices: vec![],
        indices: vec![],
        commands: vec![
            elements(3, 0, 1),
            elements(3, 3, 1),
            DrawCommand::RawCallback,
            DrawCommand::ResetRenderState,
        ],
    };
    let second = DrawBatch {
        vertices: vec![],
        indices: vec![],
        commands: vec![DrawCommand::ResetRenderState],
    };
    assert_eq!(
        renderer().render(4, &frame(vec![batch_b(), first, second])),
        Err(RenderError { batch: 1, command: 2, kind: Unsupported::RawCallback })
    );
}

#[test]
fn texture_id_names_its_texture() {
    assert_eq!(TextureId::from_texture(7), TextureId { id: 7 });
    assert_eq!(TextureId::from_texture(7).texture(), 7);
    assert_eq!(TextureId::from_texture(u32::MAX).texture(), u32::MAX);
    assert_eq!(TextureId { id: 0 }.texture(), 0);
}

#[test]
fn texture_id_keeps_its_low_32_bits() {
    let wide = (0x0000_0012_0000_0005u64 & usize::MAX as u64) as usize;
    assert_eq!(TextureId { id: wide }.texture(), 5);
    assert_eq!(TextureId { id: usize::MAX }.texture(), u32::MAX);
}

#[test]
fn font_texture_id_binds_the_font_texture() {
    let id = renderer().font_texture_id();
    assert_eq!(id, TextureId { id: 7 });
    let batch = DrawBatch {
        vertices: vec![],
        indices: vec![],
        commands: vec![DrawCommand::Elements {
            count: 3,
            scissor: rect(0.0, 0.0, 1.0, 1.0),
            texture_id: id,
            idx_offset: 0,
        }],
    };
    let plan = renderer().render(4, &frame(vec![batch])).unwrap();
    assert!(plan.contains(&GlCall::BindTexture { target: gl::TEXTURE_2D, texture: 7 }));
}

#[test]
fn teardown_releases_buffers_program_and_texture() {
    assert_eq!(
        renderer().teardown(),
        vec![
            GlCall::DeleteBuffer { buffer: 5 },
            GlCall::DeleteBuffer { buffer: 6 },
            GlCall::DeleteProgram { program: 3 },
            GlCall::DeleteTexture { texture: 7 },
        ]
    );
}

/// The image of the UI point `(x, y)` under a matrix given column by column.
fn project(matrix: &[u32; 16], x: f32, y: f32) -> [f32; 4] {
    let m: Vec<f32> = matrix.iter().map(|bits| f32::from_bits(*bits)).collect();
    let point = [x, y, 0.0, 1.0];
    let mut image = [0.0f32; 4];
    for row in 0..4 {
        for column in 0..4 {
            image[row] += m[4 * column + row] * point[column];
        }
    }
    image
}

#[test]
fn projection_maps_the_display_onto_the_device_square() {
    let (width, height) = (800.0f32, 600.0f32);
    let matrix = projection((2.0 / width).to_bits(), (2.0 / -height).to_bits());
    assert_eq!(project(&matrix, 0.0, 0.0), [-1.0, 1.0, 0.0, 1.0]);
    assert_eq!(project(&matrix, 800.0, 600.0), [1.0, -1.0, 0.0, 1.0]);
    assert_eq!(project(&matrix, 400.0, 300.0), [0.0, 0.0, 0.0, 1.0]);
}

#[test]
fn projection_is_exact() {
    assert_eq!(X_SCALE, (2.0f32 / 800.0).to_bits());
    assert_eq!(Y_SCALE, (2.0f32 / -600.0).to_bits());
    assert_eq!(projection(X_SCALE, Y_SCALE), matrix());
    let entries: Vec<f32> = matrix().iter().map(|bits| f32::from_bits(*bits)).collect();
    assert_eq!(
        entries,
        vec![
            2.0 / 800.0, 0.0, 0.0, 0.0,
            0.0, 2.0 / -600.0, 0.0, 0.0,
            0.0, 0.0, -1.0, 0.0,
            -1.0, 1.0, 0.0, 1.0,
        ]
    );
}

#[test]
fn frame_hands_the_projection_to_the_program() {
    let plan = renderer().render(4, &frame(Vec::new())).unwrap();
    let uniforms: Vec<&GlCall> =
        plan.iter().filter(|call| matches!(call, GlCall::UniformMatrix4 { .. })).collect();
    assert_eq!(
        uniforms,
        vec![&GlCall::UniformMatrix4 { location: 12, transpose: false, matrix: matrix() }]
    );
}

#[test]
fn messages_name_the_command() {
    let reset = RenderError { batch: 0, command: 1, kind: Unsupported::ResetRenderState };
    let callback = RenderError { batch: 2, command: 0, kind: Unsupported::RawCallback };
    assert_eq!(reset.message(), "Resetting the render state is not supported");
    assert_eq!(callback.message(), "User callbacks are not supported");
}

/// The rectangle in framebuffer pixels for a clip rectangle in UI space,
/// computed as a frame is read.
fn scissor(clip_rect: [f32; 4], scale: [f32; 2], fb_height: f32) -> ScissorRect {
    let [x, y, z, w] = clip_rect;
    rect(x * scale[0], fb_height - w * scale[1], (z - x) * scale[0], (w - y) * scale[1])
}

fn scissor_calls(plan: &[GlCall]) -> Vec<GlCall> {
    plan.iter().filter(|call| matches!(call, GlCall::Scissor { .. })).cloned().collect()
}

#[test]
fn clip_rectangle_becomes_scissor_rectangle_from_the_lower_left() {
    let command = DrawCommand::Elements {
        count: 6,
        scissor: scissor([10.0, 20.0, 110.0, 120.0], [1.0, 1.0], 600.0),
        texture_id: TextureId { id: 7 },
        idx_offset: 0,
    };
    let batch = DrawBatch { vertices: vec![], indices: vec![0; 6], commands: vec![command] };
    let plan = renderer().render(4, &frame(vec![batch])).unwrap();
    assert_eq!(
        scissor_calls(&plan),
        vec![GlCall::Scissor { x: 10, y: 480, width: 100, height: 100 }]
    );
}

#[test]
fn scissor_rectangle_drops_fractions_of_pixels() {
    let command = DrawCommand::Elements {
        count: 6,
        scissor: scissor([10.25, 20.5, 110.75, 120.25], [1.5, 2.0], 1200.0),
        texture_id: TextureId { id: 7 },
        idx_offset: 0,
    };
    let batch = DrawBatch { vertices: vec![], indices: vec![0; 6], commands: vec![command] };
    let plan = renderer().render(4, &frame(vec![batch])).unwrap();
    assert_eq!(
        scissor_calls(&plan),
        vec![GlCall::Scissor { x: 15, y: 959, width: 150, height: 199 }]
    );
}

#[test]
fn viewport_is_the_framebuffer_in_whole_pixels() {
    let mut data = frame(Vec::new());
    data.framebuffer_width = (1066.6667f32 * 1.5).to_bits();
    data.framebuffer_height = (600.0f32 * 1.5).to_bits();
    let plan = renderer().render(4, &data).unwrap();
    assert!(plan.contains(&GlCall::Viewport { x: 0, y: 0, width: 1600, height: 900 }));
}
