use liana::batch::InstanceBatch;
use liana::device::{BlendFactor, BufferUsage, Capability, GlCall, GlReply, ShaderStage};
use liana::lifecycle::{init, render, setViewport, CLEAR_LEVEL_BITS};
use liana::objects2d::{
    InstanceData, BYTES_PER_WORD, INSTANCE_STRIDE, ONE_BITS, VERTEX_STRIDE, WORDS_PER_INSTANCE,
    WORDS_PER_VERTEX, ZERO_BITS,
};
use liana::renderer::{
    configure, instance_attributes, quad_buffer, RenderSetup, RenderState, VertexAttribute,
    FRAGMENT_SHADER_SOURCE, INSTANCE_BUFFER_SIZE, QUAD_BUFFER_SIZE, VERTEX_SHADER_SOURCE,
};
use liana::shader::{LianaShader, ShaderError};
use liana::state::{identity, LianaState};

fn numbers(words: &[u32]) -> Vec<f32> {
    words.iter().map(|w| f32::from_bits(*w)).collect()
}

fn built() -> RenderSetup {
    let (setup, _) = RenderState::new();
    let (setup, _) = setup.step(GlReply::Name(1));
    let (setup, _) = setup.step(GlReply::Int(1));
    let (setup, _) = setup.step(GlReply::Name(2));
    let (setup, _) = setup.step(GlReply::Int(1));
    let (setup, _) = setup.step(GlReply::Name(3));
    let (setup, _) = setup.step(GlReply::Int(1));
    let (setup, _) = setup.step(GlReply::Int(5));
    setup
}

fn expected_setup(vao: u32, vbo_quad: u32, vbo_instances: u32) -> Vec<GlCall> {
    let zero = 0.0f32.to_bits();
    let one = 1.0f32.to_bits();
    vec![
        GlCall::BindVertexArray { array: vao },
        GlCall::BindArrayBuffer { buffer: vbo_quad },
        GlCall::BufferData {
            size: 32,
            initial: Some(vec![zero, zero, one, zero, zero, one, one, one]),
            usage: BufferUsage::StaticDraw,
        },
        GlCall::EnableVertexAttribArray { index: 0 },
        GlCall::VertexAttribPointer { index: 0, components: 2, stride: 8, offset: 0 },
        GlCall::BindArrayBuffer { buffer: vbo_instances },
        GlCall::BufferData { size: 520000, initial: None, usage: BufferUsage::DynamicDraw },
        GlCall::EnableVertexAttribArray { index: 1 },
        GlCall::VertexAttribPointer { index: 1, components: 3, stride: 52, offset: 0 },
        GlCall::EnableVertexAttribArray { index: 2 },
        GlCall::VertexAttribPointer { index: 2, components: 4, stride: 52, offset: 12 },
        GlCall::EnableVertexAttribArray { index: 3 },
        GlCall::VertexAttribPointer { index: 3, components: 2, stride: 52, offset: 28 },
        GlCall::EnableVertexAttribArray { index: 4 },
        GlCall::VertexAttribPointer { index: 4, components: 4, stride: 52, offset: 36 },
        GlCall::VertexAttribDivisor { index: 1, divisor: 1 },
        GlCall::VertexAttribDivisor { index: 2, divisor: 1 },
        GlCall::VertexAttribDivisor { index: 3, divisor: 1 },
        GlCall::VertexAttribDivisor { index: 4, divisor: 1 },
        GlCall::BindVertexArray { array: 0 },
    ]
}

#[test]
fn bit_patterns_are_those_of_the_numbers() {
    assert_eq!(ZERO_BITS, 0.0f32.to_bits());
    assert_eq!(ONE_BITS, 1.0f32.to_bits());
    assert_eq!(CLEAR_LEVEL_BITS, 0.1f32.to_bits());
}

#[test]
fn layout_constants_agree() {
    assert_eq!(BYTES_PER_WORD, 4);
    assert_eq!(WORDS_PER_INSTANCE, 13);
    assert_eq!(INSTANCE_STRIDE, 52);
    assert_eq!(WORDS_PER_VERTEX, 2);
    assert_eq!(VERTEX_STRIDE, 8);
    assert_eq!(QUAD_BUFFER_SIZE, 32);
    assert_eq!(INSTANCE_BUFFER_SIZE, 520000);
    assert_eq!(INSTANCE_STRIDE, std::mem::size_of::<InstanceData>());
    assert_eq!(INSTANCE_STRIDE, std::mem::size_of::<[f32; 13]>());
}

#[test]
fn instance_attributes_tile_the_record() {
    assert_eq!(
        instance_attributes(),
        vec![
            VertexAttribute { index: 1, components: 3, offset: 0 },
            VertexAttribute { index: 2, components: 4, offset: 12 },
            VertexAttribute { index: 3, components: 2, offset: 28 },
            VertexAttribute { index: 4, components: 4, offset: 36 },
        ]
    );
    let r = InstanceData {
        world_pos: [1, 2, 3],
        color: [4, 5, 6, 7],
        rect_size: [8, 9],
        radii: [10, 11, 12, 13],
    };
    let words = r.to_words();
    let read = |a: &VertexAttribute| {
        words[a.offset / 4..a.offset / 4 + a.components as usize].to_vec()
    };
    let attributes = instance_attributes();
    assert_eq!(read(&attributes[0]), r.world_pos.to_vec());
    assert_eq!(read(&attributes[1]), r.color.to_vec());
    assert_eq!(read(&attributes[2]), r.rect_size.to_vec());
    assert_eq!(read(&attributes[3]), r.radii.to_vec());
}

#[test]
fn quad_buffer_holds_the_four_corners() {
    assert_eq!(numbers(&quad_buffer()), vec![0.0, 0.0, 1.0, 0.0, 0.0, 1.0, 1.0, 1.0]);
}

#[test]
fn configure_lists_the_setup_calls() {
    assert_eq!(configure(7, 8, 9), expected_setup(7, 8, 9));
}

#[test]
fn setup_begins_with_the_vertex_stage() {
    let (setup, calls) = RenderState::new();
    assert!(matches!(setup, RenderSetup::Shader { .. }));
    assert_eq!(calls, vec![GlCall::CreateShader { stage: ShaderStage::Vertex }]);
    let (_, calls) = setup.step(GlReply::Name(1));
    assert_eq!(
        calls[0],
        GlCall::ShaderSource { shader: 1, source: VERTEX_SHADER_SOURCE.to_string() }
    );
}

#[test]
fn setup_compiles_the_embedded_fragment_stage() {
    let (setup, _) = RenderState::new();
    let (setup, _) = setup.step(GlReply::Name(1));
    let (setup, _) = setup.step(GlReply::Int(1));
    let (_, calls) = setup.step(GlReply::Name(2));
    assert_eq!(
        calls[0],
        GlCall::ShaderSource { shader: 2, source: FRAGMENT_SHADER_SOURCE.to_string() }
    );
}

#[test]
fn embedded_sources_declare_the_attributes() {
    assert!(VERTEX_SHADER_SOURCE.contains("layout (location = 0) in vec2 aLocalPos;"));
    assert!(VERTEX_SHADER_SOURCE.contains("layout (location = 1) in vec3 aWorldPos;"));
    assert!(VERTEX_SHADER_SOURCE.contains("layout (location = 2) in vec4 aColor;"));
    assert!(VERTEX_SHADER_SOURCE.contains("layout (location = 3) in vec2 aRectSize;"));
    assert!(VERTEX_SHADER_SOURCE.contains("layout (location = 4) in vec4 aRadii;"));
    assert!(VERTEX_SHADER_SOURCE.contains("uniform mat4 view;"));
    assert!(VERTEX_SHADER_SOURCE.contains("uniform mat4 projection;"));
    assert!(FRAGMENT_SHADER_SOURCE.contains("vec4 clampedRadii = min(vRadii, vec4(minHalfDim));"));
    assert!(FRAGMENT_SHADER_SOURCE.contains("float alpha = 1.0 - smoothstep(0.0, 2.0, dist);"));
    assert!(FRAGMENT_SHADER_SOURCE.contains("if (alpha < 0.01) {"));
}

#[test]
fn setup_names_the_objects_and_configures_them() {
    let (setup, calls) = built().step(GlReply::Int(6));
    match &setup {
        RenderSetup::AwaitingVertexArray { rect_shader } => {
            assert_eq!(*rect_shader, LianaShader { program_id: 3, view_loc: 5, proj_loc: 6 });
        }
        other => panic!("unexpected state {:?}", other),
    }
    assert_eq!(calls, vec![GlCall::GenVertexArray]);
    let (setup, calls) = setup.step(GlReply::Name(10));
    assert!(matches!(setup, RenderSetup::AwaitingQuadBuffer { vao: 10, .. }));
    assert_eq!(calls, vec![GlCall::GenBuffer]);
    let (setup, calls) = setup.step(GlReply::Name(11));
    assert!(matches!(setup, RenderSetup::AwaitingInstanceBuffer { vao: 10, vbo_quad: 11, .. }));
    assert_eq!(calls, vec![GlCall::GenBuffer]);
    let (setup, calls) = setup.step(GlReply::Name(12));
    assert_eq!(calls, expected_setup(10, 11, 12));
    match setup {
        RenderSetup::Ready { state } => {
            assert_eq!(state.vao, 10);
            assert_eq!(state.vbo_quad, 11);
            assert_eq!(state.vbo_instances, 12);
            assert_eq!(state.rect_shader, LianaShader { program_id: 3, view_loc: 5, proj_loc: 6 });
            assert!(state.instances.is_empty());
        }
        other => panic!("unexpected state {:?}", other),
    }
}

#[test]
fn setup_fails_when_the_program_does_not_build() {
    let (setup, _) = RenderState::new();
    let (setup, _) = setup.step(GlReply::Name(1));
    let (setup, _) = setup.step(GlReply::Int(0));
    let (setup, _) = setup.step(GlReply::Int(9));
    let (setup, calls) = setup.step(GlReply::Bytes(b"no GLSL!".to_vec()));
    assert_eq!(calls, Vec::<GlCall>::new());
    match &setup {
        RenderSetup::InitFailed { error } => {
            assert_eq!(*error, ShaderError::CompileFailed { log: "no GLSL!".to_string() });
        }
        other => panic!("unexpected state {:?}", other),
    }
    let (setup, calls) = setup.step(GlReply::Name(4));
    assert!(matches!(setup, RenderSetup::InitFailed { .. }));
    assert_eq!(calls, Vec::<GlCall>::new());
}

#[test]
fn setup_fails_when_the_program_does_not_link() {
    let (setup, _) = RenderState::new();
    let (setup, _) = setup.step(GlReply::Name(1));
    let (setup, _) = setup.step(GlReply::Int(1));
    let (setup, _) = setup.step(GlReply::Name(2));
    let (setup, _) = setup.step(GlReply::Int(1));
    let (setup, _) = setup.step(GlReply::Name(3));
    let (setup, _) = setup.step(GlReply::Int(0));
    let (setup, _) = setup.step(GlReply::Int(5));
    let (setup, _) = setup.step(GlReply::Bytes(b"link".to_vec()));
    match setup {
        RenderSetup::InitFailed { error } => {
            assert_eq!(error, ShaderError::LinkFailed { log: "link".to_string() });
        }
        other => panic!("unexpected state {:?}", other),
    }
}

#[test]
fn ready_setup_ignores_every_answer() {
    let (setup, _) = built().step(GlReply::Int(6));
    let (setup, _) = setup.step(GlReply::Name(10));
    let (setup, _) = setup.step(GlReply::Name(11));
    let (setup, _) = setup.step(GlReply::Name(12));
    let (setup, calls) = setup.step(GlReply::Name(13));
    assert_eq!(calls, Vec::<GlCall>::new());
    assert!(matches!(setup, RenderSetup::Ready { state: RenderState { vbo_instances: 12, .. } }));
}

#[test]
fn setup_ignores_answers_it_does_not_await() {
    let (setup, _) = built().step(GlReply::Int(6));
    let (setup, calls) = setup.step(GlReply::Int(10));
    assert!(matches!(setup, RenderSetup::AwaitingVertexArray { .. }));
    assert_eq!(calls, Vec::<GlCall>::new());
}

#[test]
fn new_frame_state_is_the_identity() {
    let state = LianaState::new();
    let expected = vec![
        1.0, 0.0, 0.0, 0.0, 0.0, 1.0, 0.0, 0.0, 0.0, 0.0, 1.0, 0.0, 0.0, 0.0, 0.0, 1.0,
    ];
    assert_eq!(numbers(&state.view), expected);
    assert_eq!(numbers(&state.projection), expected);
    assert_eq!(numbers(&identity()), expected);
}

#[test]
fn init_enables_depth_and_blending() {
    let (state, calls) = init();
    assert_eq!(state, LianaState::new());
    assert_eq!(
        calls,
        vec![
            GlCall::Enable { capability: Capability::DepthTest },
            GlCall::Enable { capability: Capability::Blend },
            GlCall::BlendFunc {
                incoming: BlendFactor::SrcAlpha,
                stored: BlendFactor::OneMinusSrcAlpha
            },
        ]
    );
}

#[test]
fn render_clears_then_draws_the_batch() {
    let mut render_state = RenderState {
        vao: 1,
        vbo_quad: 2,
        vbo_instances: 3,
        rect_shader: LianaShader { program_id: 4, view_loc: 5, proj_loc: 6 },
        instances: InstanceBatch::new(),
    };
    let record = InstanceData {
        world_pos: [1, 2, 3],
        color: [4, 5, 6, 7],
        rect_size: [8, 9],
        radii: [10, 11, 12, 13],
    };
    render_state.submit(record);
    let mut liana_state = LianaState::new();
    liana_state.view[3] = 99;
    let mut projection = identity();
    projection[0] = (2.0f32 / 800.0).to_bits();
    projection[5] = (-2.0f32 / 600.0).to_bits();
    let calls = render(&mut render_state, &mut liana_state, projection);
    let grey = 0.1f32.to_bits();
    assert_eq!(
        calls,
        vec![
            GlCall::ClearColor { red: grey, green: grey, blue: grey, alpha: 1.0f32.to_bits() },
            GlCall::Clear { color: true, depth: true },
            GlCall::UseProgram { program: 4 },
            GlCall::UniformMatrix4fv { location: 5, matrix: identity() },
            GlCall::UniformMatrix4fv { location: 6, matrix: projection },
            GlCall::BindArrayBuffer { buffer: 3 },
            GlCall::BufferSubData {
                offset: 0,
                size: 52,
                data: vec![1, 2, 3, 4, 5, 6, 7, 8, 9, 10, 11, 12, 13]
            },
            GlCall::BindVertexArray { array: 1 },
            GlCall::DrawArraysInstanced { first: 0, count: 4, instances: 1 },
            GlCall::BindVertexArray { array: 0 },
        ]
    );
    assert_eq!(liana_state.view, identity());
    assert_eq!(liana_state.projection, projection);
    assert!(render_state.instances.is_empty());
}

#[test]
fn render_of_empty_batch_only_clears() {
    let mut render_state = RenderState {
        vao: 1,
        vbo_quad: 2,
        vbo_instances: 3,
        rect_shader: LianaShader { program_id: 4, view_loc: 5, proj_loc: 6 },
        instances: InstanceBatch::new(),
    };
    let mut liana_state = LianaState::new();
    let calls = render(&mut render_state, &mut liana_state, identity());
    let grey = 0.1f32.to_bits();
    assert_eq!(
        calls,
        vec![
            GlCall::ClearColor { red: grey, green: grey, blue: grey, alpha: 1.0f32.to_bits() },
            GlCall::Clear { color: true, depth: true },
        ]
    );
    assert_eq!(render_state.instances.len(), 0);
}

#[test]
fn set_viewport_covers_the_surface() {
    assert_eq!(setViewport(800, 600), GlCall::Viewport { x: 0, y: 0, width: 800, height: 600 });
    assert_eq!(setViewport(0, -1), GlCall::Viewport { x: 0, y: 0, width: 0, height: -1 });
}

fn answers(call: &GlCall) -> bool {
    matches!(
        call,
        GlCall::CreateShader { .. }
            | GlCall::GetShaderiv { .. }
            | GlCall::GetShaderInfoLog { .. }
            | GlCall::CreateProgram
            | GlCall::GetProgramiv { .. }
            | GlCall::GetProgramInfoLog { .. }
            | GlCall::GetUniformLocation { .. }
            | GlCall::GenVertexArray
            | GlCall::GenBuffer
    )
}

#[test]
fn only_the_last_call_of_a_run_answers() {
    let replies = [
        GlReply::Name(1),
        GlReply::Int(1),
        GlReply::Name(2),
        GlReply::Int(1),
        GlReply::Name(3),
        GlReply::Int(1),
        GlReply::Int(5),
        GlReply::Int(6),
        GlReply::Name(10),
        GlReply::Name(11),
    ];
    let (mut setup, mut calls) = RenderState::new();
    for reply in replies {
        assert!(!calls.is_empty());
        let (last, before) = calls.split_last().unwrap();
        assert!(answers(last));
        assert!(before.iter().all(|call| !answers(call)));
        (setup, calls) = setup.step(reply);
    }
    assert!(matches!(setup, RenderSetup::AwaitingInstanceBuffer { .. }));
    let (setup, calls) = setup.step(GlReply::Name(12));
    assert!(matches!(setup, RenderSetup::Ready { .. }));
    assert_eq!(calls.len(), 20);
    assert!(calls.iter().all(|call| !answers(call)));
}
