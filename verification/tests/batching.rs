use liana::batch::{InstanceBatch, MAX_INSTANCES};
use liana::device::GlCall;
use liana::objects2d::{add_rect, quad_vertices, InstanceData, QuadVertex};
use liana::renderer::RenderState;
use liana::shader::LianaShader;
use liana::state::LianaState;

fn record(seed: f32) -> InstanceData {
    InstanceData {
        world_pos: [seed.to_bits(), (seed + 1.0).to_bits(), (seed + 2.0).to_bits()],
        color: [
            (seed + 3.0).to_bits(),
            (seed + 4.0).to_bits(),
            (seed + 5.0).to_bits(),
            (seed + 6.0).to_bits(),
        ],
        rect_size: [(seed + 7.0).to_bits(), (seed + 8.0).to_bits()],
        radii: [
            (seed + 9.0).to_bits(),
            (seed + 10.0).to_bits(),
            (seed + 11.0).to_bits(),
            (seed + 12.0).to_bits(),
        ],
    }
}

fn words_of(seed: f32) -> Vec<u32> {
    (0..13).map(|k| (seed + k as f32).to_bits()).collect()
}

fn renderer() -> RenderState {
    RenderState {
        vao: 11,
        vbo_quad: 12,
        vbo_instances: 13,
        rect_shader: LianaShader { program_id: 21, view_loc: 3, proj_loc: 4 },
        instances: InstanceBatch::new(),
    }
}

fn frame() -> LianaState {
    let mut state = LianaState::new();
    state.projection[0] = 0.25f32.to_bits();
    state.view[12] = 8.0f32.to_bits();
    state
}

fn expected_flush(state: &LianaState, count: usize, data: Vec<u32>) -> Vec<GlCall> {
    vec![
        GlCall::UseProgram { program: 21 },
        GlCall::UniformMatrix4fv { location: 3, matrix: state.view },
        GlCall::UniformMatrix4fv { location: 4, matrix: state.projection },
        GlCall::BindArrayBuffer { buffer: 13 },
        GlCall::BufferSubData { offset: 0, size: count * 52, data },
        GlCall::BindVertexArray { array: 11 },
        GlCall::DrawArraysInstanced { first: 0, count: 4, instances: count as i32 },
        GlCall::BindVertexArray { array: 0 },
    ]
}

#[test]
fn new_batch_is_empty() {
    let batch = InstanceBatch::new();
    assert!(batch.is_empty());
    assert_eq!(batch.len(), 0);
    assert_eq!(batch.capacity(), 10000);
    assert_eq!(MAX_INSTANCES, 10000);
    assert_eq!(batch.get(0), None);
    assert_eq!(batch.to_words(), Vec::<u32>::new());
}

#[test]
fn push_keeps_submission_order() {
    let mut batch = InstanceBatch::new();
    assert!(batch.push(record(100.0)));
    assert!(batch.push(record(200.0)));
    assert!(!batch.is_empty());
    assert_eq!(batch.len(), 2);
    assert_eq!(batch.get(0), Some(record(100.0)));
    assert_eq!(batch.get(1), Some(record(200.0)));
    assert_eq!(batch.get(2), None);
}

#[test]
fn push_beyond_capacity_is_dropped() {
    let mut batch = InstanceBatch::new();
    for i in 0..10000 {
        assert!(batch.push(record(i as f32)));
    }
    assert_eq!(batch.len(), 10000);
    for i in 0..7 {
        assert!(!batch.push(record(50000.0 + i as f32)));
        assert_eq!(batch.len(), 10000);
    }
    assert_eq!(batch.get(0), Some(record(0.0)));
    assert_eq!(batch.get(4321), Some(record(4321.0)));
    assert_eq!(batch.get(9999), Some(record(9999.0)));
    assert_eq!(batch.get(10000), None);
}

#[test]
fn clear_empties_a_full_batch() {
    let mut batch = InstanceBatch::new();
    for i in 0..10000 {
        batch.push(record(i as f32));
    }
    batch.clear();
    assert!(batch.is_empty());
    assert_eq!(batch.len(), 0);
    assert!(batch.push(record(1.0)));
    assert_eq!(batch.get(0), Some(record(1.0)));
    assert_eq!(batch.len(), 1);
}

#[test]
fn record_words_follow_field_order() {
    let r = InstanceData {
        world_pos: [1.5f32.to_bits(), 2.5f32.to_bits(), 0.0f32.to_bits()],
        color: [1.0f32.to_bits(), 0.5f32.to_bits(), 0.25f32.to_bits(), 0.75f32.to_bits()],
        rect_size: [640.0f32.to_bits(), 480.0f32.to_bits()],
        radii: [4.0f32.to_bits(), 8.0f32.to_bits(), 16.0f32.to_bits(), 32.0f32.to_bits()],
    };
    let words = r.to_words();
    let numbers: Vec<f32> = words.iter().map(|w| f32::from_bits(*w)).collect();
    assert_eq!(
        numbers,
        vec![1.5, 2.5, 0.0, 1.0, 0.5, 0.25, 0.75, 640.0, 480.0, 4.0, 8.0, 16.0, 32.0]
    );
    assert_eq!(words.len() * 4, 52);
}

#[test]
fn batch_words_hold_each_record_at_its_instance() {
    let mut batch = InstanceBatch::new();
    batch.push(record(100.0));
    batch.push(record(200.0));
    batch.push(record(300.0));
    let words = batch.to_words();
    assert_eq!(words.len(), 39);
    assert_eq!(&words[0..13], &words_of(100.0)[..]);
    assert_eq!(&words[13..26], &words_of(200.0)[..]);
    assert_eq!(&words[26..39], &words_of(300.0)[..]);
}

#[test]
fn unit_quad_is_a_triangle_strip() {
    let zero = 0.0f32.to_bits();
    let one = 1.0f32.to_bits();
    assert_eq!(
        quad_vertices(),
        [
            QuadVertex { local_pos: [zero, zero] },
            QuadVertex { local_pos: [one, zero] },
            QuadVertex { local_pos: [zero, one] },
            QuadVertex { local_pos: [one, one] },
        ]
    );
}

#[test]
fn add_rect_fills_the_record() {
    let mut state = renderer();
    add_rect(
        &mut state,
        10.0f32.to_bits(),
        20.0f32.to_bits(),
        0.5f32.to_bits(),
        300.0f32.to_bits(),
        150.0f32.to_bits(),
        0.1f32.to_bits(),
        0.2f32.to_bits(),
        0.3f32.to_bits(),
        0.4f32.to_bits(),
        1.0f32.to_bits(),
        2.0f32.to_bits(),
        3.0f32.to_bits(),
        4.0f32.to_bits(),
    );
    assert_eq!(state.instances.len(), 1);
    assert_eq!(
        state.instances.get(0),
        Some(InstanceData {
            world_pos: [10.0f32.to_bits(), 20.0f32.to_bits(), 0.5f32.to_bits()],
            color: [0.1f32.to_bits(), 0.2f32.to_bits(), 0.3f32.to_bits(), 0.4f32.to_bits()],
            rect_size: [300.0f32.to_bits(), 150.0f32.to_bits()],
            radii: [1.0f32.to_bits(), 2.0f32.to_bits(), 3.0f32.to_bits(), 4.0f32.to_bits()],
        })
    );
    assert_eq!((state.vao, state.vbo_quad, state.vbo_instances), (11, 12, 13));
}

#[test]
fn add_rect_beyond_capacity_is_ignored() {
    let mut state = renderer();
    for i in 0..10003 {
        let v = (i as f32).to_bits();
        add_rect(&mut state, v, v, v, v, v, v, v, v, v, v, v, v, v);
    }
    assert_eq!(state.instances.len(), 10000);
    let last = 9999.0f32.to_bits();
    assert_eq!(state.instances.get(9999).unwrap().world_pos, [last, last, last]);
}

#[test]
fn flush_of_empty_batch_asks_for_nothing() {
    let mut state = renderer();
    let calls = state.flush(&frame());
    assert_eq!(calls, Vec::<GlCall>::new());
    assert_eq!(state.instances.len(), 0);
    assert!(state.instances.is_empty());
}

#[test]
fn flush_draws_two_rectangles_in_submission_order() {
    let mut state = renderer();
    state.submit(record(100.0));
    state.submit(record(200.0));
    let calls = state.flush(&frame());
    let mut data = words_of(100.0);
    data.extend(words_of(200.0));
    assert_eq!(calls, expected_flush(&frame(), 2, data));
}

#[test]
fn flush_issues_exactly_one_draw_call() {
    for n in [1usize, 2, 17, 500] {
        let mut state = renderer();
        for i in 0..n {
            state.submit(record(i as f32));
        }
        let calls = state.flush(&frame());
        let draws: Vec<&GlCall> = calls
            .iter()
            .filter(|call| matches!(call, GlCall::DrawArraysInstanced { .. }))
            .collect();
        assert_eq!(
            draws,
            vec![&GlCall::DrawArraysInstanced { first: 0, count: 4, instances: n as i32 }]
        );
        let uploads: Vec<&GlCall> =
            calls.iter().filter(|call| matches!(call, GlCall::BufferSubData { .. })).collect();
        assert_eq!(uploads.len(), 1);
        match uploads[0] {
            GlCall::BufferSubData { offset, size, data } => {
                assert_eq!(*offset, 0);
                assert_eq!(*size, n * 52);
                assert_eq!(data.len(), n * 13);
                for i in 0..n {
                    assert_eq!(&data[13 * i..13 * i + 13], &words_of(i as f32)[..]);
                }
            }
            _ => unreachable!(),
        }
    }
}

#[test]
fn flush_of_overfull_submission_draws_capacity() {
    let mut state = renderer();
    for i in 0..10250 {
        state.submit(record(i as f32));
    }
    let calls = state.flush(&frame());
    assert_eq!(calls.len(), 8);
    assert_eq!(calls[6], GlCall::DrawArraysInstanced { first: 0, count: 4, instances: 10000 });
    match &calls[4] {
        GlCall::BufferSubData { offset, size, data } => {
            assert_eq!(*offset, 0);
            assert_eq!(*size, 520000);
            assert_eq!(data.len(), 130000);
            assert_eq!(&data[0..13], &words_of(0.0)[..]);
            assert_eq!(&data[129987..130000], &words_of(9999.0)[..]);
        }
        other => panic!("unexpected call {:?}", other),
    }
}

#[test]
fn flush_empties_the_batch_for_the_next_frame() {
    let mut state = renderer();
    state.submit(record(100.0));
    state.submit(record(200.0));
    state.submit(record(300.0));
    let first = state.flush(&frame());
    assert_eq!(first.len(), 8);
    assert_eq!(state.instances.len(), 0);
    assert_eq!(state.flush(&frame()), Vec::<GlCall>::new());
    state.submit(record(400.0));
    assert_eq!(state.instances.len(), 1);
    let second = state.flush(&frame());
    assert_eq!(second, expected_flush(&frame(), 1, words_of(400.0)));
    assert_eq!(state.instances.len(), 0);
}

#[test]
fn flush_keeps_the_device_objects() {
    let mut state = renderer();
    state.submit(record(1.0));
    state.flush(&frame());
    assert_eq!(state.vao, 11);
    assert_eq!(state.vbo_quad, 12);
    assert_eq!(state.vbo_instances, 13);
    assert_eq!(state.rect_shader, LianaShader { program_id: 21, view_loc: 3, proj_loc: 4 });
}

#[test]
fn flush_passes_absent_uniform_locations_on() {
    let mut state = renderer();
    state.rect_shader = LianaShader { program_id: 21, view_loc: -1, proj_loc: -1 };
    state.submit(record(1.0));
    let calls = state.flush(&frame());
    assert_eq!(calls[1], GlCall::UniformMatrix4fv { location: -1, matrix: frame().view });
    assert_eq!(calls[2], GlCall::UniformMatrix4fv { location: -1, matrix: frame().projection });
}
