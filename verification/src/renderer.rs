//! The renderer: its device objects, its batch, and the calls of a frame.

use crate::batch::{
    capped, lemma_packed_words_of_instance, lemma_submitted_keeps_first, packed_words, pushed,
    submitted, InstanceBatch, MAX_INSTANCES,
};
use crate::device::{
    asks_last, asks_nothing, call_views, lemma_call_views_push, BufferUsage, GlCall, GlCallView,
    GlReply, GlReplyView,
};
use crate::objects2d::{
    quad_vertices, unit_quad, InstanceData, BYTES_PER_WORD, INSTANCE_STRIDE, VERTEX_STRIDE,
    ONE_BITS, WORDS_PER_INSTANCE, WORDS_PER_VERTEX, ZERO_BITS,
};
use crate::shader::{
    build_start, build_step, lemma_build_asks_last, LianaShader, ShaderBuild, ShaderBuildView,
    ShaderError, ShaderErrorView,
};
use crate::state::LianaState;
use vstd::prelude::*;

verus! {

/// Source of the vertex stage: places each corner of the unit quad inside its
/// rectangle and passes the rectangle's colour, size and radii on.
pub const VERTEX_SHADER_SOURCE: &'static str = r#"
            #version 330 core
            layout (location = 0) in vec2 aLocalPos;
            layout (location = 1) in vec3 aWorldPos;
            layout (location = 2) in vec4 aColor;
            layout (location = 3) in vec2 aRectSize;
            layout (location = 4) in vec4 aRadii;

            out vec4 vColor;
            out vec2 vLocalPos;
            out vec2 vRectSize;
            out vec4 vRadii;

            uniform mat4 view;
            uniform mat4 projection;

            void main() {
                vec2 finalPos = aWorldPos.xy + aLocalPos * aRectSize;
                gl_Position = projection * view * vec4(finalPos, aWorldPos.z, 1.0);
                vColor = aColor;
                vRectSize = aRectSize;
                vLocalPos = aLocalPos * aRectSize;
                vRadii = aRadii;
            }
        "#;

/// Source of the fragment stage: the signed distance to a box with rounded
/// corners, each radius clamped to half the smaller side, turned into
/// coverage over a band of two units; fragments under one hundredth of
/// coverage are discarded.
pub const FRAGMENT_SHADER_SOURCE: &'static str = r#"
            #version 330 core
            out vec4 FragColor;

            in vec4 vColor;
            in vec2 vLocalPos;
            in vec2 vRectSize;
            in vec4 vRadii;

            float sdRoundedBox(in vec2 p, in vec2 b, in vec4 r) {
                r.xy = (p.x > 0.0) ? r.xy : r.wz;
                r.x = (p.y > 0.0) ? r.x : r.y;
                vec2 q = abs(p) - b + r.x;
                return min(max(q.x, q.y), 0.0) + length(max(q, 0.0)) - r.x;
            }

            void main() {
                vec2 halfSize = vRectSize * 0.5;
                vec2 p = vLocalPos - halfSize;

                float minHalfDim = min(halfSize.x, halfSize.y);
                vec4 clampedRadii = min(vRadii, vec4(minHalfDim));

                float dist = sdRoundedBox(p, halfSize, clampedRadii);
                float alpha = 1.0 - smoothstep(0.0, 2.0, dist);

                if (alpha < 0.01) {
                    discard;
                }
                FragColor = vec4(vColor.rgb, vColor.a * alpha);
            }
        "#;

/// Vertices in the strip that every rectangle is drawn from.
pub const QUAD_VERTEX_COUNT: i32 = 4;

/// Attribute location of a quad corner's position.
pub const LOCAL_POS_LOCATION: u32 = 0;

/// Bytes set aside on the device for the instance buffer.
pub const INSTANCE_BUFFER_SIZE: usize = 520000;

/// Bytes of the quad's vertex buffer.
pub const QUAD_BUFFER_SIZE: usize = 32;

/// Where a vertex attribute finds its components in each record of a buffer.
#[derive(Clone, Copy, Debug, PartialEq, Eq)]
pub struct VertexAttribute {
    /// Location of the attribute in the vertex stage.
    pub index: u32,
    /// How many words the attribute reads.
    pub components: i32,
    /// Byte at which the attribute starts within a record.
    pub offset: usize,
}

/// The renderer's device objects and the rectangles waiting to be drawn.
#[derive(Debug)]
pub struct RenderState {
    pub vao: u32,
    pub vbo_quad: u32,
    pub vbo_instances: u32,
    pub rect_shader: LianaShader,
    pub instances: InstanceBatch,
}

/// A [`RenderState`] as a mathematical value.
pub struct RenderStateView {
    pub vao: u32,
    pub vbo_quad: u32,
    pub vbo_instances: u32,
    pub rect_shader: LianaShader,
    pub instances: Seq<InstanceData>,
}

impl View for RenderState {
    type V = RenderStateView;

    open spec fn view(&self) -> RenderStateView {
        RenderStateView {
            vao: self.vao,
            vbo_quad: self.vbo_quad,
            vbo_instances: self.vbo_instances,
            rect_shader: self.rect_shader,
            instances: self.instances@,
        }
    }
}

/// The per-instance attributes of a rectangle: position, colour, size and
/// radii at locations 1 to 4, one after the other in the record.
pub open spec fn instance_layout() -> Seq<VertexAttribute> {
    seq![
        VertexAttribute { index: 1, components: 3, offset: 0 },
        VertexAttribute { index: 2, components: 4, offset: 12 },
        VertexAttribute { index: 3, components: 2, offset: 28 },
        VertexAttribute { index: 4, components: 4, offset: 36 },
    ]
}

/// The words that `attribute` reads from a record made of `words`.
pub open spec fn attribute_words(attribute: VertexAttribute, words: Seq<u32>) -> Seq<u32> {
    let first = attribute.offset as int / 4;
    words.subrange(first, first + attribute.components)
}

/// The words of the quad's vertex buffer: corner `i` occupies words `2 * i`
/// and `2 * i + 1`.
pub open spec fn quad_words() -> Seq<u32> {
    Seq::new(8, |k: int| unit_quad()[k / 2].words()[k % 2])
}

/// The calls that enable each of `attributes` in turn and point it into the
/// bound buffer, whose records are `stride` bytes apart.
pub open spec fn pointer_calls(attributes: Seq<VertexAttribute>, stride: i32) -> Seq<GlCallView> {
    Seq::new(
        2 * attributes.len(),
        |k: int|
            if k % 2 == 0 {
                GlCallView::EnableVertexAttribArray { index: attributes[k / 2].index }
            } else {
                GlCallView::VertexAttribPointer {
                    index: attributes[k / 2].index,
                    components: attributes[k / 2].components,
                    stride,
                    offset: attributes[k / 2].offset,
                }
            },
    )
}

/// The calls that make each of `attributes` advance once per instance.
pub open spec fn divisor_calls(attributes: Seq<VertexAttribute>) -> Seq<GlCallView> {
    Seq::new(
        attributes.len(),
        |k: int| GlCallView::VertexAttribDivisor { index: attributes[k].index, divisor: 1 },
    )
}

/// The calls that fill the quad's buffer, reserve the instance buffer and
/// record under `vao` which attribute reads what: location 0 reads a corner
/// of the quad and advances per vertex; the attributes of
/// [`instance_layout`] read the instance buffer and advance per instance.
pub open spec fn setup_calls(vao: u32, vbo_quad: u32, vbo_instances: u32) -> Seq<GlCallView> {
    seq![
        GlCallView::BindVertexArray { array: vao },
        GlCallView::BindArrayBuffer { buffer: vbo_quad },
        GlCallView::BufferData {
            size: QUAD_BUFFER_SIZE,
            initial: Some(quad_words()),
            usage: BufferUsage::StaticDraw,
        },
        GlCallView::EnableVertexAttribArray { index: LOCAL_POS_LOCATION },
        GlCallView::VertexAttribPointer {
            index: LOCAL_POS_LOCATION,
            components: 2,
            stride: 8,
            offset: 0,
        },
        GlCallView::BindArrayBuffer { buffer: vbo_instances },
        GlCallView::BufferData {
            size: INSTANCE_BUFFER_SIZE,
            initial: None,
            usage: BufferUsage::DynamicDraw,
        },
    ] + pointer_calls(instance_layout(), 52) + divisor_calls(instance_layout())
        + seq![GlCallView::BindVertexArray { array: 0 }]
}

/// Whether `call` is a draw call.
pub open spec fn is_draw(call: GlCallView) -> bool {
    call is DrawArraysInstanced
}

/// The attributes of [`instance_layout`] cover a record without gap or
/// overlap, and the instance buffer has room for a full batch of records.
pub proof fn lemma_instance_layout_tiles_record()
    ensures
        instance_layout()[0].offset == 0,
        forall|j: int|
            0 <= j < 3 ==> (#[trigger] instance_layout()[j]).offset + BYTES_PER_WORD
                * instance_layout()[j].components == instance_layout()[j + 1].offset,
        instance_layout()[3].offset + BYTES_PER_WORD * instance_layout()[3].components
            == INSTANCE_STRIDE,
        INSTANCE_STRIDE == WORDS_PER_INSTANCE * BYTES_PER_WORD,
        INSTANCE_BUFFER_SIZE == MAX_INSTANCES * INSTANCE_STRIDE,
        QUAD_BUFFER_SIZE == QUAD_VERTEX_COUNT * VERTEX_STRIDE,
        VERTEX_STRIDE == WORDS_PER_VERTEX * BYTES_PER_WORD,
{
}

/// Read from a record's words, the attributes at locations 1 to 4 are the
/// record's position, colour, size and radii.
pub proof fn lemma_attributes_read_fields(record: InstanceData)
    ensures
        attribute_words(instance_layout()[0], record.words()) == record.world_pos@,
        attribute_words(instance_layout()[1], record.words()) == record.color@,
        attribute_words(instance_layout()[2], record.words()) == record.rect_size@,
        attribute_words(instance_layout()[3], record.words()) == record.radii@,
{
    assert(attribute_words(instance_layout()[0], record.words()) =~= record.world_pos@);
    assert(attribute_words(instance_layout()[1], record.words()) =~= record.color@);
    assert(attribute_words(instance_layout()[2], record.words()) =~= record.rect_size@);
    assert(attribute_words(instance_layout()[3], record.words()) =~= record.radii@);
}

/// The flush of a batch that is not empty draws once: the call at position 6
/// is the only draw call, it draws one instance per record, and the upload
/// before it carries the words of the `i`-th record at instance `i` and not
/// a byte beyond the last record.
pub proof fn lemma_flush_draws_batch_once(
    state: RenderStateView,
    view: Seq<u32>,
    projection: Seq<u32>,
)
    requires
        0 < state.instances.len() <= MAX_INSTANCES,
    ensures
        ({
            let calls = state.flush_calls(view, projection);
            let count = state.instances.len();
            &&& calls.len() == 8
            &&& forall|j: int| 0 <= j < 8 ==> (is_draw(#[trigger] calls[j]) <==> j == 6)
            &&& calls[6] == GlCallView::DrawArraysInstanced {
                first: 0,
                count: 4,
                instances: count as i32,
            }
            &&& count as i32 == count
            &&& calls[4] == GlCallView::BufferSubData {
                offset: 0,
                size: (count * 52) as usize,
                data: packed_words(state.instances),
            }
            &&& (count * 52) as usize == count * 52
            &&& packed_words(state.instances).len() == 13 * count
            &&& forall|i: int|
                0 <= i < count ==> packed_words(state.instances).subrange(13 * i, 13 * i + 13)
                    == (#[trigger] state.instances[i]).words()
        }),
{
    assert forall|i: int| 0 <= i < state.instances.len() implies packed_words(
        state.instances,
    ).subrange(13 * i, 13 * i + 13) == (#[trigger] state.instances[i]).words() by {
        lemma_packed_words_of_instance(state.instances, i);
    }
}

/// Rectangles submitted to an empty batch, at least one and no more than fit,
/// are all batched in the order submitted, and the flush that follows draws
/// them with exactly one draw call of as many instances, instance `i`
/// carrying the words of the `i`-th submission.
pub proof fn lemma_submissions_drawn_in_order(
    start: RenderStateView,
    offered: Seq<InstanceData>,
    view: Seq<u32>,
    projection: Seq<u32>,
)
    requires
        start.instances.len() == 0,
        0 < offered.len() <= MAX_INSTANCES,
    ensures
        start.after_submit_all(offered).instances == offered,
        ({
            let calls = start.after_submit_all(offered).flush_calls(view, projection);
            &&& calls.len() == 8
            &&& forall|j: int| 0 <= j < 8 ==> (is_draw(#[trigger] calls[j]) <==> j == 6)
            &&& calls[6] == GlCallView::DrawArraysInstanced {
                first: 0,
                count: 4,
                instances: offered.len() as i32,
            }
            &&& offered.len() as i32 == offered.len()
            &&& calls[4] == GlCallView::BufferSubData {
                offset: 0,
                size: (offered.len() * 52) as usize,
                data: packed_words(offered),
            }
            &&& forall|i: int|
                0 <= i < offered.len() ==> packed_words(offered).subrange(13 * i, 13 * i + 13)
                    == (#[trigger] offered[i]).words()
        }),
{
    lemma_submitted_keeps_first(start.instances, offered);
    assert(start.instances + offered =~= offered);
    lemma_flush_draws_batch_once(start.after_submit_all(offered), view, projection);
}

/// Of more rectangles than fit, submitted to an empty batch, the first
/// [`MAX_INSTANCES`] are batched and the rest dropped, and the flush that
/// follows draws exactly [`MAX_INSTANCES`] instances.
pub proof fn lemma_overflow_is_dropped(
    start: RenderStateView,
    offered: Seq<InstanceData>,
    view: Seq<u32>,
    projection: Seq<u32>,
)
    requires
        start.instances.len() == 0,
        offered.len() > MAX_INSTANCES,
    ensures
        start.after_submit_all(offered).instances == offered.take(MAX_INSTANCES as int),
        ({
            let calls = start.after_submit_all(offered).flush_calls(view, projection);
            &&& calls.len() == 8
            &&& forall|j: int| 0 <= j < 8 ==> (is_draw(#[trigger] calls[j]) <==> j == 6)
            &&& calls[6] == GlCallView::DrawArraysInstanced {
                first: 0,
                count: 4,
                instances: 10000,
            }
        }),
{
    lemma_submitted_keeps_first(start.instances, offered);
    assert(start.instances + offered =~= offered);
    lemma_flush_draws_batch_once(start.after_submit_all(offered), view, projection);
}

/// A flush leaves an empty batch, and what is submitted after it is batched
/// as it would be by a renderer that never held anything.
pub proof fn lemma_flush_forgets(state: RenderStateView, offered: Seq<InstanceData>)
    ensures
        state.after_flush().instances.len() == 0,
        state.after_flush().after_submit_all(offered).instances == capped(offered),
        state.after_flush().after_submit_all(offered) == (RenderStateView {
            instances: capped(offered),
            ..state
        }),
{
    lemma_submitted_keeps_first(Seq::empty(), offered);
    assert(Seq::<InstanceData>::empty() + offered =~= offered);
}

/// The calls of [`setup_calls`], one by one.
pub proof fn lemma_setup_calls_listed(vao: u32, vbo_quad: u32, vbo_instances: u32)
    ensures
        setup_calls(vao, vbo_quad, vbo_instances) == seq![
            GlCallView::BindVertexArray { array: vao },
            GlCallView::BindArrayBuffer { buffer: vbo_quad },
            GlCallView::BufferData {
                size: 32,
                initial: Some(quad_words()),
                usage: BufferUsage::StaticDraw,
            },
            GlCallView::EnableVertexAttribArray { index: 0 },
            GlCallView::VertexAttribPointer { index: 0, components: 2, stride: 8, offset: 0 },
            GlCallView::BindArrayBuffer { buffer: vbo_instances },
            GlCallView::BufferData {
                size: 520000,
                initial: None,
                usage: BufferUsage::DynamicDraw,
            },
            GlCallView::EnableVertexAttribArray { index: 1 },
            GlCallView::VertexAttribPointer { index: 1, components: 3, stride: 52, offset: 0 },
            GlCallView::EnableVertexAttribArray { index: 2 },
            GlCallView::VertexAttribPointer { index: 2, components: 4, stride: 52, offset: 12 },
            GlCallView::EnableVertexAttribArray { index: 3 },
            GlCallView::VertexAttribPointer { index: 3, components: 2, stride: 52, offset: 28 },
            GlCallView::EnableVertexAttribArray { index: 4 },
            GlCallView::VertexAttribPointer { index: 4, components: 4, stride: 52, offset: 36 },
            GlCallView::VertexAttribDivisor { index: 1, divisor: 1 },
            GlCallView::VertexAttribDivisor { index: 2, divisor: 1 },
            GlCallView::VertexAttribDivisor { index: 3, divisor: 1 },
            GlCallView::VertexAttribDivisor { index: 4, divisor: 1 },
            GlCallView::BindVertexArray { array: 0 },
        ],
        quad_words() == seq![
            ZERO_BITS, ZERO_BITS,
            ONE_BITS, ZERO_BITS,
            ZERO_BITS, ONE_BITS,
            ONE_BITS, ONE_BITS,
        ],
{
    assert(setup_calls(vao, vbo_quad, vbo_instances) =~= seq![
        GlCallView::BindVertexArray { array: vao },
        GlCallView::BindArrayBuffer { buffer: vbo_quad },
        GlCallView::BufferData {
            size: 32,
            initial: Some(quad_words()),
            usage: BufferUsage::StaticDraw,
        },
        GlCallView::EnableVertexAttribArray { index: 0 },
        GlCallView::VertexAttribPointer { index: 0, components: 2, stride: 8, offset: 0 },
        GlCallView::BindArrayBuffer { buffer: vbo_instances },
        GlCallView::BufferData { size: 520000, initial: None, usage: BufferUsage::DynamicDraw },
        GlCallView::EnableVertexAttribArray { index: 1 },
        GlCallView::VertexAttribPointer { index: 1, components: 3, stride: 52, offset: 0 },
        GlCallView::EnableVertexAttribArray { index: 2 },
        GlCallView::VertexAttribPointer { index: 2, components: 4, stride: 52, offset: 12 },
        GlCallView::EnableVertexAttribArray { index: 3 },
        GlCallView::VertexAttribPointer { index: 3, components: 2, stride: 52, offset: 28 },
        GlCallView::EnableVertexAttribArray { index: 4 },
        GlCallView::VertexAttribPointer { index: 4, components: 4, stride: 52, offset: 36 },
        GlCallView::VertexAttribDivisor { index: 1, divisor: 1 },
        GlCallView::VertexAttribDivisor { index: 2, divisor: 1 },
        GlCallView::VertexAttribDivisor { index: 3, divisor: 1 },
        GlCallView::VertexAttribDivisor { index: 4, divisor: 1 },
        GlCallView::BindVertexArray { array: 0 },
    ]);
    assert(quad_words() =~= seq![
        ZERO_BITS, ZERO_BITS,
        ONE_BITS, ZERO_BITS,
        ZERO_BITS, ONE_BITS,
        ONE_BITS, ONE_BITS,
    ]);
}

/// Where the making of a renderer stands.
#[derive(Debug)]
pub enum RenderSetup {
    /// The rectangle program is being built.
    Shader { build: ShaderBuild },
    /// The program is built; the name of the vertex array is awaited.
    AwaitingVertexArray { rect_shader: LianaShader },
    /// The name of the quad's buffer is awaited.
    AwaitingQuadBuffer { rect_shader: LianaShader, vao: u32 },
    /// The name of the instance buffer is awaited.
    AwaitingInstanceBuffer { rect_shader: LianaShader, vao: u32, vbo_quad: u32 },
    /// The renderer is ready, with an empty batch.
    Ready { state: RenderState },
    /// The renderer could not be made: its program did not build.
    InitFailed { error: ShaderError },
}

/// A [`RenderSetup`] as a mathematical value.
pub enum RenderSetupView {
    Shader { build: ShaderBuildView },
    AwaitingVertexArray { rect_shader: LianaShader },
    AwaitingQuadBuffer { rect_shader: LianaShader, vao: u32 },
    AwaitingInstanceBuffer { rect_shader: LianaShader, vao: u32, vbo_quad: u32 },
    Ready { state: RenderStateView },
    InitFailed { error: ShaderErrorView },
}

impl View for RenderSetup {
    type V = RenderSetupView;

    open spec fn view(&self) -> RenderSetupView {
        match *self {
            RenderSetup::Shader { build } => RenderSetupView::Shader { build: build@ },
            RenderSetup::AwaitingVertexArray { rect_shader } => {
                RenderSetupView::AwaitingVertexArray { rect_shader }
            },
            RenderSetup::AwaitingQuadBuffer { rect_shader, vao } => {
                RenderSetupView::AwaitingQuadBuffer { rect_shader, vao }
            },
            RenderSetup::AwaitingInstanceBuffer { rect_shader, vao, vbo_quad } => {
                RenderSetupView::AwaitingInstanceBuffer { rect_shader, vao, vbo_quad }
            },
            RenderSetup::Ready { state } => RenderSetupView::Ready { state: state@ },
            RenderSetup::InitFailed { error } => RenderSetupView::InitFailed { error: error@ },
        }
    }
}

/// The first state of making a renderer, and the call that opens it.
pub open spec fn setup_start() -> (RenderSetupView, Seq<GlCallView>) {
    let (build, calls) = build_start(VERTEX_SHADER_SOURCE@, FRAGMENT_SHADER_SOURCE@);
    (RenderSetupView::Shader { build }, calls)
}

/// The state that follows `state` on `reply`, and the calls to perform next.
///
/// The program is built first, and a failure there ends the setup before any
/// other object is made. Then the vertex array and the two buffers are named,
/// in that order, and the calls of [`setup_calls`] configure them.
pub open spec fn setup_step(state: RenderSetupView, reply: GlReplyView) -> (
    RenderSetupView,
    Seq<GlCallView>,
) {
    match state {
        RenderSetupView::Shader { build } => {
            let (build, calls) = build_step(build, reply);
            match build {
                ShaderBuildView::Linked { shader } => (
                    RenderSetupView::AwaitingVertexArray { rect_shader: shader },
                    calls.push(GlCallView::GenVertexArray),
                ),
                ShaderBuildView::Failed { error } => (
                    RenderSetupView::InitFailed { error },
                    calls,
                ),
                _ => (RenderSetupView::Shader { build }, calls),
            }
        },
        RenderSetupView::AwaitingVertexArray { rect_shader } => match reply {
            GlReplyView::Name(vao) => (
                RenderSetupView::AwaitingQuadBuffer { rect_shader, vao },
                seq![GlCallView::GenBuffer],
            ),
            _ => (state, seq![]),
        },
        RenderSetupView::AwaitingQuadBuffer { rect_shader, vao } => match reply {
            GlReplyView::Name(vbo_quad) => (
                RenderSetupView::AwaitingInstanceBuffer { rect_shader, vao, vbo_quad },
                seq![GlCallView::GenBuffer],
            ),
            _ => (state, seq![]),
        },
        RenderSetupView::AwaitingInstanceBuffer { rect_shader, vao, vbo_quad } => match reply {
            GlReplyView::Name(vbo_instances) => (
                RenderSetupView::Ready {
                    state: RenderStateView {
                        vao,
                        vbo_quad,
                        vbo_instances,
                        rect_shader,
                        instances: Seq::empty(),
                    },
                },
                setup_calls(vao, vbo_quad, vbo_instances),
            ),
            _ => (state, seq![]),
        },
        RenderSetupView::Ready { state: _ } => (state, seq![]),
        RenderSetupView::InitFailed { error: _ } => (state, seq![]),
    }
}

/// The per-instance attributes of a rectangle, each starting where the one
/// before it ends.
pub fn instance_attributes() -> (attributes: Vec<VertexAttribute>)
    ensures
        attributes@ == instance_layout(),
{
    let components: [i32; 4] = [3, 4, 2, 4];
    let mut attributes: Vec<VertexAttribute> = Vec::new();
    let mut offset: usize = 0;
    let mut i: usize = 0;
    while i < 4
        invariant
            i <= 4,
            components@ == seq![3i32, 4i32, 2i32, 4i32],
            attributes@ == instance_layout().take(i as int),
            offset == if i < 4 {
                instance_layout()[i as int].offset
            } else {
                INSTANCE_STRIDE
            },
        decreases 4 - i,
    {
        let index: u32 = (i + 1) as u32;
        attributes.push(VertexAttribute { index, components: components[i], offset });
        offset = offset + (components[i] as usize) * BYTES_PER_WORD;
        i += 1;
        assert(attributes@ =~= instance_layout().take(i as int));
    }
    assert(instance_layout().take(4) =~= instance_layout());
    attributes
}

/// The words of the quad's vertex buffer.
pub fn quad_buffer() -> (words: Vec<u32>)
    ensures
        words@ == quad_words(),
{
    let corners = quad_vertices();
    let mut words: Vec<u32> = Vec::new();
    let mut i: usize = 0;
    while i < 4
        invariant
            i <= 4,
            corners@ == unit_quad(),
            words@.len() == 2 * i,
            forall|k: int| 0 <= k < 2 * i ==> words@[k] == unit_quad()[k / 2].words()[k % 2],
        decreases 4 - i,
    {
        words.push(corners[i].local_pos[0]);
        words.push(corners[i].local_pos[1]);
        i += 1;
    }
    assert(words@ =~= quad_words());
    words
}

/// The calls that fill the quad's buffer, reserve the instance buffer and
/// record under `vao` which attribute reads what.
pub fn configure(vao: u32, vbo_quad: u32, vbo_instances: u32) -> (calls: Vec<GlCall>)
    ensures
        call_views(calls@) == setup_calls(vao, vbo_quad, vbo_instances),
{
    let attributes = instance_attributes();
    let mut calls: Vec<GlCall> = Vec::new();
    calls.push(GlCall::BindVertexArray { array: vao });
    calls.push(GlCall::BindArrayBuffer { buffer: vbo_quad });
    calls.push(
        GlCall::BufferData {
            size: 4 * VERTEX_STRIDE,
            initial: Some(quad_buffer()),
            usage: BufferUsage::StaticDraw,
        },
    );
    calls.push(GlCall::EnableVertexAttribArray { index: LOCAL_POS_LOCATION });
    calls.push(
        GlCall::VertexAttribPointer {
            index: LOCAL_POS_LOCATION,
            components: 2,
            stride: 8,
            offset: 0,
        },
    );
    calls.push(GlCall::BindArrayBuffer { buffer: vbo_instances });
    calls.push(
        GlCall::BufferData {
            size: MAX_INSTANCES * INSTANCE_STRIDE,
            initial: None,
            usage: BufferUsage::DynamicDraw,
        },
    );
    let ghost head = call_views(calls@);
    let mut i: usize = 0;
    while i < attributes.len()
        invariant
            i <= attributes@.len(),
            attributes@ == instance_layout(),
            call_views(calls@) == head + pointer_calls(attributes@.take(i as int), 52),
        decreases attributes@.len() - i,
    {
        let attribute = attributes[i];
        let ghost before = call_views(calls@);
        proof {
            lemma_call_views_push(
                calls@,
                GlCall::EnableVertexAttribArray { index: attribute.index },
            );
        }
        calls.push(GlCall::EnableVertexAttribArray { index: attribute.index });
        proof {
            lemma_call_views_push(
                calls@,
                GlCall::VertexAttribPointer {
                    index: attribute.index,
                    components: attribute.components,
                    stride: 52,
                    offset: attribute.offset,
                },
            );
        }
        calls.push(
            GlCall::VertexAttribPointer {
                index: attribute.index,
                components: attribute.components,
                stride: 52,
                offset: attribute.offset,
            },
        );
        i += 1;
        assert(call_views(calls@) =~= head + pointer_calls(attributes@.take(i as int), 52));
    }
    assert(attributes@.take(attributes@.len() as int) =~= attributes@);
    let ghost pointed = call_views(calls@);
    let mut j: usize = 0;
    while j < attributes.len()
        invariant
            j <= attributes@.len(),
            attributes@ == instance_layout(),
            call_views(calls@) == pointed + divisor_calls(attributes@.take(j as int)),
        decreases attributes@.len() - j,
    {
        let attribute = attributes[j];
        proof {
            lemma_call_views_push(
                calls@,
                GlCall::VertexAttribDivisor { index: attribute.index, divisor: 1 },
            );
        }
        calls.push(GlCall::VertexAttribDivisor { index: attribute.index, divisor: 1 });
        j += 1;
        assert(call_views(calls@) =~= pointed + divisor_calls(attributes@.take(j as int)));
    }
    assert(attributes@.take(attributes@.len() as int) =~= attributes@);
    proof {
        lemma_call_views_push(calls@, GlCall::BindVertexArray { array: 0 });
    }
    calls.push(GlCall::BindVertexArray { array: 0 });
    assert(call_views(calls@) =~= setup_calls(vao, vbo_quad, vbo_instances));
    calls
}

impl RenderStateView {
    /// The renderer after `record` was offered to its batch.
    pub open spec fn after_submit(self, record: InstanceData) -> RenderStateView {
        RenderStateView { instances: pushed(self.instances, record), ..self }
    }

    /// The renderer after every record of `offered` was offered in turn.
    pub open spec fn after_submit_all(self, offered: Seq<InstanceData>) -> RenderStateView {
        RenderStateView { instances: submitted(self.instances, offered), ..self }
    }

    /// The renderer after a flush: the same objects, and an empty batch.
    pub open spec fn after_flush(self) -> RenderStateView {
        RenderStateView { instances: Seq::empty(), ..self }
    }

    /// The calls of a flush under the given transforms: none for an empty
    /// batch; otherwise the program is made current, both matrices are
    /// uploaded, the records overwrite the start of the instance buffer, and
    /// one instanced strip is drawn with one instance per record.
    pub open spec fn flush_calls(self, view: Seq<u32>, projection: Seq<u32>) -> Seq<GlCallView> {
        if self.instances.len() == 0 {
            seq![]
        } else {
            seq![
                GlCallView::UseProgram { program: self.rect_shader.program_id },
                GlCallView::UniformMatrix4fv { location: self.rect_shader.view_loc, matrix: view },
                GlCallView::UniformMatrix4fv {
                    location: self.rect_shader.proj_loc,
                    matrix: projection,
                },
                GlCallView::BindArrayBuffer { buffer: self.vbo_instances },
                GlCallView::BufferSubData {
                    offset: 0,
                    size: (self.instances.len() * INSTANCE_STRIDE) as usize,
                    data: packed_words(self.instances),
                },
                GlCallView::BindVertexArray { array: self.vao },
                GlCallView::DrawArraysInstanced {
                    first: 0,
                    count: QUAD_VERTEX_COUNT,
                    instances: self.instances.len() as i32,
                },
                GlCallView::BindVertexArray { array: 0 },
            ]
        }
    }
}

impl RenderState {
    /// Begins the making of a renderer: the build of the rectangle program
    /// from [`VERTEX_SHADER_SOURCE`] and [`FRAGMENT_SHADER_SOURCE`].
    pub fn new() -> (begun: (RenderSetup, Vec<GlCall>))
        ensures
            begun.0@ == setup_start().0,
            call_views(begun.1@) == setup_start().1,
    {
        let (build, calls) = LianaShader::new(VERTEX_SHADER_SOURCE, FRAGMENT_SHADER_SOURCE);
        (RenderSetup::Shader { build }, calls)
    }

    /// Offers one rectangle to the batch. A full batch drops it.
    pub fn submit(&mut self, record: InstanceData)
        ensures
            final(self)@ == old(self)@.after_submit(record),
    {
        let _ = self.instances.push(record);
    }

    /// Turns the batch into the calls that draw it, and empties it.
    pub fn flush(&mut self, state: &LianaState) -> (calls: Vec<GlCall>)
        ensures
            call_views(calls@) == old(self)@.flush_calls(state.view@, state.projection@),
            old(self)@.instances.len() == 0 ==> calls@.len() == 0,
            final(self)@ == old(self)@.after_flush(),
    {
        let mut calls: Vec<GlCall> = Vec::new();
        if self.instances.is_empty() {
            assert(call_views(calls@) =~= Seq::<GlCallView>::empty());
            assert(self.instances@ =~= Seq::<InstanceData>::empty());
            return calls;
        }
        let count = self.instances.len();
        calls.push(self.rect_shader.use_program());
        calls.push(
            GlCall::UniformMatrix4fv { location: self.rect_shader.view_loc, matrix: state.view },
        );
        calls.push(
            GlCall::UniformMatrix4fv {
                location: self.rect_shader.proj_loc,
                matrix: state.projection,
            },
        );
        calls.push(GlCall::BindArrayBuffer { buffer: self.vbo_instances });
        calls.push(
            GlCall::BufferSubData {
                offset: 0,
                size: count * INSTANCE_STRIDE,
                data: self.instances.to_words(),
            },
        );
        calls.push(GlCall::BindVertexArray { array: self.vao });
        calls.push(
            GlCall::DrawArraysInstanced {
                first: 0,
                count: QUAD_VERTEX_COUNT,
                instances: count as i32,
            },
        );
        calls.push(GlCall::BindVertexArray { array: 0 });
        assert(call_views(calls@) =~= self@.flush_calls(state.view@, state.projection@));
        self.instances.clear();
        calls
    }
}

impl RenderSetup {
    /// Takes the device's answer to the last call handed out and says what
    /// to do next.
    pub fn step(self, reply: GlReply) -> (next: (RenderSetup, Vec<GlCall>))
        ensures
            next.0@ == setup_step(self@, reply@).0,
            call_views(next.1@) == setup_step(self@, reply@).1,
    {
        let mut calls: Vec<GlCall> = Vec::new();
        assert(call_views(calls@) =~= Seq::<GlCallView>::empty());
        let state = match self {
            RenderSetup::Shader { build } => {
                let (build, first) = build.step(reply);
                calls = first;
                match build {
                    ShaderBuild::Linked { shader } => {
                        proof {
                            lemma_call_views_push(calls@, GlCall::GenVertexArray);
                        }
                        calls.push(GlCall::GenVertexArray);
                        RenderSetup::AwaitingVertexArray { rect_shader: shader }
                    },
                    ShaderBuild::Failed { error } => RenderSetup::InitFailed { error },
                    build => RenderSetup::Shader { build },
                }
            },
            RenderSetup::AwaitingVertexArray { rect_shader } => match reply {
                GlReply::Name(vao) => {
                    calls.push(GlCall::GenBuffer);
                    RenderSetup::AwaitingQuadBuffer { rect_shader, vao }
                },
                _ => RenderSetup::AwaitingVertexArray { rect_shader },
            },
            RenderSetup::AwaitingQuadBuffer { rect_shader, vao } => match reply {
                GlReply::Name(vbo_quad) => {
                    calls.push(GlCall::GenBuffer);
                    RenderSetup::AwaitingInstanceBuffer { rect_shader, vao, vbo_quad }
                },
                _ => RenderSetup::AwaitingQuadBuffer { rect_shader, vao },
            },
            RenderSetup::AwaitingInstanceBuffer { rect_shader, vao, vbo_quad } => match reply {
                GlReply::Name(vbo_instances) => {
                    calls = configure(vao, vbo_quad, vbo_instances);
                    RenderSetup::Ready {
                        state: RenderState {
                            vao,
                            vbo_quad,
                            vbo_instances,
                            rect_shader,
                            instances: InstanceBatch::new(),
                        },
                    }
                },
                _ => RenderSetup::AwaitingInstanceBuffer { rect_shader, vao, vbo_quad },
            },
            state => state,
        };
        assert(call_views(calls@) =~= setup_step(self@, reply@).1);
        (state, calls)
    }
}

/// A setup that has ended stays as it is and asks for nothing, whatever it
/// is told: a renderer that could not be made is never made later.
pub proof fn lemma_ended_setup_stays(state: RenderSetupView, reply: GlReplyView)
    requires
        state is Ready || state is InitFailed,
    ensures
        setup_step(state, reply) == (state, Seq::<GlCallView>::empty()),
{
}

/// Once the program is built, three names from the device make the renderer:
/// the vertex array, the quad's buffer and the instance buffer, in that
/// order. It starts with an empty batch.
pub proof fn lemma_setup_names_objects(
    rect_shader: LianaShader,
    vao: u32,
    vbo_quad: u32,
    vbo_instances: u32,
)
    ensures
        ({
            let s0 = RenderSetupView::AwaitingVertexArray { rect_shader };
            let s1 = setup_step(s0, GlReplyView::Name(vao)).0;
            let s2 = setup_step(s1, GlReplyView::Name(vbo_quad)).0;
            let s3 = setup_step(s2, GlReplyView::Name(vbo_instances));
            &&& s3.0 == RenderSetupView::Ready {
                state: RenderStateView {
                    vao,
                    vbo_quad,
                    vbo_instances,
                    rect_shader,
                    instances: Seq::empty(),
                },
            }
            &&& s3.1 == setup_calls(vao, vbo_quad, vbo_instances)
        }),
{
}

impl RenderSetupView {
    /// Whether the setup has ended, well or not.
    pub open spec fn ended(self) -> bool {
        self is Ready || self is InitFailed
    }
}

/// A setup hands out calls only when it moves on. Unless it has ended, they
/// are a run whose last call, and no other, answers with a value; the calls
/// that end it ask for nothing.
pub proof fn lemma_setup_asks_last(state: RenderSetupView, reply: GlReplyView)
    ensures
        !setup_start().0.ended(),
        asks_last(setup_start().1),
        setup_step(state, reply).0 == state ==> setup_step(state, reply).1.len() == 0,
        setup_step(state, reply).0.ended() ==> asks_nothing(setup_step(state, reply).1),
        setup_step(state, reply).0 != state && !setup_step(state, reply).0.ended() ==> asks_last(
            setup_step(state, reply).1,
        ),
{
    let build = match state {
        RenderSetupView::Shader { build } => build,
        _ => build_start(VERTEX_SHADER_SOURCE@, FRAGMENT_SHADER_SOURCE@).0,
    };
    lemma_build_asks_last(VERTEX_SHADER_SOURCE@, FRAGMENT_SHADER_SOURCE@, build, reply);
    if let RenderSetupView::AwaitingInstanceBuffer { rect_shader: _, vao, vbo_quad } = state {
        if let GlReplyView::Name(vbo_instances) = reply {
            lemma_setup_calls_listed(vao, vbo_quad, vbo_instances);
        }
    }
}

} // verus!
