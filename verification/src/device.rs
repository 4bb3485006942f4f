//! The vocabulary spoken with the graphics device.
//!
//! The renderer never touches the device itself. It hands out [`GlCall`]s, one
//! per device entry point, for its host to perform in the order given, and
//! takes back a [`GlReply`] wherever a call answers with a value. Numbers that
//! reach the device as single-precision values travel as their bit patterns.

use vstd::prelude::*;

verus! {

/// The two programmable stages of a program.
#[derive(Clone, Copy, Debug, PartialEq, Eq)]
pub enum ShaderStage {
    Vertex,
    Fragment,
}

/// What can be asked of a compiled stage or of a linked program.
#[derive(Clone, Copy, Debug, PartialEq, Eq)]
pub enum ObjectParameter {
    /// Whether the last compile succeeded; zero means it did not.
    CompileStatus,
    /// Whether the last link succeeded; zero means it did not.
    LinkStatus,
    /// Length of the diagnostic log in bytes, its terminator included.
    InfoLogLength,
}

/// How often a buffer's contents are expected to change.
#[derive(Clone, Copy, Debug, PartialEq, Eq)]
pub enum BufferUsage {
    StaticDraw,
    DynamicDraw,
}

/// A switchable stage of the fixed pipeline.
#[derive(Clone, Copy, Debug, PartialEq, Eq)]
pub enum Capability {
    DepthTest,
    Blend,
}

/// A weight in the blend equation.
#[derive(Clone, Copy, Debug, PartialEq, Eq)]
pub enum BlendFactor {
    SrcAlpha,
    OneMinusSrcAlpha,
}

/// One call of a device entry point.
///
/// Buffers are always bound to the array-buffer target, attributes are always
/// unnormalised single-precision components, matrices are always uploaded
/// one at a time and untransposed, and draws are always triangle strips.
#[derive(Debug, PartialEq, Eq)]
pub enum GlCall {
    /// Creates an empty shader object; answers with its name.
    CreateShader { stage: ShaderStage },
    /// Replaces the source text of a shader object.
    ShaderSource { shader: u32, source: String },
    CompileShader { shader: u32 },
    /// Answers with the integer value of a shader parameter.
    GetShaderiv { shader: u32, parameter: ObjectParameter },
    /// Answers with the first `buffer_len` bytes of a buffer into which the
    /// device wrote at most `max_length` bytes of the shader's log.
    GetShaderInfoLog { shader: u32, max_length: i32, buffer_len: usize },
    DeleteShader { shader: u32 },
    /// Creates an empty program object; answers with its name.
    CreateProgram,
    AttachShader { program: u32, shader: u32 },
    LinkProgram { program: u32 },
    /// Answers with the integer value of a program parameter.
    GetProgramiv { program: u32, parameter: ObjectParameter },
    /// Answers with the first `buffer_len` bytes of a buffer into which the
    /// device wrote at most `max_length` bytes of the program's log.
    GetProgramInfoLog { program: u32, max_length: i32, buffer_len: usize },
    /// Answers with the location of a uniform, negative where the program has
    /// no active uniform of that name.
    GetUniformLocation { program: u32, name: String },
    UseProgram { program: u32 },
    /// Uploads one 4×4 matrix, sixteen words in column-major order.
    UniformMatrix4fv { location: i32, matrix: [u32; 16] },
    /// Generates one vertex array name; answers with it.
    GenVertexArray,
    /// Generates one buffer name; answers with it.
    GenBuffer,
    BindVertexArray { array: u32 },
    BindArrayBuffer { buffer: u32 },
    /// Gives the bound buffer a store of `size` bytes, filled from `initial`
    /// where there is any and left undefined otherwise.
    BufferData { size: usize, initial: Option<Vec<u32>>, usage: BufferUsage },
    /// Overwrites `size` bytes of the bound buffer, from byte `offset` on.
    BufferSubData { offset: usize, size: usize, data: Vec<u32> },
    EnableVertexAttribArray { index: u32 },
    /// Declares where attribute `index` finds its components in the bound
    /// buffer: `components` words at byte `offset` of every `stride` bytes.
    VertexAttribPointer { index: u32, components: i32, stride: i32, offset: usize },
    /// Makes attribute `index` advance once per `divisor` instances.
    VertexAttribDivisor { index: u32, divisor: u32 },
    /// Draws `instances` copies of the strip of `count` vertices from `first`.
    DrawArraysInstanced { first: i32, count: i32, instances: i32 },
    Enable { capability: Capability },
    BlendFunc { incoming: BlendFactor, stored: BlendFactor },
    ClearColor { red: u32, green: u32, blue: u32, alpha: u32 },
    Clear { color: bool, depth: bool },
    Viewport { x: i32, y: i32, width: i32, height: i32 },
}

/// What the device answered to a call.
#[derive(Debug, PartialEq, Eq)]
pub enum GlReply {
    /// The call has no answer.
    Nothing,
    /// The name of a newly made object.
    Name(u32),
    /// An integer parameter or a uniform location.
    Int(i32),
    /// The bytes of a diagnostic log.
    Bytes(Vec<u8>),
}

/// A [`GlCall`] as a mathematical value.
pub enum GlCallView {
    CreateShader { stage: ShaderStage },
    ShaderSource { shader: u32, source: Seq<char> },
    CompileShader { shader: u32 },
    GetShaderiv { shader: u32, parameter: ObjectParameter },
    GetShaderInfoLog { shader: u32, max_length: i32, buffer_len: usize },
    DeleteShader { shader: u32 },
    CreateProgram,
    AttachShader { program: u32, shader: u32 },
    LinkProgram { program: u32 },
    GetProgramiv { program: u32, parameter: ObjectParameter },
    GetProgramInfoLog { program: u32, max_length: i32, buffer_len: usize },
    GetUniformLocation { program: u32, name: Seq<char> },
    UseProgram { program: u32 },
    UniformMatrix4fv { location: i32, matrix: Seq<u32> },
    GenVertexArray,
    GenBuffer,
    BindVertexArray { array: u32 },
    BindArrayBuffer { buffer: u32 },
    BufferData { size: usize, initial: Option<Seq<u32>>, usage: BufferUsage },
    BufferSubData { offset: usize, size: usize, data: Seq<u32> },
    EnableVertexAttribArray { index: u32 },
    VertexAttribPointer { index: u32, components: i32, stride: i32, offset: usize },
    VertexAttribDivisor { index: u32, divisor: u32 },
    DrawArraysInstanced { first: i32, count: i32, instances: i32 },
    Enable { capability: Capability },
    BlendFunc { incoming: BlendFactor, stored: BlendFactor },
    ClearColor { red: u32, green: u32, blue: u32, alpha: u32 },
    Clear { color: bool, depth: bool },
    Viewport { x: i32, y: i32, width: i32, height: i32 },
}

/// A [`GlReply`] as a mathematical value.
pub enum GlReplyView {
    Nothing,
    Name(u32),
    Int(i32),
    Bytes(Seq<u8>),
}

impl View for GlCall {
    type V = GlCallView;

    open spec fn view(&self) -> GlCallView {
        match *self {
            GlCall::CreateShader { stage } => GlCallView::CreateShader { stage },
            GlCall::ShaderSource { shader, source } => GlCallView::ShaderSource {
                shader,
                source: source@,
            },
            GlCall::CompileShader { shader } => GlCallView::CompileShader { shader },
            GlCall::GetShaderiv { shader, parameter } => GlCallView::GetShaderiv {
                shader,
                parameter,
            },
            GlCall::GetShaderInfoLog { shader, max_length, buffer_len } => {
                GlCallView::GetShaderInfoLog { shader, max_length, buffer_len }
            },
            GlCall::DeleteShader { shader } => GlCallView::DeleteShader { shader },
            GlCall::CreateProgram => GlCallView::CreateProgram,
            GlCall::AttachShader { program, shader } => GlCallView::AttachShader {
                program,
                shader,
            },
            GlCall::LinkProgram { program } => GlCallView::LinkProgram { program },
            GlCall::GetProgramiv { program, parameter } => GlCallView::GetProgramiv {
                program,
                parameter,
            },
            GlCall::GetProgramInfoLog { program, max_length, buffer_len } => {
                GlCallView::GetProgramInfoLog { program, max_length, buffer_len }
            },
            GlCall::GetUniformLocation { program, name } => GlCallView::GetUniformLocation {
                program,
                name: name@,
            },
            GlCall::UseProgram { program } => GlCallView::UseProgram { program },
            GlCall::UniformMatrix4fv { location, matrix } => GlCallView::UniformMatrix4fv {
                location,
                matrix: matrix@,
            },
            GlCall::GenVertexArray => GlCallView::GenVertexArray,
            GlCall::GenBuffer => GlCallView::GenBuffer,
            GlCall::BindVertexArray { array } => GlCallView::BindVertexArray { array },
            GlCall::BindArrayBuffer { buffer } => GlCallView::BindArrayBuffer { buffer },
            GlCall::BufferData { size, initial, usage } => GlCallView::BufferData {
                size,
                initial: match initial {
                    Some(words) => Some(words@),
                    None => None,
                },
                usage,
            },
            GlCall::BufferSubData { offset, size, data } => GlCallView::BufferSubData {
                offset,
                size,
                data: data@,
            },
            GlCall::EnableVertexAttribArray { index } => GlCallView::EnableVertexAttribArray {
                index,
            },
            GlCall::VertexAttribPointer { index, components, stride, offset } => {
                GlCallView::VertexAttribPointer { index, components, stride, offset }
            },
            GlCall::VertexAttribDivisor { index, divisor } => GlCallView::VertexAttribDivisor {
                index,
                divisor,
            },
            GlCall::DrawArraysInstanced { first, count, instances } => {
                GlCallView::DrawArraysInstanced { first, count, instances }
            },
            GlCall::Enable { capability } => GlCallView::Enable { capability },
            GlCall::BlendFunc { incoming, stored } => GlCallView::BlendFunc { incoming, stored },
            GlCall::ClearColor { red, green, blue, alpha } => GlCallView::ClearColor {
                red,
                green,
                blue,
                alpha,
            },
            GlCall::Clear { color, depth } => GlCallView::Clear { color, depth },
            GlCall::Viewport { x, y, width, height } => GlCallView::Viewport {
                x,
                y,
                width,
                height,
            },
        }
    }
}

impl View for GlReply {
    type V = GlReplyView;

    open spec fn view(&self) -> GlReplyView {
        match *self {
            GlReply::Nothing => GlReplyView::Nothing,
            GlReply::Name(name) => GlReplyView::Name(name),
            GlReply::Int(value) => GlReplyView::Int(value),
            GlReply::Bytes(bytes) => GlReplyView::Bytes(bytes@),
        }
    }
}

impl GlCallView {
    /// Whether the device answers the call with a value.
    pub open spec fn answers(self) -> bool {
        match self {
            GlCallView::CreateShader { .. } => true,
            GlCallView::GetShaderiv { .. } => true,
            GlCallView::GetShaderInfoLog { .. } => true,
            GlCallView::CreateProgram => true,
            GlCallView::GetProgramiv { .. } => true,
            GlCallView::GetProgramInfoLog { .. } => true,
            GlCallView::GetUniformLocation { .. } => true,
            GlCallView::GenVertexArray => true,
            GlCallView::GenBuffer => true,
            _ => false,
        }
    }
}

/// Whether `calls` is a run that a machine may hand out while it waits: it is
/// not empty, its last call answers with a value, and no call before it does.
pub open spec fn asks_last(calls: Seq<GlCallView>) -> bool {
    &&& calls.len() > 0
    &&& calls.last().answers()
    &&& forall|i: int| 0 <= i < calls.len() - 1 ==> !(#[trigger] calls[i]).answers()
}

/// Whether no call of `calls` answers with a value.
pub open spec fn asks_nothing(calls: Seq<GlCallView>) -> bool {
    forall|i: int| 0 <= i < calls.len() ==> !(#[trigger] calls[i]).answers()
}

/// A run of calls as mathematical values, in the order they are performed.
pub open spec fn call_views(calls: Seq<GlCall>) -> Seq<GlCallView> {
    calls.map_values(|call: GlCall| call@)
}

/// Appending a call to a run appends its view to the run's views.
pub proof fn lemma_call_views_push(calls: Seq<GlCall>, call: GlCall)
    ensures
        call_views(calls.push(call)) == call_views(calls).push(call@),
{
    assert(call_views(calls.push(call)) =~= call_views(calls).push(call@));
}

} // verus!
