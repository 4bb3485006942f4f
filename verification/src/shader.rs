//! Building a program from a vertex and a fragment stage.
//!
//! Compiling and linking happen on the device, and what comes next depends on
//! what the device answers. Each build is therefore a small machine: it hands
//! out a run of calls, the last of which answers with a value, and is stepped
//! with that answer. An answer that the machine is not waiting for leaves it
//! where it is and asks for nothing.

use crate::device::{
    asks_last, call_views, lemma_call_views_push, GlCall, GlCallView, GlReply, GlReplyView,
    ObjectParameter, ShaderStage,
};
use vstd::prelude::*;
use vstd::utf8::{decode_utf8, encode_utf8, encode_utf8_decode_utf8, valid_utf8};

verus! {

/// Why a program could not be built.
#[derive(Debug, PartialEq, Eq)]
pub enum ShaderError {
    /// A stage did not compile; `log` is what the device said about it.
    CompileFailed { log: String },
    /// The stages did not link; `log` is what the device said about it.
    LinkFailed { log: String },
}

/// A [`ShaderError`] as a mathematical value.
pub enum ShaderErrorView {
    CompileFailed { log: Seq<char> },
    LinkFailed { log: Seq<char> },
}

impl View for ShaderError {
    type V = ShaderErrorView;

    open spec fn view(&self) -> ShaderErrorView {
        match *self {
            ShaderError::CompileFailed { log } => ShaderErrorView::CompileFailed { log: log@ },
            ShaderError::LinkFailed { log } => ShaderErrorView::LinkFailed { log: log@ },
        }
    }
}

impl ShaderErrorView {
    /// The device's diagnostic text.
    pub open spec fn message(self) -> Seq<char> {
        match self {
            ShaderErrorView::CompileFailed { log } => log,
            ShaderErrorView::LinkFailed { log } => log,
        }
    }
}

impl ShaderError {
    /// The device's diagnostic text.
    pub fn message(&self) -> (text: String)
        ensures
            text@ == self@.message(),
    {
        match self {
            ShaderError::CompileFailed { log } => log.clone(),
            ShaderError::LinkFailed { log } => log.clone(),
        }
    }
}

/// The text shown for a diagnostic log: the log itself where it is UTF-8,
/// and `fallback` where it is not.
pub open spec fn diagnostic(log: Seq<u8>, fallback: Seq<char>) -> Seq<char> {
    if valid_utf8(log) {
        decode_utf8(log)
    } else {
        fallback
    }
}

/// How many bytes of a log of `length` bytes are text: all but the
/// terminator, and none where the device reports no log.
pub open spec fn log_text_len(length: i32) -> usize {
    if length >= 1 {
        (length - 1) as usize
    } else {
        0
    }
}

/// The most bytes the device may write for a log of `length` bytes.
pub open spec fn log_max_len(length: i32) -> i32 {
    if length >= 0 {
        length
    } else {
        0
    }
}

/// `std::str::from_utf8`: the bytes as text exactly when they are well-formed
/// UTF-8, and then the text whose encoding they are.
#[verifier::external_body]
fn utf8_text(bytes: &[u8]) -> (text: Option<&str>)
    ensures
        text is Some <==> valid_utf8(bytes@),
        text matches Some(s) ==> encode_utf8(s@) == bytes@,
{
    match std::str::from_utf8(bytes) {
        Ok(s) => Some(s),
        Err(_) => None,
    }
}

/// The text shown for a diagnostic log: the log itself where it is UTF-8,
/// and `fallback` where it is not.
pub fn diagnostic_text(log: &Vec<u8>, fallback: &str) -> (text: String)
    ensures
        text@ == diagnostic(log@, fallback@),
{
    match utf8_text(log.as_slice()) {
        Some(s) => {
            proof {
                encode_utf8_decode_utf8(s@);
            }
            s.to_owned()
        },
        None => fallback.to_owned(),
    }
}

/// How many bytes of a log of `length` bytes are text.
pub fn log_buffer_len(length: i32) -> (n: usize)
    ensures
        n == log_text_len(length),
{
    if length >= 1 {
        (length - 1) as usize
    } else {
        0
    }
}

/// Where the compilation of one stage stands.
#[derive(Debug, PartialEq, Eq)]
pub enum ShaderCompile {
    /// A shader object was asked for; its name is awaited.
    AwaitingName { source: String },
    /// The source was compiled; the compile status is awaited.
    AwaitingStatus { shader: u32 },
    /// The compile failed; the length of the log is awaited.
    AwaitingLogLength { shader: u32 },
    /// The compile failed; the log is awaited.
    AwaitingLog { shader: u32 },
    /// The stage compiled.
    Compiled { shader: u32 },
    /// The stage did not compile.
    Failed { error: ShaderError },
}

/// A [`ShaderCompile`] as a mathematical value.
pub enum ShaderCompileView {
    AwaitingName { source: Seq<char> },
    AwaitingStatus { shader: u32 },
    AwaitingLogLength { shader: u32 },
    AwaitingLog { shader: u32 },
    Compiled { shader: u32 },
    Failed { error: ShaderErrorView },
}

impl View for ShaderCompile {
    type V = ShaderCompileView;

    open spec fn view(&self) -> ShaderCompileView {
        match *self {
            ShaderCompile::AwaitingName { source } => ShaderCompileView::AwaitingName {
                source: source@,
            },
            ShaderCompile::AwaitingStatus { shader } => ShaderCompileView::AwaitingStatus {
                shader,
            },
            ShaderCompile::AwaitingLogLength { shader } => ShaderCompileView::AwaitingLogLength {
                shader,
            },
            ShaderCompile::AwaitingLog { shader } => ShaderCompileView::AwaitingLog { shader },
            ShaderCompile::Compiled { shader } => ShaderCompileView::Compiled { shader },
            ShaderCompile::Failed { error } => ShaderCompileView::Failed { error: error@ },
        }
    }
}

/// The first state of compiling `source`, and the call that opens it.
pub open spec fn compile_start(source: Seq<char>, stage: ShaderStage) -> (
    ShaderCompileView,
    Seq<GlCallView>,
) {
    (ShaderCompileView::AwaitingName { source }, seq![GlCallView::CreateShader { stage }])
}

/// The state that follows `state` on `reply`, and the calls to perform next.
pub open spec fn compile_step(state: ShaderCompileView, reply: GlReplyView) -> (
    ShaderCompileView,
    Seq<GlCallView>,
) {
    match (state, reply) {
        (ShaderCompileView::AwaitingName { source }, GlReplyView::Name(shader)) => (
            ShaderCompileView::AwaitingStatus { shader },
            seq![
                GlCallView::ShaderSource { shader, source },
                GlCallView::CompileShader { shader },
                GlCallView::GetShaderiv { shader, parameter: ObjectParameter::CompileStatus },
            ],
        ),
        (ShaderCompileView::AwaitingStatus { shader }, GlReplyView::Int(status)) => if status
            == 0 {
            (
                ShaderCompileView::AwaitingLogLength { shader },
                seq![
                    GlCallView::GetShaderiv { shader, parameter: ObjectParameter::InfoLogLength },
                ],
            )
        } else {
            (ShaderCompileView::Compiled { shader }, seq![])
        },
        (ShaderCompileView::AwaitingLogLength { shader }, GlReplyView::Int(length)) => (
            ShaderCompileView::AwaitingLog { shader },
            seq![
                GlCallView::GetShaderInfoLog {
                    shader,
                    max_length: log_max_len(length),
                    buffer_len: log_text_len(length),
                },
            ],
        ),
        (ShaderCompileView::AwaitingLog { shader }, GlReplyView::Bytes(log)) => (
            ShaderCompileView::Failed {
                error: ShaderErrorView::CompileFailed {
                    log: diagnostic(log, "Shader error log was not utf8"@),
                },
            },
            seq![],
        ),
        _ => (state, seq![]),
    }
}

/// Begins the compilation of one stage from `source`.
pub fn compile_shader(source: &str, stage: ShaderStage) -> (begun: (ShaderCompile, Vec<GlCall>))
    ensures
        begun.0@ == compile_start(source@, stage).0,
        call_views(begun.1@) == compile_start(source@, stage).1,
{
    let mut calls: Vec<GlCall> = Vec::new();
    calls.push(GlCall::CreateShader { stage });
    assert(call_views(calls@) =~= compile_start(source@, stage).1);
    (ShaderCompile::AwaitingName { source: source.to_owned() }, calls)
}

impl ShaderCompile {
    /// Takes the device's answer to the last call handed out and says what
    /// to do next.
    pub fn step(self, reply: GlReply) -> (next: (ShaderCompile, Vec<GlCall>))
        ensures
            next.0@ == compile_step(self@, reply@).0,
            call_views(next.1@) == compile_step(self@, reply@).1,
    {
        let mut calls: Vec<GlCall> = Vec::new();
        assert(call_views(calls@) =~= Seq::<GlCallView>::empty());
        let state = match (self, reply) {
            (ShaderCompile::AwaitingName { source }, GlReply::Name(shader)) => {
                calls.push(GlCall::ShaderSource { shader, source });
                calls.push(GlCall::CompileShader { shader });
                calls.push(
                    GlCall::GetShaderiv { shader, parameter: ObjectParameter::CompileStatus },
                );
                ShaderCompile::AwaitingStatus { shader }
            },
            (ShaderCompile::AwaitingStatus { shader }, GlReply::Int(status)) => {
                if status == 0 {
                    calls.push(
                        GlCall::GetShaderiv { shader, parameter: ObjectParameter::InfoLogLength },
                    );
                    ShaderCompile::AwaitingLogLength { shader }
                } else {
                    ShaderCompile::Compiled { shader }
                }
            },
            (ShaderCompile::AwaitingLogLength { shader }, GlReply::Int(length)) => {
                calls.push(
                    GlCall::GetShaderInfoLog {
                        shader,
                        max_length: if length >= 0 {
                            length
                        } else {
                            0
                        },
                        buffer_len: log_buffer_len(length),
                    },
                );
                ShaderCompile::AwaitingLog { shader }
            },
            (ShaderCompile::AwaitingLog { shader }, GlReply::Bytes(log)) => {
                let text = diagnostic_text(&log, "Shader error log was not utf8");
                ShaderCompile::Failed { error: ShaderError::CompileFailed { log: text } }
            },
            (state, _) => state,
        };
        assert(call_views(calls@) =~= compile_step(self@, reply@).1);
        (state, calls)
    }
}

/// A stage that the device reports as not compiled ends in failure, whatever
/// the length it gives for the log, and the error carries the log: its text
/// where the log is UTF-8, and a fixed notice where it is not.
pub proof fn lemma_compile_failure_carries_log(
    source: Seq<char>,
    stage: ShaderStage,
    shader: u32,
    length: i32,
    log: Seq<u8>,
)
    ensures
        ({
            let named = compile_step(compile_start(source, stage).0, GlReplyView::Name(shader)).0;
            let refused = compile_step(named, GlReplyView::Int(0)).0;
            let sized = compile_step(refused, GlReplyView::Int(length)).0;
            let ended = compile_step(sized, GlReplyView::Bytes(log)).0;
            &&& ended is Failed
            &&& ended->error is CompileFailed
            &&& valid_utf8(log) ==> ended->error.message() == decode_utf8(log)
            &&& !valid_utf8(log) ==> ended->error.message() == "Shader error log was not utf8"@
        }),
{
}

/// A stage that the device reports as compiled is done at once, under the
/// name the device gave it, and nothing more is asked of the device.
pub proof fn lemma_compile_success(source: Seq<char>, stage: ShaderStage, shader: u32, status: i32)
    requires
        status != 0,
    ensures
        ({
            let named = compile_step(compile_start(source, stage).0, GlReplyView::Name(shader)).0;
            &&& compile_step(named, GlReplyView::Int(status)).0 == ShaderCompileView::Compiled {
                shader,
            }
            &&& compile_step(named, GlReplyView::Int(status)).1.len() == 0
        }),
{
}

impl ShaderCompileView {
    /// Whether the compilation has ended, well or not.
    pub open spec fn ended(self) -> bool {
        self is Compiled || self is Failed
    }
}

/// A compilation hands out calls only when it moves on, and then, unless it
/// has ended, a run whose last call, and no other, answers with a value.
pub proof fn lemma_compile_asks_last(
    source: Seq<char>,
    stage: ShaderStage,
    state: ShaderCompileView,
    reply: GlReplyView,
)
    ensures
        !compile_start(source, stage).0.ended(),
        asks_last(compile_start(source, stage).1),
        compile_step(state, reply).0 == state ==> compile_step(state, reply).1.len() == 0,
        compile_step(state, reply).0.ended() ==> compile_step(state, reply).1.len() == 0,
        compile_step(state, reply).0 != state && !compile_step(state, reply).0.ended()
            ==> asks_last(compile_step(state, reply).1),
{
}

/// A linked program and the locations of its two matrix uniforms.
#[derive(Clone, Copy, Debug, PartialEq, Eq)]
pub struct LianaShader {
    pub program_id: u32,
    pub view_loc: i32,
    pub proj_loc: i32,
}

/// Where the build of a program stands.
#[derive(Debug, PartialEq, Eq)]
pub enum ShaderBuild {
    /// The vertex stage is being compiled.
    Vertex { compile: ShaderCompile, fragment_source: String },
    /// The vertex stage compiled; the fragment stage is being compiled.
    Fragment { vertex: u32, compile: ShaderCompile },
    /// Both stages compiled and a program object was asked for; its name is
    /// awaited.
    AwaitingProgram { vertex: u32, fragment: u32 },
    /// The stages were attached and linked; the link status is awaited.
    AwaitingLinkStatus { vertex: u32, fragment: u32, program: u32 },
    /// The link failed; the length of the log is awaited.
    AwaitingLogLength { program: u32 },
    /// The link failed; the log is awaited.
    AwaitingLog { program: u32 },
    /// The program linked; the location of `view` is awaited.
    AwaitingViewLocation { program: u32 },
    /// The program linked; the location of `projection` is awaited.
    AwaitingProjectionLocation { program: u32, view_loc: i32 },
    /// The program is ready for use.
    Linked { shader: LianaShader },
    /// The program could not be built.
    Failed { error: ShaderError },
}

/// A [`ShaderBuild`] as a mathematical value.
pub enum ShaderBuildView {
    Vertex { compile: ShaderCompileView, fragment_source: Seq<char> },
    Fragment { vertex: u32, compile: ShaderCompileView },
    AwaitingProgram { vertex: u32, fragment: u32 },
    AwaitingLinkStatus { vertex: u32, fragment: u32, program: u32 },
    AwaitingLogLength { program: u32 },
    AwaitingLog { program: u32 },
    AwaitingViewLocation { program: u32 },
    AwaitingProjectionLocation { program: u32, view_loc: i32 },
    Linked { shader: LianaShader },
    Failed { error: ShaderErrorView },
}

impl View for ShaderBuild {
    type V = ShaderBuildView;

    open spec fn view(&self) -> ShaderBuildView {
        match *self {
            ShaderBuild::Vertex { compile, fragment_source } => ShaderBuildView::Vertex {
                compile: compile@,
                fragment_source: fragment_source@,
            },
            ShaderBuild::Fragment { vertex, compile } => ShaderBuildView::Fragment {
                vertex,
                compile: compile@,
            },
            ShaderBuild::AwaitingProgram { vertex, fragment } => ShaderBuildView::AwaitingProgram {
                vertex,
                fragment,
            },
            ShaderBuild::AwaitingLinkStatus { vertex, fragment, program } => {
                ShaderBuildView::AwaitingLinkStatus { vertex, fragment, program }
            },
            ShaderBuild::AwaitingLogLength { program } => ShaderBuildView::AwaitingLogLength {
                program,
            },
            ShaderBuild::AwaitingLog { program } => ShaderBuildView::AwaitingLog { program },
            ShaderBuild::AwaitingViewLocation { program } => {
                ShaderBuildView::AwaitingViewLocation { program }
            },
            ShaderBuild::AwaitingProjectionLocation { program, view_loc } => {
                ShaderBuildView::AwaitingProjectionLocation { program, view_loc }
            },
            ShaderBuild::Linked { shader } => ShaderBuildView::Linked { shader },
            ShaderBuild::Failed { error } => ShaderBuildView::Failed { error: error@ },
        }
    }
}

/// The first state of building a program from two sources, and the call that
/// opens it.
pub open spec fn build_start(vertex_source: Seq<char>, fragment_source: Seq<char>) -> (
    ShaderBuildView,
    Seq<GlCallView>,
) {
    let (compile, calls) = compile_start(vertex_source, ShaderStage::Vertex);
    (ShaderBuildView::Vertex { compile, fragment_source }, calls)
}

/// The state that follows `state` on `reply`, and the calls to perform next.
///
/// The stages are compiled one after the other, the vertex stage first; the
/// first failure ends the build. Once the program has linked, the two stage
/// objects are deleted and the uniforms `view` and `projection` are located.
pub open spec fn build_step(state: ShaderBuildView, reply: GlReplyView) -> (
    ShaderBuildView,
    Seq<GlCallView>,
) {
    match state {
        ShaderBuildView::Vertex { compile, fragment_source } => {
            let (compile, calls) = compile_step(compile, reply);
            match compile {
                ShaderCompileView::Compiled { shader } => {
                    let (fragment, more) = compile_start(fragment_source, ShaderStage::Fragment);
                    (ShaderBuildView::Fragment { vertex: shader, compile: fragment }, calls + more)
                },
                ShaderCompileView::Failed { error } => (ShaderBuildView::Failed { error }, calls),
                _ => (ShaderBuildView::Vertex { compile, fragment_source }, calls),
            }
        },
        ShaderBuildView::Fragment { vertex, compile } => {
            let (compile, calls) = compile_step(compile, reply);
            match compile {
                ShaderCompileView::Compiled { shader } => (
                    ShaderBuildView::AwaitingProgram { vertex, fragment: shader },
                    calls.push(GlCallView::CreateProgram),
                ),
                ShaderCompileView::Failed { error } => (ShaderBuildView::Failed { error }, calls),
                _ => (ShaderBuildView::Fragment { vertex, compile }, calls),
            }
        },
        ShaderBuildView::AwaitingProgram { vertex, fragment } => match reply {
            GlReplyView::Name(program) => (
                ShaderBuildView::AwaitingLinkStatus { vertex, fragment, program },
                seq![
                    GlCallView::AttachShader { program, shader: vertex },
                    GlCallView::AttachShader { program, shader: fragment },
                    GlCallView::LinkProgram { program },
                    GlCallView::GetProgramiv { program, parameter: ObjectParameter::LinkStatus },
                ],
            ),
            _ => (state, seq![]),
        },
        ShaderBuildView::AwaitingLinkStatus { vertex, fragment, program } => match reply {
            GlReplyView::Int(status) => if status == 0 {
                (
                    ShaderBuildView::AwaitingLogLength { program },
                    seq![
                        GlCallView::GetProgramiv {
                            program,
                            parameter: ObjectParameter::InfoLogLength,
                        },
                    ],
                )
            } else {
                (
                    ShaderBuildView::AwaitingViewLocation { program },
                    seq![
                        GlCallView::DeleteShader { shader: vertex },
                        GlCallView::DeleteShader { shader: fragment },
                        GlCallView::GetUniformLocation { program, name: "view"@ },
                    ],
                )
            },
            _ => (state, seq![]),
        },
        ShaderBuildView::AwaitingLogLength { program } => match reply {
            GlReplyView::Int(length) => (
                ShaderBuildView::AwaitingLog { program },
                seq![
                    GlCallView::GetProgramInfoLog {
                        program,
                        max_length: log_max_len(length),
                        buffer_len: log_text_len(length),
                    },
                ],
            ),
            _ => (state, seq![]),
        },
        ShaderBuildView::AwaitingLog { program } => match reply {
            GlReplyView::Bytes(log) => (
                ShaderBuildView::Failed {
                    error: ShaderErrorView::LinkFailed {
                        log: diagnostic(log, "Linker error log was not utf8"@),
                    },
                },
                seq![],
            ),
            _ => (state, seq![]),
        },
        ShaderBuildView::AwaitingViewLocation { program } => match reply {
            GlReplyView::Int(view_loc) => (
                ShaderBuildView::AwaitingProjectionLocation { program, view_loc },
                seq![GlCallView::GetUniformLocation { program, name: "projection"@ }],
            ),
            _ => (state, seq![]),
        },
        ShaderBuildView::AwaitingProjectionLocation { program, view_loc } => match reply {
            GlReplyView::Int(proj_loc) => (
                ShaderBuildView::Linked {
                    shader: LianaShader { program_id: program, view_loc, proj_loc },
                },
                seq![],
            ),
            _ => (state, seq![]),
        },
        ShaderBuildView::Linked { shader } => (state, seq![]),
        ShaderBuildView::Failed { error } => (state, seq![]),
    }
}

impl LianaShader {
    /// Begins the build of a program from the sources of its two stages.
    pub fn new(vertex_shader_source: &str, fragment_shader_source: &str) -> (begun: (
        ShaderBuild,
        Vec<GlCall>,
    ))
        ensures
            begun.0@ == build_start(vertex_shader_source@, fragment_shader_source@).0,
            call_views(begun.1@) == build_start(
                vertex_shader_source@,
                fragment_shader_source@,
            ).1,
    {
        let (compile, calls) = compile_shader(vertex_shader_source, ShaderStage::Vertex);
        (ShaderBuild::Vertex { compile, fragment_source: fragment_shader_source.to_owned() }, calls)
    }

    /// The call that makes this program the one that draws.
    pub fn use_program(&self) -> (call: GlCall)
        ensures
            call@ == (GlCallView::UseProgram { program: self.program_id }),
    {
        GlCall::UseProgram { program: self.program_id }
    }
}

impl ShaderBuild {
    /// Takes the device's answer to the last call handed out and says what
    /// to do next.
    pub fn step(self, reply: GlReply) -> (next: (ShaderBuild, Vec<GlCall>))
        ensures
            next.0@ == build_step(self@, reply@).0,
            call_views(next.1@) == build_step(self@, reply@).1,
    {
        let mut calls: Vec<GlCall> = Vec::new();
        assert(call_views(calls@) =~= Seq::<GlCallView>::empty());
        let state = match self {
            ShaderBuild::Vertex { compile, fragment_source } => {
                let (compile, first) = compile.step(reply);
                calls = first;
                match compile {
                    ShaderCompile::Compiled { shader } => {
                        proof {
                            lemma_call_views_push(
                                calls@,
                                GlCall::CreateShader { stage: ShaderStage::Fragment },
                            );
                        }
                        calls.push(GlCall::CreateShader { stage: ShaderStage::Fragment });
                        ShaderBuild::Fragment {
                            vertex: shader,
                            compile: ShaderCompile::AwaitingName { source: fragment_source },
                        }
                    },
                    ShaderCompile::Failed { error } => ShaderBuild::Failed { error },
                    compile => ShaderBuild::Vertex { compile, fragment_source },
                }
            },
            ShaderBuild::Fragment { vertex, compile } => {
                let (compile, first) = compile.step(reply);
                calls = first;
                match compile {
                    ShaderCompile::Compiled { shader } => {
                        proof {
                            lemma_call_views_push(calls@, GlCall::CreateProgram);
                        }
                        calls.push(GlCall::CreateProgram);
                        ShaderBuild::AwaitingProgram { vertex, fragment: shader }
                    },
                    ShaderCompile::Failed { error } => ShaderBuild::Failed { error },
                    compile => ShaderBuild::Fragment { vertex, compile },
                }
            },
            ShaderBuild::AwaitingProgram { vertex, fragment } => match reply {
                GlReply::Name(program) => {
                    calls.push(GlCall::AttachShader { program, shader: vertex });
                    calls.push(GlCall::AttachShader { program, shader: fragment });
                    calls.push(GlCall::LinkProgram { program });
                    calls.push(
                        GlCall::GetProgramiv { program, parameter: ObjectParameter::LinkStatus },
                    );
                    ShaderBuild::AwaitingLinkStatus { vertex, fragment, program }
                },
                _ => ShaderBuild::AwaitingProgram { vertex, fragment },
            },
            ShaderBuild::AwaitingLinkStatus { vertex, fragment, program } => match reply {
                GlReply::Int(status) => {
                    if status == 0 {
                        calls.push(
                            GlCall::GetProgramiv {
                                program,
                                parameter: ObjectParameter::InfoLogLength,
                            },
                        );
                        ShaderBuild::AwaitingLogLength { program }
                    } else {
                        calls.push(GlCall::DeleteShader { shader: vertex });
                        calls.push(GlCall::DeleteShader { shader: fragment });
                        calls.push(
                            GlCall::GetUniformLocation { program, name: "view".to_owned() },
                        );
                        ShaderBuild::AwaitingViewLocation { program }
                    }
                },
                _ => ShaderBuild::AwaitingLinkStatus { vertex, fragment, program },
            },
            ShaderBuild::AwaitingLogLength { program } => match reply {
                GlReply::Int(length) => {
                    calls.push(
                        GlCall::GetProgramInfoLog {
                            program,
                            max_length: if length >= 0 {
                                length
                            } else {
                                0
                            },
                            buffer_len: log_buffer_len(length),
                        },
                    );
                    ShaderBuild::AwaitingLog { program }
                },
                _ => ShaderBuild::AwaitingLogLength { program },
            },
            ShaderBuild::AwaitingLog { program } => match reply {
                GlReply::Bytes(log) => {
                    let text = diagnostic_text(&log, "Linker error log was not utf8");
                    ShaderBuild::Failed { error: ShaderError::LinkFailed { log: text } }
                },
                _ => ShaderBuild::AwaitingLog { program },
            },
            ShaderBuild::AwaitingViewLocation { program } => match reply {
                GlReply::Int(view_loc) => {
                    calls.push(
                        GlCall::GetUniformLocation { program, name: "projection".to_owned() },
                    );
                    ShaderBuild::AwaitingProjectionLocation { program, view_loc }
                },
                _ => ShaderBuild::AwaitingViewLocation { program },
            },
            ShaderBuild::AwaitingProjectionLocation { program, view_loc } => match reply {
                GlReply::Int(proj_loc) => ShaderBuild::Linked {
                    shader: LianaShader { program_id: program, view_loc, proj_loc },
                },
                _ => ShaderBuild::AwaitingProjectionLocation { program, view_loc },
            },
            state => state,
        };
        assert(call_views(calls@) =~= build_step(self@, reply@).1);
        (state, calls)
    }
}

/// A build whose stages compile and link ends with a program under the name
/// the device gave it and with the two locations the device answered.
pub proof fn lemma_build_links(
    vertex_source: Seq<char>,
    fragment_source: Seq<char>,
    vertex: u32,
    fragment: u32,
    program: u32,
    compiled: i32,
    linked: i32,
    view_loc: i32,
    proj_loc: i32,
)
    requires
        compiled != 0,
        linked != 0,
    ensures
        ({
            let s0 = build_start(vertex_source, fragment_source).0;
            let s1 = build_step(s0, GlReplyView::Name(vertex)).0;
            let s2 = build_step(s1, GlReplyView::Int(compiled)).0;
            let s3 = build_step(s2, GlReplyView::Name(fragment)).0;
            let s4 = build_step(s3, GlReplyView::Int(compiled)).0;
            let s5 = build_step(s4, GlReplyView::Name(program)).0;
            let s6 = build_step(s5, GlReplyView::Int(linked)).0;
            let s7 = build_step(s6, GlReplyView::Int(view_loc)).0;
            let s8 = build_step(s7, GlReplyView::Int(proj_loc)).0;
            s8 == ShaderBuildView::Linked {
                shader: LianaShader { program_id: program, view_loc, proj_loc },
            }
        }),
{
}

/// A build whose vertex stage does not compile fails with the log of that
/// stage, and the fragment stage is never touched.
pub proof fn lemma_build_stops_at_vertex_failure(
    vertex_source: Seq<char>,
    fragment_source: Seq<char>,
    vertex: u32,
    length: i32,
    log: Seq<u8>,
)
    ensures
        ({
            let s0 = build_start(vertex_source, fragment_source).0;
            let s1 = build_step(s0, GlReplyView::Name(vertex));
            let s2 = build_step(s1.0, GlReplyView::Int(0));
            let s3 = build_step(s2.0, GlReplyView::Int(length));
            let s4 = build_step(s3.0, GlReplyView::Bytes(log));
            &&& s4.0 == ShaderBuildView::Failed {
                error: ShaderErrorView::CompileFailed {
                    log: diagnostic(log, "Shader error log was not utf8"@),
                },
            }
            &&& s2.1 == seq![
                GlCallView::GetShaderiv {
                    shader: vertex,
                    parameter: ObjectParameter::InfoLogLength,
                },
            ]
            &&& s3.1.len() == 1
            &&& s4.1.len() == 0
        }),
{
}

/// A build whose stages compile but do not link fails with the log of the
/// program.
pub proof fn lemma_link_failure_carries_log(
    vertex: u32,
    fragment: u32,
    program: u32,
    length: i32,
    log: Seq<u8>,
)
    ensures
        ({
            let s0 = ShaderBuildView::AwaitingLinkStatus { vertex, fragment, program };
            let s1 = build_step(s0, GlReplyView::Int(0)).0;
            let s2 = build_step(s1, GlReplyView::Int(length)).0;
            let s3 = build_step(s2, GlReplyView::Bytes(log)).0;
            &&& s3 is Failed
            &&& s3->error is LinkFailed
            &&& valid_utf8(log) ==> s3->error.message() == decode_utf8(log)
            &&& !valid_utf8(log) ==> s3->error.message() == "Linker error log was not utf8"@
        }),
{
}

/// A build that has ended stays as it is and asks for nothing, whatever it
/// is told.
pub proof fn lemma_ended_build_stays(state: ShaderBuildView, reply: GlReplyView)
    requires
        state is Linked || state is Failed,
    ensures
        build_step(state, reply) == (state, Seq::<GlCallView>::empty()),
{
}

impl ShaderBuildView {
    /// Whether the build has ended, well or not.
    pub open spec fn ended(self) -> bool {
        self is Linked || self is Failed
    }
}

/// A build hands out calls only when it moves on, and then, unless it has
/// ended, a run whose last call, and no other, answers with a value.
pub proof fn lemma_build_asks_last(
    vertex_source: Seq<char>,
    fragment_source: Seq<char>,
    state: ShaderBuildView,
    reply: GlReplyView,
)
    ensures
        !build_start(vertex_source, fragment_source).0.ended(),
        asks_last(build_start(vertex_source, fragment_source).1),
        build_step(state, reply).0 == state ==> build_step(state, reply).1.len() == 0,
        build_step(state, reply).0.ended() ==> build_step(state, reply).1.len() == 0,
        build_step(state, reply).0 != state && !build_step(state, reply).0.ended() ==> asks_last(
            build_step(state, reply).1,
        ),
{
    match state {
        ShaderBuildView::Vertex { compile, fragment_source: _ } => {
            lemma_compile_asks_last(vertex_source, ShaderStage::Vertex, compile, reply);
        },
        ShaderBuildView::Fragment { vertex: _, compile } => {
            lemma_compile_asks_last(fragment_source, ShaderStage::Fragment, compile, reply);
        },
        _ => {},
    }
}

} // verus!
