//! Preparing the canvas: two shaders, their program, and a quad that fills
//! the viewport, with a position and a texture coordinate at each corner.
//!
//! [`prepare_visualization`] starts a build that runs like those of
//! [`crate::shader_routines`]: batch by batch, until its state is `Ready` or
//! `Failed`. [`render`] gives the calls that draw one frame of it.

use crate::calls::{
    BufferTarget, Command, CommandView, Primitive, Reply, ReplyView, Scalar, ShaderKind, Usage,
};
use crate::calls::{
    preceded, run, run_reply_by_reply, run_through_four, run_through_two, session, Step,
};
use crate::info_log::log_text;
use crate::shader_routines::{
    is_source, program_calls, program_start, program_step, replies_of, shader_calls,
    shader_start, shader_step, Answers, ProgramBuild, ProgramBuildView, Shader, ShaderBuild,
    ShaderBuildView, ShaderProgram,
};
use vstd::prelude::*;

verus! {

/// The bytes of one number in a buffer, float or unsigned integer.
pub const SCALAR_BYTES: usize = 4;

/// The numbers of one corner: two of position, two of texture coordinate.
pub const CORNER_NUMBERS: usize = 4;

/// The numbers of a position, and of a texture coordinate.
pub const ATTRIBUTE_NUMBERS: usize = 2;

/// The colour output that the fragment shader's result is bound to.
pub const COLOR_OUTPUT: &'static str = "outColor";

/// The vertex attribute that takes the position of a corner.
pub const POSITION_ATTRIBUTE: &'static str = "position";

/// The vertex attribute that takes the texture coordinate of a corner.
pub const TEXTURE_ATTRIBUTE: &'static str = "vsTex";

/// The corners of the quad, four numbers each: x, y, then the texture
/// coordinate u, v. Top left, top right, bottom right, bottom left.
pub open spec fn quad_vertices() -> Seq<i32> {
    seq![-1i32, 1, 0, 0, 1, 1, 1, 0, 1, -1i32, 1, 1, -1i32, -1i32, 0, 1]
}

/// The corners of the two triangles that make the quad, as indices into its
/// corners.
pub open spec fn quad_elements() -> Seq<i32> {
    seq![0i32, 1, 2, 2, 3, 0]
}

/// The index that stands for an attribute location: the location itself,
/// and for a negative one, which OpenGL gives for a name it does not know,
/// the unsigned number with the same 32 bits.
pub open spec fn attribute_index(location: i32) -> u32 {
    if location >= 0 {
        location as u32
    } else {
        (location + 0x1_0000_0000) as u32
    }
}

/// The calls that fill the array buffer `vertex_buffer` with the corners.
pub open spec fn upload_vertices(vertex_buffer: u32) -> Seq<CommandView> {
    seq![
        CommandView::BindBuffer { target: BufferTarget::Array, object: vertex_buffer },
        CommandView::BufferData {
            target: BufferTarget::Array,
            bytes: (quad_vertices().len() * SCALAR_BYTES) as isize,
            data: quad_vertices(),
            scalar: Scalar::Float,
            usage: Usage::StaticDraw,
        },
        CommandView::BindBuffer { target: BufferTarget::Array, object: 0 },
    ]
}

/// The calls that fill the element buffer `element_buffer` with the
/// triangles. The array binding, not the element binding, is reset after it.
pub open spec fn upload_elements(element_buffer: u32) -> Seq<CommandView> {
    seq![
        CommandView::BindBuffer { target: BufferTarget::ElementArray, object: element_buffer },
        CommandView::BufferData {
            target: BufferTarget::ElementArray,
            bytes: (quad_elements().len() * SCALAR_BYTES) as isize,
            data: quad_elements(),
            scalar: Scalar::UnsignedInt,
            usage: Usage::StaticDraw,
        },
        CommandView::BindBuffer { target: BufferTarget::Array, object: 0 },
    ]
}

/// The calls that enable the attribute found at `location` and describe it
/// as the two floats at number `first` of each corner.
pub open spec fn describe_attribute(location: i32, first: usize) -> Seq<CommandView> {
    seq![
        CommandView::EnableVertexAttribArray { index: attribute_index(location) },
        CommandView::VertexAttribPointer {
            index: attribute_index(location),
            size: ATTRIBUTE_NUMBERS as i32,
            scalar: Scalar::Float,
            normalized: false,
            stride: (CORNER_NUMBERS * SCALAR_BYTES) as i32,
            offset: (first * SCALAR_BYTES) as usize,
        },
    ]
}

/// The calls that draw one frame from the vertex array `vertex_array`.
pub open spec fn frame(vertex_array: u32) -> Seq<CommandView> {
    seq![
        CommandView::BindVertexArray { array: vertex_array },
        CommandView::DrawElements {
            primitive: Primitive::Triangles,
            count: quad_elements().len() as i32,
            scalar: Scalar::UnsignedInt,
        },
        CommandView::Flush,
    ]
}

/// What a finished preparation leaves: the program in use and the vertex
/// array of the quad.
#[derive(Clone, Copy, Debug, PartialEq, Eq, Structural)]
pub struct Prepared {
    pub program: u32,
    pub vertex_array: u32,
}

/// How far the preparation has come.
#[derive(Debug, PartialEq, Eq)]
pub enum Visualization {
    /// The vertex shader is being built.
    Vertex { build: ShaderBuild, fragment_source: Vec<u8> },
    /// The fragment shader is being built.
    Fragment { vertex: Shader, build: ShaderBuild },
    /// The program is being built from the shaders, vertex shader first.
    Program { shaders: Vec<Shader>, link: ProgramBuild },
    /// The name of the vertex buffer is awaited.
    VertexBuffer { program: ShaderProgram },
    /// The name of the element buffer is awaited.
    ElementBuffer { program: ShaderProgram, vertex_buffer: u32 },
    /// The name of the vertex array is awaited.
    VertexArray { program: ShaderProgram, vertex_buffer: u32 },
    /// The location of the position attribute is awaited.
    Position { program: ShaderProgram, vertex_array: u32 },
    /// The location of the texture coordinate attribute is awaited.
    TexCoord { program: ShaderProgram, vertex_array: u32 },
    /// The preparation ended well.
    Ready(Prepared),
    /// The preparation ended with the log of the shader or program that
    /// failed.
    Failed(String),
}

/// The mathematical content of a [`Visualization`].
pub enum VisualizationView {
    Vertex { build: ShaderBuildView, fragment_source: Seq<u8> },
    Fragment { vertex: u32, build: ShaderBuildView },
    Program { shaders: Seq<u32>, link: ProgramBuildView },
    VertexBuffer { program: u32 },
    ElementBuffer { program: u32, vertex_buffer: u32 },
    VertexArray { program: u32, vertex_buffer: u32 },
    Position { program: u32, vertex_array: u32 },
    TexCoord { program: u32, vertex_array: u32 },
    Ready { prepared: Prepared },
    Failed { log: Seq<char> },
}

impl View for Visualization {
    type V = VisualizationView;

    open spec fn view(&self) -> VisualizationView {
        match *self {
            Visualization::Vertex { build, fragment_source } => VisualizationView::Vertex {
                build: build@,
                fragment_source: fragment_source@,
            },
            Visualization::Fragment { vertex, build } => VisualizationView::Fragment {
                vertex: vertex@,
                build: build@,
            },
            Visualization::Program { shaders, link } => VisualizationView::Program {
                shaders: shaders.deep_view(),
                link: link@,
            },
            Visualization::VertexBuffer { program } => VisualizationView::VertexBuffer {
                program: program@,
            },
            Visualization::ElementBuffer {
                program,
                vertex_buffer,
            } => VisualizationView::ElementBuffer { program: program@, vertex_buffer },
            Visualization::VertexArray {
                program,
                vertex_buffer,
            } => VisualizationView::VertexArray { program: program@, vertex_buffer },
            Visualization::Position { program, vertex_array } => VisualizationView::Position {
                program: program@,
                vertex_array,
            },
            Visualization::TexCoord { program, vertex_array } => VisualizationView::TexCoord {
                program: program@,
                vertex_array,
            },
            Visualization::Ready(prepared) => VisualizationView::Ready { prepared },
            Visualization::Failed(log) => VisualizationView::Failed { log: log@ },
        }
    }
}

impl DeepView for Visualization {
    type V = VisualizationView;

    open spec fn deep_view(&self) -> VisualizationView {
        self@
    }
}

impl VisualizationView {
    /// Whether the sources that the preparation still holds are sources.
    pub open spec fn well_formed(self) -> bool {
        match self {
            VisualizationView::Vertex { build, fragment_source } => build.well_formed()
                && is_source(fragment_source),
            VisualizationView::Fragment { build, .. } => build.well_formed(),
            _ => true,
        }
    }
}

/// The state and the first batch of a preparation: those of the build of the
/// vertex shader.
pub open spec fn visualization_start(vertex_source: Seq<u8>, fragment_source: Seq<u8>) -> (
    VisualizationView,
    Seq<CommandView>,
) {
    let (build, batch) = shader_start(ShaderKind::Vertex, vertex_source);
    (VisualizationView::Vertex { build, fragment_source }, batch)
}

/// What follows a step of the vertex shader's build: the build goes on, or
/// fails the preparation, or gives way to the build of the fragment shader.
pub open spec fn after_vertex_step(
    build: ShaderBuildView,
    batch: Seq<CommandView>,
    fragment_source: Seq<u8>,
) -> (VisualizationView, Seq<CommandView>) {
    match build {
        ShaderBuildView::Compiled { shader } => {
            let (build, first) = shader_start(ShaderKind::Fragment, fragment_source);
            (VisualizationView::Fragment { vertex: shader, build }, batch + first)
        },
        ShaderBuildView::Failed { log } => (VisualizationView::Failed { log }, batch),
        _ => (VisualizationView::Vertex { build, fragment_source }, batch),
    }
}

/// What follows a step of the fragment shader's build: the build goes on, or
/// fails the preparation, which deletes the vertex shader, or gives way to
/// the build of the program.
pub open spec fn after_fragment_step(
    build: ShaderBuildView,
    batch: Seq<CommandView>,
    vertex: u32,
) -> (VisualizationView, Seq<CommandView>) {
    match build {
        ShaderBuildView::Compiled { shader } => {
            let shaders = seq![vertex, shader];
            let (link, first) = program_start(shaders);
            (VisualizationView::Program { shaders, link }, batch + first)
        },
        ShaderBuildView::Failed { log } => (
            VisualizationView::Failed { log },
            batch + seq![CommandView::DeleteShader { shader: vertex }],
        ),
        _ => (VisualizationView::Fragment { vertex, build }, batch),
    }
}

/// One call per shader, in the order of `shaders`, that deletes it.
pub open spec fn delete_all(shaders: Seq<u32>) -> Seq<CommandView> {
    Seq::new(shaders.len(), |i: int| CommandView::DeleteShader { shader: shaders[i] })
}

/// What follows a step of the program's build: the build goes on, or it ends
/// and the shaders are deleted. After a program that linked, the program is
/// put to use and the vertex buffer asked for.
pub open spec fn after_program_step(
    link: ProgramBuildView,
    batch: Seq<CommandView>,
    shaders: Seq<u32>,
) -> (VisualizationView, Seq<CommandView>) {
    match link {
        ProgramBuildView::Linked { program } => (
            VisualizationView::VertexBuffer { program },
            batch + delete_all(shaders) + seq![
                CommandView::UseProgram { program },
                CommandView::GenBuffers,
            ],
        ),
        ProgramBuildView::Failed { log } => (
            VisualizationView::Failed { log },
            batch + delete_all(shaders),
        ),
        _ => (VisualizationView::Program { shaders, link }, batch),
    }
}

/// The state and the batch that follow `state` on `reply`, `None` where
/// `state` does not await such a reply.
///
/// The last batch deletes the program: it stays the one in use, and OpenGL
/// keeps such a program until another takes its place.
pub open spec fn visualization_step(state: VisualizationView, reply: ReplyView) -> Option<
    (VisualizationView, Seq<CommandView>),
> {
    match state {
        VisualizationView::Vertex { build, fragment_source } => match shader_step(build, reply) {
            Some((next, batch)) => Some(after_vertex_step(next, batch, fragment_source)),
            None => None,
        },
        VisualizationView::Fragment { vertex, build } => match shader_step(build, reply) {
            Some((next, batch)) => Some(after_fragment_step(next, batch, vertex)),
            None => None,
        },
        VisualizationView::Program { shaders, link } => match program_step(link, reply) {
            Some((next, batch)) => Some(after_program_step(next, batch, shaders)),
            None => None,
        },
        VisualizationView::VertexBuffer { program } => match reply {
            ReplyView::Name(vertex_buffer) => Some(
                (
                    VisualizationView::ElementBuffer { program, vertex_buffer },
                    upload_vertices(vertex_buffer) + seq![CommandView::GenBuffers],
                ),
            ),
            _ => None,
        },
        VisualizationView::ElementBuffer { program, vertex_buffer } => match reply {
            ReplyView::Name(element_buffer) => Some(
                (
                    VisualizationView::VertexArray { program, vertex_buffer },
                    upload_elements(element_buffer) + seq![CommandView::GenVertexArrays],
                ),
            ),
            _ => None,
        },
        VisualizationView::VertexArray { program, vertex_buffer } => match reply {
            ReplyView::Name(vertex_array) => Some(
                (
                    VisualizationView::Position { program, vertex_array },
                    seq![
                        CommandView::BindVertexArray { array: vertex_array },
                        CommandView::BindBuffer {
                            target: BufferTarget::Array,
                            object: vertex_buffer,
                        },
                        CommandView::BindFragDataLocation {
                            program,
                            color: 0,
                            name: COLOR_OUTPUT@,
                        },
                        CommandView::GetAttribLocation { program, name: POSITION_ATTRIBUTE@ },
                    ],
                ),
            ),
            _ => None,
        },
        VisualizationView::Position { program, vertex_array } => match reply {
            ReplyView::Value(location) => Some(
                (
                    VisualizationView::TexCoord { program, vertex_array },
                    describe_attribute(location, 0) + seq![
                        CommandView::GetAttribLocation { program, name: TEXTURE_ATTRIBUTE@ },
                    ],
                ),
            ),
            _ => None,
        },
        VisualizationView::TexCoord { program, vertex_array } => match reply {
            ReplyView::Value(location) => Some(
                (
                    VisualizationView::Ready { prepared: Prepared { program, vertex_array } },
                    describe_attribute(location, ATTRIBUTE_NUMBERS) + seq![
                        CommandView::DeleteProgram { program },
                    ],
                ),
            ),
            _ => None,
        },
        _ => None,
    }
}

/// The steps of a preparation.
pub open spec fn visualization_steps() -> Step<VisualizationView> {
    |state: VisualizationView, reply: ReplyView| visualization_step(state, reply)
}

/// What OpenGL answers in the course of one preparation: to the build of
/// each shader and of the program, then the names of the vertex buffer, the
/// element buffer and the vertex array, and the locations of the two
/// attributes.
pub struct PreparationAnswers {
    pub vertex: Answers,
    pub fragment: Answers,
    pub program: Answers,
    pub vertex_buffer: u32,
    pub element_buffer: u32,
    pub vertex_array: u32,
    pub position: i32,
    pub texture: i32,
}

/// The replies that set up the quad, in the order in which they are awaited.
pub open spec fn quad_replies(answers: PreparationAnswers) -> Seq<ReplyView> {
    seq![
        ReplyView::Name(answers.vertex_buffer),
        ReplyView::Name(answers.element_buffer),
        ReplyView::Name(answers.vertex_array),
        ReplyView::Value(answers.position),
        ReplyView::Value(answers.texture),
    ]
}

/// Every call that follows a linked program: use it, fill the two buffers,
/// bind the vertex array and the vertex buffer, name the colour output,
/// describe the two attributes, delete the program.
pub open spec fn quad_calls(answers: PreparationAnswers) -> Seq<CommandView> {
    let program = answers.program.name;
    seq![CommandView::UseProgram { program }, CommandView::GenBuffers] + upload_vertices(
        answers.vertex_buffer,
    ) + seq![CommandView::GenBuffers] + upload_elements(answers.element_buffer) + seq![
        CommandView::GenVertexArrays,
        CommandView::BindVertexArray { array: answers.vertex_array },
        CommandView::BindBuffer { target: BufferTarget::Array, object: answers.vertex_buffer },
        CommandView::BindFragDataLocation { program, color: 0, name: COLOR_OUTPUT@ },
        CommandView::GetAttribLocation { program, name: POSITION_ATTRIBUTE@ },
    ] + describe_attribute(answers.position, 0) + seq![
        CommandView::GetAttribLocation { program, name: TEXTURE_ATTRIBUTE@ },
    ] + describe_attribute(answers.texture, ATTRIBUTE_NUMBERS) + seq![
        CommandView::DeleteProgram { program },
    ]
}

/// The replies that carry `answers`, in the order in which a preparation
/// awaits them: it awaits none after a build that failed.
pub open spec fn visualization_replies(answers: PreparationAnswers) -> Seq<ReplyView> {
    if answers.vertex.status == 0 {
        replies_of(answers.vertex)
    } else if answers.fragment.status == 0 {
        replies_of(answers.vertex) + replies_of(answers.fragment)
    } else if answers.program.status == 0 {
        replies_of(answers.vertex) + replies_of(answers.fragment) + replies_of(answers.program)
    } else {
        replies_of(answers.vertex) + replies_of(answers.fragment) + replies_of(answers.program)
            + quad_replies(answers)
    }
}

/// Every call of a preparation that OpenGL answers with `answers`: the
/// build of the vertex shader, that of the fragment shader, that of the
/// program from the two; then the shaders are deleted and the quad is set
/// up. A build that fails ends the preparation, after the shaders that were
/// compiled by then are deleted.
pub open spec fn visualization_calls(
    vertex_source: Seq<u8>,
    fragment_source: Seq<u8>,
    answers: PreparationAnswers,
) -> Seq<CommandView> {
    let shaders = seq![answers.vertex.name, answers.fragment.name];
    let vertex = shader_calls(ShaderKind::Vertex, vertex_source, answers.vertex);
    let fragment = shader_calls(ShaderKind::Fragment, fragment_source, answers.fragment);
    let program = program_calls(shaders, answers.program);
    if answers.vertex.status == 0 {
        vertex
    } else if answers.fragment.status == 0 {
        vertex + fragment + seq![CommandView::DeleteShader { shader: answers.vertex.name }]
    } else if answers.program.status == 0 {
        vertex + fragment + program + delete_all(shaders)
    } else {
        vertex + fragment + program + delete_all(shaders) + quad_calls(answers)
    }
}

/// Where a preparation that OpenGL answers with `answers` ends: with the
/// program and the vertex array, or with the text of the log of the first
/// build that failed.
pub open spec fn visualization_end(answers: PreparationAnswers) -> VisualizationView {
    if answers.vertex.status == 0 {
        VisualizationView::Failed { log: log_text(answers.vertex.log) }
    } else if answers.fragment.status == 0 {
        VisualizationView::Failed { log: log_text(answers.fragment.log) }
    } else if answers.program.status == 0 {
        VisualizationView::Failed { log: log_text(answers.program.log) }
    } else {
        VisualizationView::Ready {
            prepared: Prepared {
                program: answers.program.name,
                vertex_array: answers.vertex_array,
            },
        }
    }
}

proof fn vertex_shader_compiles(
    vertex_source: Seq<u8>,
    fragment_source: Seq<u8>,
    answers: Answers,
    others: Seq<ReplyView>,
)
    requires
        answers.status != 0,
    ensures
        run(
            visualization_steps(),
            visualization_start(vertex_source, fragment_source).0,
            replies_of(answers) + others,
        ) == preceded(
            shader_calls(ShaderKind::Vertex, vertex_source, answers).skip(1) + seq![
                CommandView::CreateShader { kind: ShaderKind::Fragment },
            ],
            run(
                visualization_steps(),
                VisualizationView::Fragment {
                    vertex: answers.name,
                    build: shader_start(ShaderKind::Fragment, fragment_source).0,
                },
                others,
            ),
        ),
{
    let step = visualization_steps();
    let start = visualization_start(vertex_source, fragment_source).0;
    let next = VisualizationView::Fragment {
        vertex: answers.name,
        build: shader_start(ShaderKind::Fragment, fragment_source).0,
    };
    let calls = shader_calls(ShaderKind::Vertex, vertex_source, answers).skip(1) + seq![
        CommandView::CreateShader { kind: ShaderKind::Fragment },
    ];
    let first = replies_of(answers)[0];
    let second = replies_of(answers)[1];
    assert(replies_of(answers) + others =~= seq![first, second] + others);
    run_through_two(step, start, first, second, others);
    let found = run(step, start, replies_of(answers) + others);
    match run(step, next, others) {
        None => {},
        Some((last, rest)) => {
            assert(found is Some);
            assert(found.unwrap().1 =~= calls + rest);
        },
    }
}

proof fn vertex_shader_fails(vertex_source: Seq<u8>, fragment_source: Seq<u8>, answers: Answers)
    requires
        answers.status == 0,
        answers.log_length >= 0,
    ensures
        run(
            visualization_steps(),
            visualization_start(vertex_source, fragment_source).0,
            replies_of(answers),
        ) == Some(
            (
                VisualizationView::Failed { log: log_text(answers.log) },
                shader_calls(ShaderKind::Vertex, vertex_source, answers).skip(1),
            ),
        ),
{
    let step = visualization_steps();
    let start = visualization_start(vertex_source, fragment_source).0;
    let calls = shader_calls(ShaderKind::Vertex, vertex_source, answers).skip(1);
    run_through_four(step, start, replies_of(answers));
    let found = run(step, start, replies_of(answers));
    assert(found is Some);
    assert(found.unwrap().1 =~= calls);
}

proof fn fragment_shader_compiles(
    vertex: u32,
    fragment_source: Seq<u8>,
    answers: Answers,
    others: Seq<ReplyView>,
)
    requires
        answers.status != 0,
    ensures
        run(
            visualization_steps(),
            VisualizationView::Fragment {
                vertex,
                build: shader_start(ShaderKind::Fragment, fragment_source).0,
            },
            replies_of(answers) + others,
        ) == preceded(
            shader_calls(ShaderKind::Fragment, fragment_source, answers).skip(1) + seq![
                CommandView::CreateProgram,
            ],
            run(
                visualization_steps(),
                VisualizationView::Program {
                    shaders: seq![vertex, answers.name],
                    link: program_start(seq![vertex, answers.name]).0,
                },
                others,
            ),
        ),
{
    let step = visualization_steps();
    let start = VisualizationView::Fragment {
        vertex,
        build: shader_start(ShaderKind::Fragment, fragment_source).0,
    };
    let next = VisualizationView::Program {
        shaders: seq![vertex, answers.name],
        link: program_start(seq![vertex, answers.name]).0,
    };
    let calls = shader_calls(ShaderKind::Fragment, fragment_source, answers).skip(1) + seq![
        CommandView::CreateProgram,
    ];
    let first = replies_of(answers)[0];
    let second = replies_of(answers)[1];
    assert(replies_of(answers) + others =~= seq![first, second] + others);
    run_through_two(step, start, first, second, others);
    let found = run(step, start, replies_of(answers) + others);
    match run(step, next, others) {
        None => {},
        Some((last, rest)) => {
            assert(found is Some);
            assert(found.unwrap().1 =~= calls + rest);
        },
    }
}

proof fn fragment_shader_fails(vertex: u32, fragment_source: Seq<u8>, answers: Answers)
    requires
        answers.status == 0,
        answers.log_length >= 0,
    ensures
        run(
            visualization_steps(),
            VisualizationView::Fragment {
                vertex,
                build: shader_start(ShaderKind::Fragment, fragment_source).0,
            },
            replies_of(answers),
        ) == Some(
            (
                VisualizationView::Failed { log: log_text(answers.log) },
                shader_calls(ShaderKind::Fragment, fragment_source, answers).skip(1) + seq![
                    CommandView::DeleteShader { shader: vertex },
                ],
            ),
        ),
{
    let step = visualization_steps();
    let start = VisualizationView::Fragment {
        vertex,
        build: shader_start(ShaderKind::Fragment, fragment_source).0,
    };
    let calls = shader_calls(ShaderKind::Fragment, fragment_source, answers).skip(1) + seq![
        CommandView::DeleteShader { shader: vertex },
    ];
    run_through_four(step, start, replies_of(answers));
    let found = run(step, start, replies_of(answers));
    assert(found is Some);
    assert(found.unwrap().1 =~= calls);
}

proof fn program_links(shaders: Seq<u32>, answers: Answers, others: Seq<ReplyView>)
    requires
        answers.status != 0,
    ensures
        run(
            visualization_steps(),
            VisualizationView::Program { shaders, link: program_start(shaders).0 },
            replies_of(answers) + others,
        ) == preceded(
            program_calls(shaders, answers).skip(1) + delete_all(shaders) + seq![
                CommandView::UseProgram { program: answers.name },
                CommandView::GenBuffers,
            ],
            run(
                visualization_steps(),
                VisualizationView::VertexBuffer { program: answers.name },
                others,
            ),
        ),
{
    let step = visualization_steps();
    let start = VisualizationView::Program { shaders, link: program_start(shaders).0 };
    let next = VisualizationView::VertexBuffer { program: answers.name };
    let calls = program_calls(shaders, answers).skip(1) + delete_all(shaders) + seq![
        CommandView::UseProgram { program: answers.name },
        CommandView::GenBuffers,
    ];
    let first = replies_of(answers)[0];
    let second = replies_of(answers)[1];
    assert(replies_of(answers) + others =~= seq![first, second] + others);
    run_through_two(step, start, first, second, others);
    let found = run(step, start, replies_of(answers) + others);
    match run(step, next, others) {
        None => {},
        Some((last, rest)) => {
            assert(found is Some);
            assert(found.unwrap().1 =~= calls + rest);
        },
    }
}

proof fn program_fails(shaders: Seq<u32>, answers: Answers)
    requires
        answers.status == 0,
        answers.log_length >= 0,
    ensures
        run(
            visualization_steps(),
            VisualizationView::Program { shaders, link: program_start(shaders).0 },
            replies_of(answers),
        ) == Some(
            (
                VisualizationView::Failed { log: log_text(answers.log) },
                program_calls(shaders, answers).skip(1) + delete_all(shaders),
            ),
        ),
{
    let step = visualization_steps();
    let start = VisualizationView::Program { shaders, link: program_start(shaders).0 };
    let calls = program_calls(shaders, answers).skip(1) + delete_all(shaders);
    run_through_four(step, start, replies_of(answers));
    let found = run(step, start, replies_of(answers));
    assert(found is Some);
    assert(found.unwrap().1 =~= calls);
}

proof fn quad_is_set_up(answers: PreparationAnswers)
    ensures
        run(
            visualization_steps(),
            VisualizationView::VertexBuffer { program: answers.program.name },
            quad_replies(answers),
        ) == Some((
            VisualizationView::Ready {
                prepared: Prepared {
                    program: answers.program.name,
                    vertex_array: answers.vertex_array,
                },
            },
            quad_calls(answers).skip(2),
        )),
{
    let step = visualization_steps();
    let program = answers.program.name;
    let vertex_buffer = answers.vertex_buffer;
    let vertex_array = answers.vertex_array;
    let r1 = ReplyView::Name(vertex_buffer);
    let r2 = ReplyView::Name(answers.element_buffer);
    let r3 = ReplyView::Name(vertex_array);
    let r4 = ReplyView::Value(answers.position);
    let r5 = ReplyView::Value(answers.texture);
    let s1 = VisualizationView::VertexBuffer { program };
    let s2 = VisualizationView::ElementBuffer { program, vertex_buffer };
    let s3 = VisualizationView::VertexArray { program, vertex_buffer };
    let s4 = VisualizationView::Position { program, vertex_array };
    let s5 = VisualizationView::TexCoord { program, vertex_array };
    assert(quad_replies(answers) =~= seq![r1] + seq![r2, r3, r4, r5]);
    assert(seq![r2, r3, r4, r5] =~= seq![r2] + seq![r3, r4, r5]);
    assert(seq![r3, r4, r5] =~= seq![r3] + seq![r4, r5]);
    assert(seq![r4, r5] =~= seq![r4] + seq![r5]);
    assert(seq![r5] =~= seq![r5] + Seq::<ReplyView>::empty());
    run_reply_by_reply(step, s1, r1, seq![r2, r3, r4, r5]);
    run_reply_by_reply(step, s2, r2, seq![r3, r4, r5]);
    run_reply_by_reply(step, s3, r3, seq![r4, r5]);
    run_reply_by_reply(step, s4, r4, seq![r5]);
    run_reply_by_reply(step, s5, r5, Seq::empty());
    let found = run(step, s1, quad_replies(answers));
    assert(found is Some);
    assert(found.unwrap().1 =~= quad_calls(answers).skip(2));
}

/// A preparation that is answered with `answers` makes the calls of
/// [`visualization_calls`], in that order and no others, and ends as
/// [`visualization_end`] says.
pub proof fn preparation_runs_as_answered(
    vertex_source: Seq<u8>,
    fragment_source: Seq<u8>,
    answers: PreparationAnswers,
)
    requires
        answers.vertex.status == 0 ==> answers.vertex.log_length >= 0,
        answers.fragment.status == 0 ==> answers.fragment.log_length >= 0,
        answers.program.status == 0 ==> answers.program.log_length >= 0,
    ensures
        session(
            visualization_start(vertex_source, fragment_source),
            visualization_steps(),
            visualization_replies(answers),
        ) == Some(
            (
                visualization_end(answers),
                visualization_calls(vertex_source, fragment_source, answers),
            ),
        ),
{
    let step = visualization_steps();
    let start = visualization_start(vertex_source, fragment_source);
    let shaders = seq![answers.vertex.name, answers.fragment.name];
    let found = session(start, step, visualization_replies(answers));
    let calls = visualization_calls(vertex_source, fragment_source, answers);
    if answers.vertex.status == 0 {
        vertex_shader_fails(vertex_source, fragment_source, answers.vertex);
        assert(found.unwrap().1 =~= calls);
    } else if answers.fragment.status == 0 {
        vertex_shader_compiles(
            vertex_source,
            fragment_source,
            answers.vertex,
            replies_of(answers.fragment),
        );
        fragment_shader_fails(answers.vertex.name, fragment_source, answers.fragment);
        assert(found.unwrap().1 =~= calls);
    } else if answers.program.status == 0 {
        let after_vertex = replies_of(answers.fragment) + replies_of(answers.program);
        assert(visualization_replies(answers) =~= replies_of(answers.vertex) + after_vertex);
        vertex_shader_compiles(vertex_source, fragment_source, answers.vertex, after_vertex);
        fragment_shader_compiles(
            answers.vertex.name,
            fragment_source,
            answers.fragment,
            replies_of(answers.program),
        );
        program_fails(shaders, answers.program);
        assert(found.unwrap().1 =~= calls);
    } else {
        let after_fragment = replies_of(answers.program) + quad_replies(answers);
        let after_vertex = replies_of(answers.fragment) + after_fragment;
        assert(visualization_replies(answers) =~= replies_of(answers.vertex) + after_vertex);
        vertex_shader_compiles(vertex_source, fragment_source, answers.vertex, after_vertex);
        fragment_shader_compiles(
            answers.vertex.name,
            fragment_source,
            answers.fragment,
            after_fragment,
        );
        program_links(shaders, answers.program, quad_replies(answers));
        quad_is_set_up(answers);
        assert(found.unwrap().1 =~= calls);
    }
}

/// The quad is four corners and two triangles over them: every index names a
/// corner, and the triangles share the diagonal from the first corner to the
/// third.
pub proof fn quad_is_two_triangles()
    ensures
        quad_vertices().len() == 4 * CORNER_NUMBERS,
        quad_elements().len() == 6,
        forall|i: int| 0 <= i < 6 ==> 0 <= #[trigger] quad_elements()[i] < 4,
        quad_elements()[0] == quad_elements()[5],
        quad_elements()[2] == quad_elements()[3],
{
}

/// Every corner of the quad is a corner of one of its triangles.
pub proof fn every_corner_is_drawn(corner: int)
    requires
        0 <= corner < 4,
    ensures
        exists|i: int| 0 <= i < 6 && #[trigger] quad_elements()[i] == corner,
{
    assert(quad_elements()[0] == 0);
    assert(quad_elements()[1] == 1);
    assert(quad_elements()[2] == 2);
    assert(quad_elements()[4] == 3);
}

/// The texture is laid over the quad upright: the texture coordinate of a
/// corner runs from 0 to 1 as its x runs from -1 to 1 and as its y runs from
/// 1 down to -1.
pub proof fn texture_follows_position(corner: int)
    requires
        0 <= corner < 4,
    ensures
        ({
            let x = quad_vertices()[CORNER_NUMBERS * corner];
            let y = quad_vertices()[CORNER_NUMBERS * corner + 1];
            let u = quad_vertices()[CORNER_NUMBERS * corner + 2];
            let v = quad_vertices()[CORNER_NUMBERS * corner + 3];
            &&& (x == -1 || x == 1)
            &&& (y == -1 || y == 1)
            &&& 2 * u == x + 1
            &&& 2 * v == 1 - y
        }),
{
    if corner == 0 {
    } else if corner == 1 {
    } else if corner == 2 {
    } else {
    }
}

/// The two attributes tile a corner: the position takes its first half, the
/// texture coordinate its second, and the stride is the whole of it.
pub proof fn attributes_tile_a_corner(position: i32, texture: i32)
    ensures
        describe_attribute(position, 0)[1] == (CommandView::VertexAttribPointer {
            index: attribute_index(position),
            size: 2,
            scalar: Scalar::Float,
            normalized: false,
            stride: 16,
            offset: 0,
        }),
        describe_attribute(texture, ATTRIBUTE_NUMBERS)[1] == (CommandView::VertexAttribPointer {
            index: attribute_index(texture),
            size: 2,
            scalar: Scalar::Float,
            normalized: false,
            stride: 16,
            offset: 8,
        }),
        2 * ATTRIBUTE_NUMBERS == CORNER_NUMBERS,
{
}

/// The corners of the quad.
pub fn vertices() -> (data: Vec<i32>)
    ensures
        data@ == quad_vertices(),
{
    let data: Vec<i32> = vec![-1, 1, 0, 0, 1, 1, 1, 0, 1, -1, 1, 1, -1, -1, 0, 1];
    assert(data@ =~= quad_vertices());
    data
}

/// The triangles of the quad.
pub fn elements() -> (data: Vec<i32>)
    ensures
        data@ == quad_elements(),
{
    let data: Vec<i32> = vec![0, 1, 2, 2, 3, 0];
    assert(data@ =~= quad_elements());
    data
}

/// The index to use for the attribute that OpenGL located at `location`.
pub fn index_of_location(location: i32) -> (index: u32)
    ensures
        index == attribute_index(location),
{
    if location >= 0 {
        location as u32
    } else {
        (location as i64 + 0x1_0000_0000) as u32
    }
}

fn issue(batch: &mut Vec<Command>, command: Command)
    ensures
        final(batch).deep_view() == old(batch).deep_view().push(command@),
{
    batch.push(command);
    assert(batch.deep_view() =~= old(batch).deep_view().push(command@));
}

fn extend(batch: &mut Vec<Command>, more: Vec<Command>)
    ensures
        final(batch).deep_view() == old(batch).deep_view() + more.deep_view(),
{
    let ghost added = more.deep_view();
    let mut more = more;
    batch.append(&mut more);
    assert(batch.deep_view() =~= old(batch).deep_view() + added);
}

fn delete_shaders(batch: &mut Vec<Command>, shaders: Vec<Shader>)
    ensures
        final(batch).deep_view() == old(batch).deep_view() + delete_all(shaders.deep_view()),
{
    let ghost all = shaders.deep_view();
    let ghost start = batch.deep_view();
    let mut rest = shaders;
    while rest.len() > 0
        invariant
            rest.len() <= all.len(),
            rest.deep_view() == all.skip(all.len() - rest.len()),
            batch.deep_view() == start + delete_all(all.take(all.len() - rest.len())),
        decreases rest.len(),
    {
        let ghost done = all.len() - rest.len();
        let ghost held = rest@;
        let ghost names = rest.deep_view();
        let shader = rest.remove(0);
        issue(batch, shader.delete());
        proof {
            assert(shader@ == names[0]);
            assert(names[0] == all[done]);
            assert forall|i: int| 0 <= i < rest.len() implies rest.deep_view()[i] == all.skip(
                done + 1,
            )[i] by {
                assert(rest@[i] == held[i + 1]);
                assert(names[i + 1] == all[done + i + 1]);
            }
            assert(rest.deep_view() =~= all.skip(done + 1));
            assert(delete_all(all.take(done + 1)) =~= delete_all(all.take(done)).push(
                CommandView::DeleteShader { shader: all[done] },
            ));
        }
    }
    assert(all.take(all.len() - rest.len()) =~= all);
}

fn push_upload(batch: &mut Vec<Command>, target: BufferTarget, data: Vec<i32>, scalar: Scalar)
    requires
        data.len() * SCALAR_BYTES <= isize::MAX,
    ensures
        final(batch).deep_view() == old(batch).deep_view().push(
            CommandView::BufferData {
                target,
                bytes: (data@.len() * SCALAR_BYTES) as isize,
                data: data@,
                scalar,
                usage: Usage::StaticDraw,
            },
        ),
{
    let bytes = (data.len() * SCALAR_BYTES) as isize;
    issue(batch, Command::BufferData { target, bytes, data, scalar, usage: Usage::StaticDraw });
}

fn push_attribute(batch: &mut Vec<Command>, location: i32, first: usize)
    requires
        first <= ATTRIBUTE_NUMBERS,
    ensures
        final(batch).deep_view() == old(batch).deep_view() + describe_attribute(location, first),
{
    let index = index_of_location(location);
    issue(batch, Command::EnableVertexAttribArray { index });
    issue(
        batch,
        Command::VertexAttribPointer {
            index,
            size: ATTRIBUTE_NUMBERS as i32,
            scalar: Scalar::Float,
            normalized: false,
            stride: (CORNER_NUMBERS * SCALAR_BYTES) as i32,
            offset: first * SCALAR_BYTES,
        },
    );
    assert(batch.deep_view() =~= old(batch).deep_view() + describe_attribute(location, first));
}

/// Starts the preparation of the canvas from the sources of its two shaders,
/// neither of which holds a zero byte.
pub fn prepare_visualization(vertex_source: Vec<u8>, fragment_source: Vec<u8>) -> (start: (
    Visualization,
    Vec<Command>,
))
    requires
        is_source(vertex_source@),
        is_source(fragment_source@),
    ensures
        start.deep_view() == visualization_start(vertex_source@, fragment_source@),
        start.0@.well_formed(),
{
    let (build, batch) = Shader::from_vert_source(vertex_source);
    (Visualization::Vertex { build, fragment_source }, batch)
}

/// The calls that draw one frame of the quad held by `vertex_array`.
pub fn render(vertex_array: u32) -> (batch: Vec<Command>)
    ensures
        batch.deep_view() == frame(vertex_array),
{
    let mut batch: Vec<Command> = Vec::new();
    issue(&mut batch, Command::BindVertexArray { array: vertex_array });
    issue(
                        &mut batch,
        Command::DrawElements {
            primitive: Primitive::Triangles,
            count: 6,
            scalar: Scalar::UnsignedInt,
        },
    );
    issue(&mut batch, Command::Flush);
    assert(batch.deep_view() =~= frame(vertex_array));
    batch
}

impl Visualization {
    /// Takes the reply to the last batch and moves on. The sources that go
    /// to OpenGL hold no zero byte.
    pub fn advance(self, reply: Reply) -> (next: Option<(Visualization, Vec<Command>)>)
        requires
            self@.well_formed(),
        ensures
            next.deep_view() == visualization_step(self@, reply@),
            next matches Some(pair) ==> pair.0@.well_formed(),
    {
        match self {
            Visualization::Vertex { build, fragment_source } => match build.advance(reply) {
                None => None,
                Some((ShaderBuild::Compiled(vertex), batch)) => {
                    let mut batch = batch;
                    let (build, first) = Shader::from_frag_source(fragment_source);
                    extend(&mut batch, first);
                    Some((Visualization::Fragment { vertex, build }, batch))
                },
                Some((ShaderBuild::Failed(log), batch)) => Some(
                    (Visualization::Failed(log), batch),
                ),
                Some((build, batch)) => Some(
                    (Visualization::Vertex { build, fragment_source }, batch),
                ),
            },
            Visualization::Fragment { vertex, build } => match build.advance(reply) {
                None => None,
                Some((ShaderBuild::Compiled(fragment), batch)) => {
                    let mut batch = batch;
                    let ghost pair = seq![vertex@, fragment@];
                    let mut shaders: Vec<Shader> = Vec::new();
                    shaders.push(vertex);
                    shaders.push(fragment);
                    assert(shaders.deep_view() =~= pair);
                    let listed = shaders.as_slice();
                    assert(listed.deep_view() =~= pair);
                    let (link, first) = ShaderProgram::from_shaders(listed);
                    extend(&mut batch, first);
                    Some((Visualization::Program { shaders, link }, batch))
                },
                Some((ShaderBuild::Failed(log), batch)) => {
                    let mut batch = batch;
                    let ghost before = batch.deep_view();
                    issue(&mut batch, vertex.delete());
                    assert(batch.deep_view() =~= before + seq![
                        CommandView::DeleteShader { shader: vertex@ },
                    ]);
                    Some((Visualization::Failed(log), batch))
                },
                Some((build, batch)) => Some((Visualization::Fragment { vertex, build }, batch)),
            },
            Visualization::Program { shaders, link } => match link.advance(reply) {
                None => None,
                Some((ProgramBuild::Linked(program), batch)) => {
                    let mut batch = batch;
                    delete_shaders(&mut batch, shaders);
                    let ghost before = batch.deep_view();
                    issue(&mut batch, program.use_program());
                    issue(&mut batch, Command::GenBuffers);
                    assert(batch.deep_view() =~= before + seq![
                        CommandView::UseProgram { program: program@ },
                        CommandView::GenBuffers,
                    ]);
                    Some((Visualization::VertexBuffer { program }, batch))
                },
                Some((ProgramBuild::Failed(log), batch)) => {
                    let mut batch = batch;
                    delete_shaders(&mut batch, shaders);
                    Some((Visualization::Failed(log), batch))
                },
                Some((link, batch)) => Some((Visualization::Program { shaders, link }, batch)),
            },
            Visualization::VertexBuffer { program } => match reply {
                Reply::Name(vertex_buffer) => {
                    let mut batch: Vec<Command> = Vec::new();
                    assert(quad_vertices().len() == 16);
                    issue(
                        &mut batch,
                        Command::BindBuffer { target: BufferTarget::Array, object: vertex_buffer },
                    );
                    push_upload(&mut batch, BufferTarget::Array, vertices(), Scalar::Float);
                    issue(
                        &mut batch,
                        Command::BindBuffer { target: BufferTarget::Array, object: 0 },
                    );
                    issue(&mut batch, Command::GenBuffers);
                    assert(batch.deep_view() =~= upload_vertices(vertex_buffer) + seq![
                        CommandView::GenBuffers,
                    ]);
                    Some((Visualization::ElementBuffer { program, vertex_buffer }, batch))
                },
                _ => None,
            },
            Visualization::ElementBuffer { program, vertex_buffer } => match reply {
                Reply::Name(element_buffer) => {
                    let mut batch: Vec<Command> = Vec::new();
                    assert(quad_elements().len() == 6);
                    issue(
                        &mut batch,
                        Command::BindBuffer {
                            target: BufferTarget::ElementArray,
                            object: element_buffer,
                        },
                    );
                    push_upload(
                        &mut batch,
                        BufferTarget::ElementArray,
                        elements(),
                        Scalar::UnsignedInt,
                    );
                    issue(
                        &mut batch,
                        Command::BindBuffer { target: BufferTarget::Array, object: 0 },
                    );
                    issue(&mut batch, Command::GenVertexArrays);
                    assert(batch.deep_view() =~= upload_elements(element_buffer) + seq![
                        CommandView::GenVertexArrays,
                    ]);
                    Some((Visualization::VertexArray { program, vertex_buffer }, batch))
                },
                _ => None,
            },
            Visualization::VertexArray { program, vertex_buffer } => match reply {
                Reply::Name(vertex_array) => {
                    let mut batch: Vec<Command> = Vec::new();
                    issue(&mut batch, Command::BindVertexArray { array: vertex_array });
                    issue(
                        &mut batch,
                        Command::BindBuffer { target: BufferTarget::Array, object: vertex_buffer },
                    );
                    issue(
                        &mut batch,
                        Command::BindFragDataLocation {
                            program: program.id(),
                            color: 0,
                            name: COLOR_OUTPUT,
                        },
                    );
                    issue(
                        &mut batch,
                        Command::GetAttribLocation {
                            program: program.id(),
                            name: POSITION_ATTRIBUTE,
                        },
                    );
                    assert(batch.deep_view() =~= visualization_step(
                        self@,
                        reply@,
                    ).unwrap().1);
                    Some((Visualization::Position { program, vertex_array }, batch))
                },
                _ => None,
            },
            Visualization::Position { program, vertex_array } => match reply {
                Reply::Value(location) => {
                    let mut batch: Vec<Command> = Vec::new();
                    push_attribute(&mut batch, location, 0);
                    issue(
                        &mut batch,
                        Command::GetAttribLocation {
                            program: program.id(),
                            name: TEXTURE_ATTRIBUTE,
                        },
                    );
                    assert(batch.deep_view() =~= visualization_step(
                        self@,
                        reply@,
                    ).unwrap().1);
                    Some((Visualization::TexCoord { program, vertex_array }, batch))
                },
                _ => None,
            },
            Visualization::TexCoord { program, vertex_array } => match reply {
                Reply::Value(location) => {
                    let mut batch: Vec<Command> = Vec::new();
                    push_attribute(&mut batch, location, ATTRIBUTE_NUMBERS);
                    let prepared = Prepared { program: program.id(), vertex_array };
                    issue(&mut batch, program.delete());
                    assert(batch.deep_view() =~= visualization_step(
                        self@,
                        reply@,
                    ).unwrap().1);
                    Some((Visualization::Ready(prepared), batch))
                },
                _ => None,
            },
            _ => None,
        }
    }

    /// The result of a preparation that has ended, `None` while it is under
    /// way.
    pub fn outcome(self) -> (outcome: Option<Result<Prepared, String>>)
        ensures
            match outcome {
                Some(Ok(prepared)) => self@ == (VisualizationView::Ready { prepared }),
                Some(Err(log)) => self@ == (VisualizationView::Failed { log: log@ }),
                None => !(self@ is Ready) && !(self@ is Failed),
            },
    {
        match self {
            Visualization::Ready(prepared) => Some(Ok(prepared)),
            Visualization::Failed(log) => Some(Err(log)),
            _ => None,
        }
    }
}

} // verus!
