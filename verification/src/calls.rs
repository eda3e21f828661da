//! The OpenGL calls that this crate asks its driver to make, and the replies
//! that it takes back.
//!
//! Nothing here touches OpenGL. A build hands out [`Command`]s; the driver
//! performs each of them in order on the current context and answers with the
//! [`Reply`] of the last one.

use vstd::prelude::*;

verus! {

/// The two kinds of shader object that a build can create.
#[derive(Clone, Copy, Debug, PartialEq, Eq, Structural)]
pub enum ShaderKind {
    Vertex,
    Fragment,
}

/// An integer parameter of a shader or program object that a build asks for.
#[derive(Clone, Copy, Debug, PartialEq, Eq, Structural)]
pub enum Param {
    /// Of a shader: zero where its last compilation failed.
    CompileStatus,
    /// Of a program: zero where its last linking failed.
    LinkStatus,
    /// The length of the information log, its terminator included.
    InfoLogLength,
}

impl Param {
    /// The value to hold ready where OpenGL is to write the parameter. It
    /// stands if OpenGL writes none: a status then counts as success, a log
    /// as empty.
    pub fn initial(self) -> (value: i32)
        ensures
            value == (if self == Param::InfoLogLength {
                0i32
            } else {
                1i32
            }),
    {
        match self {
            Param::CompileStatus => 1,
            Param::LinkStatus => 1,
            Param::InfoLogLength => 0,
        }
    }
}

/// The binding point of a buffer object.
#[derive(Clone, Copy, Debug, PartialEq, Eq, Structural)]
pub enum BufferTarget {
    Array,
    ElementArray,
}

/// How OpenGL is to take each number of an upload, an attribute or an index
/// list. This crate writes every number as an integer; one tagged `Float`
/// stands for the 32-bit float of the same value.
#[derive(Clone, Copy, Debug, PartialEq, Eq, Structural)]
pub enum Scalar {
    Float,
    UnsignedInt,
}

/// The usage hint of a buffer upload.
#[derive(Clone, Copy, Debug, PartialEq, Eq, Structural)]
pub enum Usage {
    StaticDraw,
}

/// The primitive that a draw call assembles.
#[derive(Clone, Copy, Debug, PartialEq, Eq, Structural)]
pub enum Primitive {
    Triangles,
}

/// One OpenGL call, named after the function that the driver is to call.
#[derive(Debug, PartialEq, Eq)]
pub enum Command {
    /// Create a shader object; answered by [`Reply::Name`].
    CreateShader { kind: ShaderKind },
    /// Replace the source of a shader by the one string `source`.
    ShaderSource { shader: u32, source: Vec<u8> },
    CompileShader { shader: u32 },
    /// Read an integer parameter of a shader; answered by [`Reply::Value`].
    GetShaderiv { shader: u32, pname: Param },
    /// Copy the information log of a shader into `buffer`, whose length is
    /// the size offered to OpenGL; answered by [`Reply::Log`].
    GetShaderInfoLog { shader: u32, buffer: Vec<u8> },
    DeleteShader { shader: u32 },
    /// Create a program object; answered by [`Reply::Name`].
    CreateProgram,
    AttachShader { program: u32, shader: u32 },
    LinkProgram { program: u32 },
    /// Read an integer parameter of a program; answered by [`Reply::Value`].
    GetProgramiv { program: u32, pname: Param },
    /// Copy the information log of a program into `buffer`, whose length is
    /// the size offered to OpenGL; answered by [`Reply::Log`].
    GetProgramInfoLog { program: u32, buffer: Vec<u8> },
    DetachShader { program: u32, shader: u32 },
    UseProgram { program: u32 },
    DeleteProgram { program: u32 },
    /// Create one buffer object; answered by [`Reply::Name`].
    GenBuffers,
    BindBuffer { target: BufferTarget, object: u32 },
    /// Fill the buffer bound to `target` with `data`, each number encoded as
    /// `scalar` says; `bytes` is the length of the encoded data.
    BufferData { target: BufferTarget, bytes: isize, data: Vec<i32>, scalar: Scalar, usage: Usage },
    /// Create one vertex array object; answered by [`Reply::Name`].
    GenVertexArrays,
    BindVertexArray { array: u32 },
    BindFragDataLocation { program: u32, color: u32, name: &'static str },
    /// Look up a vertex attribute by name; answered by [`Reply::Value`].
    GetAttribLocation { program: u32, name: &'static str },
    EnableVertexAttribArray { index: u32 },
    /// Describe attribute `index` of the bound array buffer: `size` numbers
    /// per vertex, `stride` bytes from one vertex to the next, the first at
    /// byte `offset`.
    VertexAttribPointer {
        index: u32,
        size: i32,
        scalar: Scalar,
        normalized: bool,
        stride: i32,
        offset: usize,
    },
    /// Draw `count` indices of the bound element buffer, from its start.
    DrawElements { primitive: Primitive, count: i32, scalar: Scalar },
    Flush,
}

/// What OpenGL handed back for the last command of a batch.
#[derive(Debug, PartialEq, Eq)]
pub enum Reply {
    /// The name of a newly created object.
    Name(u32),
    /// An integer parameter.
    Value(i32),
    /// The buffer of an information log request, as OpenGL left it.
    Log(Vec<u8>),
}

/// The mathematical content of a [`Command`].
pub enum CommandView {
    CreateShader { kind: ShaderKind },
    ShaderSource { shader: u32, source: Seq<u8> },
    CompileShader { shader: u32 },
    GetShaderiv { shader: u32, pname: Param },
    GetShaderInfoLog { shader: u32, buffer: Seq<u8> },
    DeleteShader { shader: u32 },
    CreateProgram,
    AttachShader { program: u32, shader: u32 },
    LinkProgram { program: u32 },
    GetProgramiv { program: u32, pname: Param },
    GetProgramInfoLog { program: u32, buffer: Seq<u8> },
    DetachShader { program: u32, shader: u32 },
    UseProgram { program: u32 },
    DeleteProgram { program: u32 },
    GenBuffers,
    BindBuffer { target: BufferTarget, object: u32 },
    BufferData { target: BufferTarget, bytes: isize, data: Seq<i32>, scalar: Scalar, usage: Usage },
    GenVertexArrays,
    BindVertexArray { array: u32 },
    BindFragDataLocation { program: u32, color: u32, name: Seq<char> },
    GetAttribLocation { program: u32, name: Seq<char> },
    EnableVertexAttribArray { index: u32 },
    VertexAttribPointer {
        index: u32,
        size: i32,
        scalar: Scalar,
        normalized: bool,
        stride: i32,
        offset: usize,
    },
    DrawElements { primitive: Primitive, count: i32, scalar: Scalar },
    Flush,
}

/// The mathematical content of a [`Reply`].
pub enum ReplyView {
    Name(u32),
    Value(i32),
    Log(Seq<u8>),
}

impl View for Command {
    type V = CommandView;

    open spec fn view(&self) -> CommandView {
        match *self {
            Command::CreateShader { kind } => CommandView::CreateShader { kind },
            Command::ShaderSource { shader, source } => CommandView::ShaderSource {
                shader,
                source: source@,
            },
            Command::CompileShader { shader } => CommandView::CompileShader { shader },
            Command::GetShaderiv { shader, pname } => CommandView::GetShaderiv { shader, pname },
            Command::GetShaderInfoLog { shader, buffer } => CommandView::GetShaderInfoLog {
                shader,
                buffer: buffer@,
            },
            Command::DeleteShader { shader } => CommandView::DeleteShader { shader },
            Command::CreateProgram => CommandView::CreateProgram,
            Command::AttachShader { program, shader } => CommandView::AttachShader {
                program,
                shader,
            },
            Command::LinkProgram { program } => CommandView::LinkProgram { program },
            Command::GetProgramiv { program, pname } => CommandView::GetProgramiv {
                program,
                pname,
            },
            Command::GetProgramInfoLog { program, buffer } => CommandView::GetProgramInfoLog {
                program,
                buffer: buffer@,
            },
            Command::DetachShader { program, shader } => CommandView::DetachShader {
                program,
                shader,
            },
            Command::UseProgram { program } => CommandView::UseProgram { program },
            Command::DeleteProgram { program } => CommandView::DeleteProgram { program },
            Command::GenBuffers => CommandView::GenBuffers,
            Command::BindBuffer { target, object } => CommandView::BindBuffer { target, object },
            Command::BufferData { target, bytes, data, scalar, usage } => CommandView::BufferData {
                target,
                bytes,
                data: data@,
                scalar,
                usage,
            },
            Command::GenVertexArrays => CommandView::GenVertexArrays,
            Command::BindVertexArray { array } => CommandView::BindVertexArray { array },
            Command::BindFragDataLocation {
                program,
                color,
                name,
            } => CommandView::BindFragDataLocation { program, color, name: name@ },
            Command::GetAttribLocation { program, name } => CommandView::GetAttribLocation {
                program,
                name: name@,
            },
            Command::EnableVertexAttribArray { index } => CommandView::EnableVertexAttribArray {
                index,
            },
            Command::VertexAttribPointer {
                index,
                size,
                scalar,
                normalized,
                stride,
                offset,
            } => CommandView::VertexAttribPointer {
                index,
                size,
                scalar,
                normalized,
                stride,
                offset,
            },
            Command::DrawElements { primitive, count, scalar } => CommandView::DrawElements {
                primitive,
                count,
                scalar,
            },
            Command::Flush => CommandView::Flush,
        }
    }
}

impl DeepView for Command {
    type V = CommandView;

    open spec fn deep_view(&self) -> CommandView {
        self@
    }
}

impl View for Reply {
    type V = ReplyView;

    open spec fn view(&self) -> ReplyView {
        match *self {
            Reply::Name(name) => ReplyView::Name(name),
            Reply::Value(value) => ReplyView::Value(value),
            Reply::Log(bytes) => ReplyView::Log(bytes@),
        }
    }
}

impl DeepView for Reply {
    type V = ReplyView;

    open spec fn deep_view(&self) -> ReplyView {
        self@
    }
}

/// A build as its driver sees it: from a state and a reply to the next state
/// and batch, or `None` for a reply that the state does not await.
pub type Step<S> = spec_fn(S, ReplyView) -> Option<(S, Seq<CommandView>)>;

/// Where a build that stands at `state` gets to on `replies`, one per batch,
/// and every call that it asks for on the way; `None` once a reply is not
/// awaited.
pub open spec fn run<S>(step: Step<S>, state: S, replies: Seq<ReplyView>) -> Option<
    (S, Seq<CommandView>),
>
    decreases replies.len(),
{
    if replies.len() == 0 {
        Some((state, Seq::empty()))
    } else {
        match step(state, replies.first()) {
            None => None,
            Some((next, batch)) => match run(step, next, replies.drop_first()) {
                None => None,
                Some((last, rest)) => Some((last, batch + rest)),
            },
        }
    }
}

/// A build from its start: the first batch, then the run on `replies`.
pub open spec fn session<S>(
    start: (S, Seq<CommandView>),
    step: Step<S>,
    replies: Seq<ReplyView>,
) -> Option<(S, Seq<CommandView>)> {
    preceded(start.1, run(step, start.0, replies))
}

/// A run takes its replies one by one: the first decides the next state and
/// batch, the others go to the run from there.
pub proof fn run_reply_by_reply<S>(
    step: Step<S>,
    state: S,
    reply: ReplyView,
    others: Seq<ReplyView>,
)
    ensures
        run(step, state, seq![reply] + others) == match step(state, reply) {
            None => None,
            Some((next, batch)) => match run(step, next, others) {
                None => None,
                Some((last, rest)) => Some((last, batch + rest)),
            },
        },
{
    let replies = seq![reply] + others;
    assert(replies.first() == reply);
    assert(replies.drop_first() =~= others);
}

/// `calls`, then what `outcome` asks for.
pub open spec fn preceded<S>(calls: Seq<CommandView>, outcome: Option<(S, Seq<CommandView>)>)
    -> Option<(S, Seq<CommandView>)> {
    match outcome {
        None => None,
        Some((last, rest)) => Some((last, calls + rest)),
    }
}

/// A run whose first two replies are awaited goes through both steps and on
/// from there.
pub proof fn run_through_two<S>(
    step: Step<S>,
    start: S,
    first: ReplyView,
    second: ReplyView,
    others: Seq<ReplyView>,
)
    requires
        step(start, first) is Some,
        step(step(start, first).unwrap().0, second) is Some,
    ensures
        run(step, start, seq![first, second] + others) == preceded(
            step(start, first).unwrap().1 + step(step(start, first).unwrap().0, second).unwrap().1,
            run(step, step(step(start, first).unwrap().0, second).unwrap().0, others),
        ),
{
    let (middle, batch) = step(start, first).unwrap();
    let (next, more) = step(middle, second).unwrap();
    assert(seq![first, second] + others =~= seq![first] + (seq![second] + others));
    run_reply_by_reply(step, start, first, seq![second] + others);
    run_reply_by_reply(step, middle, second, others);
    match run(step, next, others) {
        None => {},
        Some((last, rest)) => {
            assert(batch + (more + rest) =~= (batch + more) + rest);
        },
    }
}

/// A run on four replies that are each awaited goes through the four steps
/// and asks for their batches one after the other.
pub proof fn run_through_four<S>(step: Step<S>, start: S, replies: Seq<ReplyView>)
    requires
        replies.len() == 4,
        step(start, replies[0]) is Some,
        step(step(start, replies[0]).unwrap().0, replies[1]) is Some,
        step(
            step(step(start, replies[0]).unwrap().0, replies[1]).unwrap().0,
            replies[2],
        ) is Some,
        step(
            step(
                step(step(start, replies[0]).unwrap().0, replies[1]).unwrap().0,
                replies[2],
            ).unwrap().0,
            replies[3],
        ) is Some,
    ensures
        ({
            let one = step(start, replies[0]).unwrap();
            let two = step(one.0, replies[1]).unwrap();
            let three = step(two.0, replies[2]).unwrap();
            let four = step(three.0, replies[3]).unwrap();
            run(step, start, replies) == Some((four.0, one.1 + two.1 + three.1 + four.1))
        }),
{
    let one = step(start, replies[0]).unwrap();
    let two = step(one.0, replies[1]).unwrap();
    let three = step(two.0, replies[2]).unwrap();
    let four = step(three.0, replies[3]).unwrap();
    let tail = seq![replies[2], replies[3]];
    assert(replies =~= seq![replies[0], replies[1]] + tail);
    assert(tail =~= tail + Seq::<ReplyView>::empty());
    run_through_two(step, start, replies[0], replies[1], tail);
    run_through_two(step, two.0, replies[2], replies[3], Seq::empty());
    assert((three.1 + four.1) + Seq::<CommandView>::empty() =~= three.1 + four.1);
    assert((one.1 + two.1) + (three.1 + four.1) =~= one.1 + two.1 + three.1 + four.1);
}

} // verus!
