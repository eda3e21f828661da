//! Building shaders and shader programs, one batch of OpenGL calls at a time.
//!
//! A build is a state machine. Starting one yields its first batch of
//! [`Command`]s; the driver performs the batch and hands the [`Reply`] of its
//! last call to `advance`, which yields the next state and the next batch.
//! A build has ended once its state is `Compiled` or `Failed` (`Linked` or
//! `Failed` for a program): the batch that came with that state is still to
//! be performed, and no reply is awaited after it.

use crate::calls::{
    run_through_four, run_through_two, session, Command, CommandView, Param, Reply, ReplyView,
    ShaderKind, Step,
};
use crate::info_log::{blank, blank_buffer, info_log_text, log_text};
use vstd::prelude::*;

verus! {

/// A compiled shader object, known by the name OpenGL gave it.
#[derive(Debug, PartialEq, Eq)]
pub struct Shader {
    id: u32,
}

impl View for Shader {
    type V = u32;

    closed spec fn view(&self) -> u32 {
        self.id
    }
}

impl DeepView for Shader {
    type V = u32;

    open spec fn deep_view(&self) -> u32 {
        self@
    }
}

/// How far the build of a shader has come.
#[derive(Debug, PartialEq, Eq)]
pub enum ShaderBuild {
    /// The shader object was asked for; its name is awaited.
    Creating { kind: ShaderKind, source: Vec<u8> },
    /// The source was handed over and compiled; the compile status is awaited.
    Compiling { shader: u32 },
    /// The compilation failed; the length of its log is awaited.
    Measuring { shader: u32 },
    /// The log was asked for; its bytes are awaited.
    Reading { shader: u32 },
    /// The build ended with a compiled shader.
    Compiled(Shader),
    /// The build ended with the log of a failed compilation.
    Failed(String),
}

/// The mathematical content of a [`ShaderBuild`].
pub enum ShaderBuildView {
    Creating { kind: ShaderKind, source: Seq<u8> },
    Compiling { shader: u32 },
    Measuring { shader: u32 },
    Reading { shader: u32 },
    Compiled { shader: u32 },
    Failed { log: Seq<char> },
}

impl View for ShaderBuild {
    type V = ShaderBuildView;

    open spec fn view(&self) -> ShaderBuildView {
        match *self {
            ShaderBuild::Creating { kind, source } => ShaderBuildView::Creating {
                kind,
                source: source@,
            },
            ShaderBuild::Compiling { shader } => ShaderBuildView::Compiling { shader },
            ShaderBuild::Measuring { shader } => ShaderBuildView::Measuring { shader },
            ShaderBuild::Reading { shader } => ShaderBuildView::Reading { shader },
            ShaderBuild::Compiled(shader) => ShaderBuildView::Compiled { shader: shader@ },
            ShaderBuild::Failed(log) => ShaderBuildView::Failed { log: log@ },
        }
    }
}

impl DeepView for ShaderBuild {
    type V = ShaderBuildView;

    open spec fn deep_view(&self) -> ShaderBuildView {
        self@
    }
}

/// Whether `source` can be handed to OpenGL as one string: no byte of it is
/// zero, which would end the string.
pub open spec fn is_source(source: Seq<u8>) -> bool {
    forall|i: int| 0 <= i < source.len() ==> source[i] != 0
}

impl ShaderBuildView {
    /// Whether the source that the build still holds is one.
    pub open spec fn well_formed(self) -> bool {
        self matches ShaderBuildView::Creating { source, .. } ==> is_source(source)
    }
}

/// Whether no byte of `source` is zero.
pub fn holds_no_zero(source: &Vec<u8>) -> (clean: bool)
    ensures
        clean == is_source(source@),
{
    let mut at: usize = 0;
    while at < source.len()
        invariant
            at <= source.len(),
            forall|i: int| 0 <= i < at ==> source@[i] != 0,
        decreases source.len() - at,
    {
        if source[at] == 0 {
            return false;
        }
        at = at + 1;
    }
    true
}

/// The state and the first batch of a shader build.
pub open spec fn shader_start(kind: ShaderKind, source: Seq<u8>) -> (
    ShaderBuildView,
    Seq<CommandView>,
) {
    (ShaderBuildView::Creating { kind, source }, seq![CommandView::CreateShader { kind }])
}

/// The state and the batch that follow `state` on `reply`, `None` where
/// `state` does not await such a reply.
///
/// A compile status of zero means failure, any other value success. A
/// negative log length is never awaited.
pub open spec fn shader_step(state: ShaderBuildView, reply: ReplyView) -> Option<
    (ShaderBuildView, Seq<CommandView>),
> {
    match (state, reply) {
        (ShaderBuildView::Creating { kind, source }, ReplyView::Name(shader)) => Some(
            (
                ShaderBuildView::Compiling { shader },
                seq![
                    CommandView::ShaderSource { shader, source },
                    CommandView::CompileShader { shader },
                    CommandView::GetShaderiv { shader, pname: Param::CompileStatus },
                ],
            ),
        ),
        (ShaderBuildView::Compiling { shader }, ReplyView::Value(status)) => if status == 0 {
            Some(
                (
                    ShaderBuildView::Measuring { shader },
                    seq![CommandView::GetShaderiv { shader, pname: Param::InfoLogLength }],
                ),
            )
        } else {
            Some((ShaderBuildView::Compiled { shader }, Seq::empty()))
        },
        (ShaderBuildView::Measuring { shader }, ReplyView::Value(length)) => if length >= 0 {
            Some(
                (
                    ShaderBuildView::Reading { shader },
                    seq![CommandView::GetShaderInfoLog { shader, buffer: blank(length as nat) }],
                ),
            )
        } else {
            None
        },
        (ShaderBuildView::Reading { shader }, ReplyView::Log(bytes)) => Some(
            (ShaderBuildView::Failed { log: log_text(bytes) }, Seq::empty()),
        ),
        _ => None,
    }
}

impl Shader {
    /// The name of the shader object.
    pub fn id(&self) -> (id: u32)
        ensures
            id == self@,
    {
        self.id
    }

    fn from_source(source: Vec<u8>, kind: ShaderKind) -> (start: (ShaderBuild, Vec<Command>))
        requires
            is_source(source@),
        ensures
            start.deep_view() == shader_start(kind, source@),
            start.0@.well_formed(),
    {
        let mut batch: Vec<Command> = Vec::new();
        batch.push(Command::CreateShader { kind });
        let start = (ShaderBuild::Creating { kind, source }, batch);
        assert(start.1.deep_view() =~= shader_start(kind, source@).1);
        start
    }

    /// Starts the build of a vertex shader from `source`, which holds no
    /// zero byte.
    pub fn from_vert_source(source: Vec<u8>) -> (start: (ShaderBuild, Vec<Command>))
        requires
            is_source(source@),
        ensures
            start.deep_view() == shader_start(ShaderKind::Vertex, source@),
            start.0@.well_formed(),
    {
        Shader::from_source(source, ShaderKind::Vertex)
    }

    /// Starts the build of a fragment shader from `source`, which holds no
    /// zero byte.
    pub fn from_frag_source(source: Vec<u8>) -> (start: (ShaderBuild, Vec<Command>))
        requires
            is_source(source@),
        ensures
            start.deep_view() == shader_start(ShaderKind::Fragment, source@),
            start.0@.well_formed(),
    {
        Shader::from_source(source, ShaderKind::Fragment)
    }

    /// Gives the shader up: the call that deletes its object.
    pub fn delete(self) -> (command: Command)
        ensures
            command@ == (CommandView::DeleteShader { shader: self@ }),
    {
        Command::DeleteShader { shader: self.id }
    }
}

impl ShaderBuild {
    /// Takes the reply to the last batch and moves on. The source that goes
    /// to OpenGL holds no zero byte.
    pub fn advance(self, reply: Reply) -> (next: Option<(ShaderBuild, Vec<Command>)>)
        requires
            self@.well_formed(),
        ensures
            next.deep_view() == shader_step(self@, reply@),
            next matches Some(pair) ==> pair.0@.well_formed(),
    {
        let mut batch: Vec<Command> = Vec::new();
        let next = match (self, reply) {
            (ShaderBuild::Creating { kind, source }, Reply::Name(shader)) => {
                batch.push(Command::ShaderSource { shader, source });
                batch.push(Command::CompileShader { shader });
                batch.push(Command::GetShaderiv { shader, pname: Param::CompileStatus });
                Some((ShaderBuild::Compiling { shader }, batch))
            },
            (ShaderBuild::Compiling { shader }, Reply::Value(status)) => {
                if status == 0 {
                    batch.push(Command::GetShaderiv { shader, pname: Param::InfoLogLength });
                    Some((ShaderBuild::Measuring { shader }, batch))
                } else {
                    Some((ShaderBuild::Compiled(Shader { id: shader }), batch))
                }
            },
            (ShaderBuild::Measuring { shader }, Reply::Value(length)) => {
                if length >= 0 {
                    let buffer = blank_buffer(length as usize);
                    batch.push(Command::GetShaderInfoLog { shader, buffer });
                    Some((ShaderBuild::Reading { shader }, batch))
                } else {
                    None
                }
            },
            (ShaderBuild::Reading { shader }, Reply::Log(bytes)) => {
                let log = info_log_text(&bytes);
                Some((ShaderBuild::Failed(log), batch))
            },
            _ => None,
        };
        proof {
            if next is Some {
                assert(next.unwrap().1.deep_view() =~= shader_step(self@, reply@).unwrap().1);
            }
        }
        next
    }

    /// The result of a build that has ended, `None` while it is under way.
    pub fn outcome(self) -> (outcome: Option<Result<Shader, String>>)
        ensures
            match outcome {
                Some(Ok(shader)) => self@ == (ShaderBuildView::Compiled { shader: shader@ }),
                Some(Err(log)) => self@ == (ShaderBuildView::Failed { log: log@ }),
                None => !(self@ is Compiled) && !(self@ is Failed),
            },
    {
        match self {
            ShaderBuild::Compiled(shader) => Some(Ok(shader)),
            ShaderBuild::Failed(log) => Some(Err(log)),
            _ => None,
        }
    }
}

/// What OpenGL answers in the course of one build, of a shader or of a
/// program: the name of the new object and its compile or link status; after
/// a status of zero also the length of the log, and the log.
pub struct Answers {
    pub name: u32,
    pub status: i32,
    pub log_length: i32,
    pub log: Seq<u8>,
}

/// The replies that carry `answers`, in the order in which a build awaits
/// them.
pub open spec fn replies_of(answers: Answers) -> Seq<ReplyView> {
    if answers.status != 0 {
        seq![ReplyView::Name(answers.name), ReplyView::Value(answers.status)]
    } else {
        seq![
            ReplyView::Name(answers.name),
            ReplyView::Value(answers.status),
            ReplyView::Value(answers.log_length),
            ReplyView::Log(answers.log),
        ]
    }
}

/// The steps of a shader build.
pub open spec fn shader_steps() -> Step<ShaderBuildView> {
    |state: ShaderBuildView, reply: ReplyView| shader_step(state, reply)
}

/// Every call of the build of a shader that OpenGL answers with `answers`:
/// create, hand over the source, compile, ask for the status; after a
/// failure, ask for the length of the log and read the log into a buffer of
/// that many spaces. The shader object of a failed build is not deleted.
pub open spec fn shader_calls(kind: ShaderKind, source: Seq<u8>, answers: Answers) -> Seq<
    CommandView,
> {
    let shader = answers.name;
    let compile = seq![
        CommandView::CreateShader { kind },
        CommandView::ShaderSource { shader, source },
        CommandView::CompileShader { shader },
        CommandView::GetShaderiv { shader, pname: Param::CompileStatus },
    ];
    if answers.status != 0 {
        compile
    } else {
        compile + seq![
            CommandView::GetShaderiv { shader, pname: Param::InfoLogLength },
            CommandView::GetShaderInfoLog { shader, buffer: blank(answers.log_length as nat) },
        ]
    }
}

/// Where the build of a shader that OpenGL answers with `answers` ends: with
/// the shader it named, or with the text of the log.
pub open spec fn shader_end(answers: Answers) -> ShaderBuildView {
    if answers.status != 0 {
        ShaderBuildView::Compiled { shader: answers.name }
    } else {
        ShaderBuildView::Failed { log: log_text(answers.log) }
    }
}

/// A shader build that is answered with `answers` makes the calls of
/// [`shader_calls`], in that order and no others, and ends as [`shader_end`]
/// says.
pub proof fn shader_build_runs_as_answered(kind: ShaderKind, source: Seq<u8>, answers: Answers)
    requires
        answers.status == 0 ==> answers.log_length >= 0,
    ensures
        session(shader_start(kind, source), shader_steps(), replies_of(answers)) == Some(
            (shader_end(answers), shader_calls(kind, source, answers)),
        ),
{
    let step = shader_steps();
    let start = shader_start(kind, source);
    let found = session(start, step, replies_of(answers));
    if answers.status != 0 {
        let none = Seq::<ReplyView>::empty();
        assert(replies_of(answers) =~= replies_of(answers) + none);
        run_through_two(step, start.0, replies_of(answers)[0], replies_of(answers)[1], none);
    } else {
        run_through_four(step, start.0, replies_of(answers));
    }
    assert(found is Some);
    assert(found.unwrap().1 =~= shader_calls(kind, source, answers));
}

/// A shader build that has ended awaits no reply.
pub proof fn ended_shader_build_awaits_nothing(state: ShaderBuildView, reply: ReplyView)
    requires
        state is Compiled || state is Failed,
    ensures
        shader_step(state, reply) is None,
{
}

/// A linked program object, known by the name OpenGL gave it.
#[derive(Debug, PartialEq, Eq)]
pub struct ShaderProgram {
    id: u32,
}

impl View for ShaderProgram {
    type V = u32;

    closed spec fn view(&self) -> u32 {
        self.id
    }
}

impl DeepView for ShaderProgram {
    type V = u32;

    open spec fn deep_view(&self) -> u32 {
        self@
    }
}

/// How far the build of a program has come.
#[derive(Debug, PartialEq, Eq)]
pub enum ProgramBuild {
    /// The program object was asked for; its name is awaited.
    Creating { shaders: Vec<u32> },
    /// The shaders were attached and the program linked; the link status is
    /// awaited.
    Linking { program: u32, shaders: Vec<u32> },
    /// The linking failed; the length of its log is awaited.
    Measuring { program: u32 },
    /// The log was asked for; its bytes are awaited.
    Reading { program: u32 },
    /// The build ended with a linked program.
    Linked(ShaderProgram),
    /// The build ended with the log of a failed linking.
    Failed(String),
}

/// The mathematical content of a [`ProgramBuild`].
pub enum ProgramBuildView {
    Creating { shaders: Seq<u32> },
    Linking { program: u32, shaders: Seq<u32> },
    Measuring { program: u32 },
    Reading { program: u32 },
    Linked { program: u32 },
    Failed { log: Seq<char> },
}

impl View for ProgramBuild {
    type V = ProgramBuildView;

    open spec fn view(&self) -> ProgramBuildView {
        match *self {
            ProgramBuild::Creating { shaders } => ProgramBuildView::Creating { shaders: shaders@ },
            ProgramBuild::Linking { program, shaders } => ProgramBuildView::Linking {
                program,
                shaders: shaders@,
            },
            ProgramBuild::Measuring { program } => ProgramBuildView::Measuring { program },
            ProgramBuild::Reading { program } => ProgramBuildView::Reading { program },
            ProgramBuild::Linked(program) => ProgramBuildView::Linked { program: program@ },
            ProgramBuild::Failed(log) => ProgramBuildView::Failed { log: log@ },
        }
    }
}

impl DeepView for ProgramBuild {
    type V = ProgramBuildView;

    open spec fn deep_view(&self) -> ProgramBuildView {
        self@
    }
}

/// One call per shader, in the order of `shaders`, that attaches it to
/// `program`.
pub open spec fn attach_all(program: u32, shaders: Seq<u32>) -> Seq<CommandView> {
    Seq::new(shaders.len(), |i: int| CommandView::AttachShader { program, shader: shaders[i] })
}

/// One call per shader, in the order of `shaders`, that detaches it from
/// `program`.
pub open spec fn detach_all(program: u32, shaders: Seq<u32>) -> Seq<CommandView> {
    Seq::new(shaders.len(), |i: int| CommandView::DetachShader { program, shader: shaders[i] })
}

/// The state and the first batch of the build of a program from the shaders
/// named `shaders`.
pub open spec fn program_start(shaders: Seq<u32>) -> (ProgramBuildView, Seq<CommandView>) {
    (ProgramBuildView::Creating { shaders }, seq![CommandView::CreateProgram])
}

/// The state and the batch that follow `state` on `reply`, `None` where
/// `state` does not await such a reply.
///
/// A link status of zero means failure, any other value success. The
/// shaders are detached again only after a successful linking. A negative
/// log length is never awaited.
pub open spec fn program_step(state: ProgramBuildView, reply: ReplyView) -> Option<
    (ProgramBuildView, Seq<CommandView>),
> {
    match (state, reply) {
        (ProgramBuildView::Creating { shaders }, ReplyView::Name(program)) => Some(
            (
                ProgramBuildView::Linking { program, shaders },
                attach_all(program, shaders) + seq![
                    CommandView::LinkProgram { program },
                    CommandView::GetProgramiv { program, pname: Param::LinkStatus },
                ],
            ),
        ),
        (ProgramBuildView::Linking { program, shaders }, ReplyView::Value(status)) => if status
            == 0 {
            Some(
                (
                    ProgramBuildView::Measuring { program },
                    seq![CommandView::GetProgramiv { program, pname: Param::InfoLogLength }],
                ),
            )
        } else {
            Some((ProgramBuildView::Linked { program }, detach_all(program, shaders)))
        },
        (ProgramBuildView::Measuring { program }, ReplyView::Value(length)) => if length >= 0 {
            Some(
                (
                    ProgramBuildView::Reading { program },
                    seq![CommandView::GetProgramInfoLog { program, buffer: blank(length as nat) }],
                ),
            )
        } else {
            None
        },
        (ProgramBuildView::Reading { program }, ReplyView::Log(bytes)) => Some(
            (ProgramBuildView::Failed { log: log_text(bytes) }, Seq::empty()),
        ),
        _ => None,
    }
}

impl ShaderProgram {
    /// Starts the build of a program from `shaders`, which stay with the
    /// caller.
    pub fn from_shaders(shaders: &[Shader]) -> (start: (ProgramBuild, Vec<Command>))
        ensures
            start.deep_view() == program_start(shaders.deep_view()),
    {
        let mut names: Vec<u32> = Vec::new();
        let mut taken: usize = 0;
        while taken < shaders.len()
            invariant
                taken <= shaders.len(),
                names@ == shaders.deep_view().take(taken as int),
            decreases shaders.len() - taken,
        {
            names.push(shaders[taken].id());
            taken = taken + 1;
        }
        assert(names@ == shaders.deep_view());
        let mut batch: Vec<Command> = Vec::new();
        batch.push(Command::CreateProgram);
        let start = (ProgramBuild::Creating { shaders: names }, batch);
        assert(start.1.deep_view() =~= program_start(shaders.deep_view()).1);
        start
    }

    /// The name of the program object.
    pub fn id(&self) -> (id: u32)
        ensures
            id == self@,
    {
        self.id
    }

    /// The call that makes the program the one in use.
    pub fn use_program(&self) -> (command: Command)
        ensures
            command@ == (CommandView::UseProgram { program: self@ }),
    {
        Command::UseProgram { program: self.id }
    }

    /// Gives the program up: the call that deletes its object.
    pub fn delete(self) -> (command: Command)
        ensures
            command@ == (CommandView::DeleteProgram { program: self@ }),
    {
        Command::DeleteProgram { program: self.id }
    }
}

impl ProgramBuild {
    /// Takes the reply to the last batch and moves on.
    pub fn advance(self, reply: Reply) -> (next: Option<(ProgramBuild, Vec<Command>)>)
        ensures
            next.deep_view() == program_step(self@, reply@),
    {
        let mut batch: Vec<Command> = Vec::new();
        let next = match (self, reply) {
            (ProgramBuild::Creating { shaders }, Reply::Name(program)) => {
                let mut done: usize = 0;
                while done < shaders.len()
                    invariant
                        done <= shaders.len(),
                        batch@.len() == done,
                        forall|i: int|
                            0 <= i < done ==> (#[trigger] batch@[i])@ == attach_all(
                                program,
                                shaders@,
                            )[i],
                    decreases shaders.len() - done,
                {
                    batch.push(Command::AttachShader { program, shader: shaders[done] });
                    done = done + 1;
                }
                assert(batch.deep_view() =~= attach_all(program, shaders@));
                batch.push(Command::LinkProgram { program });
                batch.push(Command::GetProgramiv { program, pname: Param::LinkStatus });
                Some((ProgramBuild::Linking { program, shaders }, batch))
            },
            (ProgramBuild::Linking { program, shaders }, Reply::Value(status)) => {
                if status == 0 {
                    batch.push(Command::GetProgramiv { program, pname: Param::InfoLogLength });
                    Some((ProgramBuild::Measuring { program }, batch))
                } else {
                    let mut done: usize = 0;
                    while done < shaders.len()
                        invariant
                            done <= shaders.len(),
                            batch@.len() == done,
                            forall|i: int|
                                0 <= i < done ==> (#[trigger] batch@[i])@ == detach_all(
                                    program,
                                    shaders@,
                                )[i],
                        decreases shaders.len() - done,
                    {
                        batch.push(Command::DetachShader { program, shader: shaders[done] });
                        done = done + 1;
                    }
                    assert(batch.deep_view() =~= detach_all(program, shaders@));
                    Some((ProgramBuild::Linked(ShaderProgram { id: program }), batch))
                }
            },
            (ProgramBuild::Measuring { program }, Reply::Value(length)) => {
                if length >= 0 {
                    let buffer = blank_buffer(length as usize);
                    batch.push(Command::GetProgramInfoLog { program, buffer });
                    Some((ProgramBuild::Reading { program }, batch))
                } else {
                    None
                }
            },
            (ProgramBuild::Reading { program }, Reply::Log(bytes)) => {
                let log = info_log_text(&bytes);
                Some((ProgramBuild::Failed(log), batch))
            },
            _ => None,
        };
        proof {
            if next is Some {
                assert(next.unwrap().1.deep_view() =~= program_step(self@, reply@).unwrap().1);
            }
        }
        next
    }

    /// The result of a build that has ended, `None` while it is under way.
    pub fn outcome(self) -> (outcome: Option<Result<ShaderProgram, String>>)
        ensures
            match outcome {
                Some(Ok(program)) => self@ == (ProgramBuildView::Linked { program: program@ }),
                Some(Err(log)) => self@ == (ProgramBuildView::Failed { log: log@ }),
                None => !(self@ is Linked) && !(self@ is Failed),
            },
    {
        match self {
            ProgramBuild::Linked(program) => Some(Ok(program)),
            ProgramBuild::Failed(log) => Some(Err(log)),
            _ => None,
        }
    }
}

/// The steps of a program build.
pub open spec fn program_steps() -> Step<ProgramBuildView> {
    |state: ProgramBuildView, reply: ReplyView| program_step(state, reply)
}

/// Every call of the build of a program from `shaders` that OpenGL answers
/// with `answers`: create, attach each shader, link, ask for the status;
/// after a success, detach each shader; after a failure, ask for the length
/// of the log and read the log into a buffer of that many spaces. After a
/// failure the shaders stay attached and the program object is not deleted.
pub open spec fn program_calls(shaders: Seq<u32>, answers: Answers) -> Seq<CommandView> {
    let program = answers.name;
    let link = seq![CommandView::CreateProgram] + attach_all(program, shaders) + seq![
        CommandView::LinkProgram { program },
        CommandView::GetProgramiv { program, pname: Param::LinkStatus },
    ];
    if answers.status != 0 {
        link + detach_all(program, shaders)
    } else {
        link + seq![
            CommandView::GetProgramiv { program, pname: Param::InfoLogLength },
            CommandView::GetProgramInfoLog { program, buffer: blank(answers.log_length as nat) },
        ]
    }
}

/// Where the build of a program that OpenGL answers with `answers` ends:
/// with the program it named, or with the text of the log.
pub open spec fn program_end(answers: Answers) -> ProgramBuildView {
    if answers.status != 0 {
        ProgramBuildView::Linked { program: answers.name }
    } else {
        ProgramBuildView::Failed { log: log_text(answers.log) }
    }
}

/// A program build that is answered with `answers` makes the calls of
/// [`program_calls`], in that order and no others, and ends as
/// [`program_end`] says.
pub proof fn program_build_runs_as_answered(shaders: Seq<u32>, answers: Answers)
    requires
        answers.status == 0 ==> answers.log_length >= 0,
    ensures
        session(program_start(shaders), program_steps(), replies_of(answers)) == Some(
            (program_end(answers), program_calls(shaders, answers)),
        ),
{
    let step = program_steps();
    let start = program_start(shaders);
    let found = session(start, step, replies_of(answers));
    if answers.status != 0 {
        let none = Seq::<ReplyView>::empty();
        assert(replies_of(answers) =~= replies_of(answers) + none);
        run_through_two(step, start.0, replies_of(answers)[0], replies_of(answers)[1], none);
    } else {
        run_through_four(step, start.0, replies_of(answers));
    }
    assert(found is Some);
    assert(found.unwrap().1 =~= program_calls(shaders, answers));
}

/// A program build that has ended awaits no reply.
pub proof fn ended_program_build_awaits_nothing(state: ProgramBuildView, reply: ReplyView)
    requires
        state is Linked || state is Failed,
    ensures
        program_step(state, reply) is None,
{
}

} // verus!
