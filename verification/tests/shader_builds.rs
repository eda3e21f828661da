use nn_canvas::calls::{Command, Param, Reply, ShaderKind};
use nn_canvas::info_log::{blank_buffer, info_log_text};
use nn_canvas::shader_routines::{
    holds_no_zero, ProgramBuild, Shader, ShaderBuild, ShaderProgram,
};

fn compiled(name: u32) -> Shader {
    let (build, _) = Shader::from_vert_source(b"void main() {}".to_vec());
    let (build, _) = build.advance(Reply::Name(name)).unwrap();
    let (build, _) = build.advance(Reply::Value(1)).unwrap();
    build.outcome().unwrap().unwrap()
}

#[test]
fn source_holds_no_zero_byte() {
    assert!(holds_no_zero(&Vec::new()));
    assert!(holds_no_zero(&b"void main() {}".to_vec()));
    assert!(holds_no_zero(&vec![1, 255, 128]));
    assert!(!holds_no_zero(&vec![0]));
    assert!(!holds_no_zero(&b"void\0main".to_vec()));
    assert!(!holds_no_zero(&vec![b'a', b'b', 0]));
    assert!(!holds_no_zero(&vec![0, b'a']));
}

#[test]
fn info_log_reads_as_its_text() {
    assert_eq!(info_log_text(&Vec::new()), "");
    assert_eq!(info_log_text(&b"oops\0".to_vec()), "oops\0");
    assert_eq!(info_log_text(&"é".as_bytes().to_vec()), "é");
    assert_eq!(info_log_text(&vec![b'a', 0xff]), "a\u{fffd}");
}

#[test]
fn empty_buffer_is_all_spaces() {
    assert_eq!(blank_buffer(0), Vec::<u8>::new());
    assert_eq!(blank_buffer(1), vec![b' ']);
    assert_eq!(blank_buffer(5), b"     ".to_vec());
    assert_eq!(blank_buffer(300).len(), 300);
    assert!(blank_buffer(300).iter().all(|byte| *byte == 0x20));
}

#[test]
fn unwritten_status_counts_as_success_and_unwritten_length_as_zero() {
    assert_eq!(Param::CompileStatus.initial(), 1);
    assert_eq!(Param::LinkStatus.initial(), 1);
    assert_eq!(Param::InfoLogLength.initial(), 0);
}

#[test]
fn vertex_build_starts_by_creating_a_vertex_shader() {
    let source = b"void main() {}".to_vec();
    let (build, batch) = Shader::from_vert_source(source.clone());
    assert_eq!(batch, vec![Command::CreateShader { kind: ShaderKind::Vertex }]);
    assert_eq!(build, ShaderBuild::Creating { kind: ShaderKind::Vertex, source });
}

#[test]
fn fragment_build_starts_by_creating_a_fragment_shader() {
    let source = b"void main() {}".to_vec();
    let (build, batch) = Shader::from_frag_source(source.clone());
    assert_eq!(batch, vec![Command::CreateShader { kind: ShaderKind::Fragment }]);
    assert_eq!(build, ShaderBuild::Creating { kind: ShaderKind::Fragment, source });
}

#[test]
fn named_shader_gets_its_source_and_is_compiled() {
    let source = b"void main() { gl_Position = vec4(0.0); }".to_vec();
    let (build, _) = Shader::from_vert_source(source.clone());
    let (build, batch) = build.advance(Reply::Name(7)).unwrap();
    assert_eq!(build, ShaderBuild::Compiling { shader: 7 });
    assert_eq!(
        batch,
        vec![
            Command::ShaderSource { shader: 7, source },
            Command::CompileShader { shader: 7 },
            Command::GetShaderiv { shader: 7, pname: Param::CompileStatus },
        ]
    );
}

#[test]
fn any_status_but_zero_is_a_compiled_shader() {
    for status in [1, -1, 2, i32::MAX, i32::MIN] {
        let (build, _) = Shader::from_frag_source(Vec::new());
        let (build, _) = build.advance(Reply::Name(12)).unwrap();
        let (build, batch) = build.advance(Reply::Value(status)).unwrap();
        assert_eq!(batch, Vec::<Command>::new());
        let shader = build.outcome().unwrap().unwrap();
        assert_eq!(shader.id(), 12);
    }
}

#[test]
fn failed_compilation_reads_the_log() {
    let (build, _) = Shader::from_vert_source(b"nonsense".to_vec());
    let (build, _) = build.advance(Reply::Name(3)).unwrap();
    let (build, batch) = build.advance(Reply::Value(0)).unwrap();
    assert_eq!(build, ShaderBuild::Measuring { shader: 3 });
    assert_eq!(batch, vec![Command::GetShaderiv { shader: 3, pname: Param::InfoLogLength }]);
    let (build, batch) = build.advance(Reply::Value(6)).unwrap();
    assert_eq!(build, ShaderBuild::Reading { shader: 3 });
    assert_eq!(batch, vec![Command::GetShaderInfoLog { shader: 3, buffer: b"      ".to_vec() }]);
    let (build, batch) = build.advance(Reply::Log(b"error\0".to_vec())).unwrap();
    assert_eq!(batch, Vec::<Command>::new());
    assert_eq!(build, ShaderBuild::Failed(String::from("error\0")));
    assert_eq!(build.outcome(), Some(Err(String::from("error\0"))));
}

#[test]
fn log_of_length_zero_is_read_into_an_empty_buffer() {
    let (build, _) = Shader::from_vert_source(Vec::new());
    let (build, _) = build.advance(Reply::Name(3)).unwrap();
    let (build, _) = build.advance(Reply::Value(0)).unwrap();
    let (build, batch) = build.advance(Reply::Value(0)).unwrap();
    assert_eq!(batch, vec![Command::GetShaderInfoLog { shader: 3, buffer: Vec::new() }]);
    let (build, _) = build.advance(Reply::Log(Vec::new())).unwrap();
    assert_eq!(build.outcome(), Some(Err(String::new())));
}

#[test]
fn log_that_is_not_utf8_is_read_with_replacement_characters() {
    let (build, _) = Shader::from_vert_source(Vec::new());
    let (build, _) = build.advance(Reply::Name(3)).unwrap();
    let (build, _) = build.advance(Reply::Value(0)).unwrap();
    let (build, _) = build.advance(Reply::Value(4)).unwrap();
    let (build, _) = build.advance(Reply::Log(vec![b'a', 0xff, b'b', 0xc3])).unwrap();
    assert_eq!(build.outcome(), Some(Err(String::from("a\u{fffd}b\u{fffd}"))));
}

#[test]
fn log_in_utf8_is_read_as_it_is() {
    let text = "0:1: erreur de syntaxe — ‘é’";
    let (build, _) = Shader::from_vert_source(Vec::new());
    let (build, _) = build.advance(Reply::Name(3)).unwrap();
    let (build, _) = build.advance(Reply::Value(0)).unwrap();
    let (build, _) = build.advance(Reply::Value(text.len() as i32)).unwrap();
    let (build, _) = build.advance(Reply::Log(text.as_bytes().to_vec())).unwrap();
    assert_eq!(build.outcome(), Some(Err(String::from(text))));
}

#[test]
fn negative_log_length_is_not_awaited() {
    let (build, _) = Shader::from_vert_source(Vec::new());
    let (build, _) = build.advance(Reply::Name(3)).unwrap();
    let (build, _) = build.advance(Reply::Value(0)).unwrap();
    assert_eq!(build.advance(Reply::Value(-1)), None);
}

#[test]
fn shader_build_refuses_replies_out_of_turn() {
    let (build, _) = Shader::from_vert_source(Vec::new());
    assert_eq!(build.advance(Reply::Value(1)), None);
    let (build, _) = Shader::from_vert_source(Vec::new());
    assert_eq!(build.advance(Reply::Log(Vec::new())), None);
    let (build, _) = Shader::from_vert_source(Vec::new());
    let (build, _) = build.advance(Reply::Name(1)).unwrap();
    assert_eq!(build.advance(Reply::Name(2)), None);
    assert_eq!(ShaderBuild::Measuring { shader: 1 }.advance(Reply::Log(Vec::new())), None);
    assert_eq!(ShaderBuild::Reading { shader: 1 }.advance(Reply::Value(3)), None);
}

#[test]
fn ended_shader_build_takes_no_reply() {
    let (build, _) = Shader::from_vert_source(Vec::new());
    let (build, _) = build.advance(Reply::Name(1)).unwrap();
    let (build, _) = build.advance(Reply::Value(1)).unwrap();
    assert_eq!(build.advance(Reply::Value(1)), None);
    assert_eq!(ShaderBuild::Failed(String::from("x")).advance(Reply::Name(1)), None);
    assert_eq!(ShaderBuild::Failed(String::from("x")).advance(Reply::Log(Vec::new())), None);
}

#[test]
fn build_under_way_has_no_outcome() {
    let (build, _) = Shader::from_vert_source(Vec::new());
    assert_eq!(build.outcome(), None);
    assert_eq!(ShaderBuild::Compiling { shader: 1 }.outcome(), None);
    assert_eq!(ShaderBuild::Measuring { shader: 1 }.outcome(), None);
    assert_eq!(ShaderBuild::Reading { shader: 1 }.outcome(), None);
    assert_eq!(ProgramBuild::Creating { shaders: vec![1] }.outcome(), None);
    assert_eq!(ProgramBuild::Linking { program: 2, shaders: vec![1] }.outcome(), None);
    assert_eq!(ProgramBuild::Measuring { program: 2 }.outcome(), None);
    assert_eq!(ProgramBuild::Reading { program: 2 }.outcome(), None);
}

#[test]
fn deleting_a_shader_names_it() {
    assert_eq!(compiled(41).delete(), Command::DeleteShader { shader: 41 });
}

#[test]
fn program_build_starts_by_creating_a_program() {
    let shaders = [compiled(4), compiled(9)];
    let (build, batch) = ShaderProgram::from_shaders(&shaders);
    assert_eq!(batch, vec![Command::CreateProgram]);
    assert_eq!(build, ProgramBuild::Creating { shaders: vec![4, 9] });
    assert_eq!(shaders[0].id(), 4);
    assert_eq!(shaders[1].id(), 9);
}

#[test]
fn named_program_gets_its_shaders_in_order_and_is_linked() {
    let shaders = [compiled(4), compiled(9), compiled(2)];
    let (build, _) = ShaderProgram::from_shaders(&shaders);
    let (build, batch) = build.advance(Reply::Name(30)).unwrap();
    assert_eq!(build, ProgramBuild::Linking { program: 30, shaders: vec![4, 9, 2] });
    assert_eq!(
        batch,
        vec![
            Command::AttachShader { program: 30, shader: 4 },
            Command::AttachShader { program: 30, shader: 9 },
            Command::AttachShader { program: 30, shader: 2 },
            Command::LinkProgram { program: 30 },
            Command::GetProgramiv { program: 30, pname: Param::LinkStatus },
        ]
    );
}

#[test]
fn linked_program_detaches_its_shaders_in_order() {
    let shaders = [compiled(4), compiled(9)];
    let (build, _) = ShaderProgram::from_shaders(&shaders);
    let (build, _) = build.advance(Reply::Name(30)).unwrap();
    let (build, batch) = build.advance(Reply::Value(1)).unwrap();
    assert_eq!(
        batch,
        vec![
            Command::DetachShader { program: 30, shader: 4 },
            Command::DetachShader { program: 30, shader: 9 },
        ]
    );
    let program = build.outcome().unwrap().unwrap();
    assert_eq!(program.id(), 30);
    assert_eq!(program.use_program(), Command::UseProgram { program: 30 });
    assert_eq!(program.delete(), Command::DeleteProgram { program: 30 });
}

#[test]
fn program_of_no_shaders_is_only_linked() {
    let (build, batch) = ShaderProgram::from_shaders(&[]);
    assert_eq!(batch, vec![Command::CreateProgram]);
    let (build, batch) = build.advance(Reply::Name(5)).unwrap();
    assert_eq!(
        batch,
        vec![
            Command::LinkProgram { program: 5 },
            Command::GetProgramiv { program: 5, pname: Param::LinkStatus },
        ]
    );
    let (build, batch) = build.advance(Reply::Value(1)).unwrap();
    assert_eq!(batch, Vec::<Command>::new());
    assert_eq!(build.outcome().unwrap().unwrap().id(), 5);
}

#[test]
fn failed_linking_reads_the_log_and_detaches_nothing() {
    let shaders = [compiled(4), compiled(9)];
    let (build, _) = ShaderProgram::from_shaders(&shaders);
    let (build, _) = build.advance(Reply::Name(30)).unwrap();
    let (build, batch) = build.advance(Reply::Value(0)).unwrap();
    assert_eq!(build, ProgramBuild::Measuring { program: 30 });
    assert_eq!(batch, vec![Command::GetProgramiv { program: 30, pname: Param::InfoLogLength }]);
    let (build, batch) = build.advance(Reply::Value(3)).unwrap();
    assert_eq!(build, ProgramBuild::Reading { program: 30 });
    assert_eq!(batch, vec![Command::GetProgramInfoLog { program: 30, buffer: b"   ".to_vec() }]);
    let (build, batch) = build.advance(Reply::Log(b"no\0".to_vec())).unwrap();
    assert_eq!(batch, Vec::<Command>::new());
    assert_eq!(build.outcome(), Some(Err(String::from("no\0"))));
}

#[test]
fn program_log_that_is_not_utf8_is_read_with_replacement_characters() {
    let build = ProgramBuild::Reading { program: 30 };
    let (build, _) = build.advance(Reply::Log(vec![0x80, b'!'])).unwrap();
    assert_eq!(build.outcome(), Some(Err(String::from("\u{fffd}!"))));
}

#[test]
fn program_build_refuses_replies_out_of_turn() {
    let (build, _) = ShaderProgram::from_shaders(&[]);
    assert_eq!(build.advance(Reply::Value(1)), None);
    let (build, _) = ShaderProgram::from_shaders(&[]);
    let (build, _) = build.advance(Reply::Name(5)).unwrap();
    assert_eq!(build.advance(Reply::Name(6)), None);
    assert_eq!(ProgramBuild::Measuring { program: 5 }.advance(Reply::Value(-7)), None);
    assert_eq!(ProgramBuild::Measuring { program: 5 }.advance(Reply::Name(7)), None);
    assert_eq!(ProgramBuild::Reading { program: 5 }.advance(Reply::Value(0)), None);
    assert_eq!(ProgramBuild::Failed(String::new()).advance(Reply::Value(0)), None);
    let (build, _) = ProgramBuild::Linking { program: 5, shaders: Vec::new() }
        .advance(Reply::Value(1))
        .unwrap();
    assert_eq!(build.advance(Reply::Value(1)), None);
}
