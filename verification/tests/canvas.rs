use nn_canvas::calls::{BufferTarget, Command, Param, Primitive, Reply, Scalar, ShaderKind, Usage};
use nn_canvas::visualization::{
    elements, index_of_location, prepare_visualization, render, vertices, Prepared, Visualization,
    ATTRIBUTE_NUMBERS, COLOR_OUTPUT, CORNER_NUMBERS, POSITION_ATTRIBUTE, SCALAR_BYTES,
    TEXTURE_ATTRIBUTE,
};

const VERTEX: &[u8] = b"in vec2 position; in vec2 vsTex; void main() {}";
const FRAGMENT: &[u8] = b"out vec4 outColor; void main() {}";

/// Performs nothing: hands each reply in turn to the preparation and
/// collects every call that it asks for.
fn drive(replies: Vec<Reply>) -> (Visualization, Vec<Command>) {
    let (mut state, mut calls) = prepare_visualization(VERTEX.to_vec(), FRAGMENT.to_vec());
    for reply in replies {
        let (next, batch) = state.advance(reply).unwrap();
        state = next;
        calls.extend(batch);
    }
    (state, calls)
}

fn attribute(index: u32, offset: usize) -> Command {
    Command::VertexAttribPointer {
        index,
        size: 2,
        scalar: Scalar::Float,
        normalized: false,
        stride: 16,
        offset,
    }
}

#[test]
fn quad_corners_and_triangles() {
    assert_eq!(vertices(), vec![-1, 1, 0, 0, 1, 1, 1, 0, 1, -1, 1, 1, -1, -1, 0, 1]);
    assert_eq!(elements(), vec![0, 1, 2, 2, 3, 0]);
    assert_eq!(vertices().len(), 4 * CORNER_NUMBERS);
}

#[test]
fn texture_coordinates_follow_positions() {
    for corner in vertices().chunks(CORNER_NUMBERS) {
        assert_eq!(corner[2], (corner[0] + 1) / 2);
        assert_eq!(corner[3], (1 - corner[1]) / 2);
    }
}

#[test]
fn layout_numbers() {
    assert_eq!(SCALAR_BYTES, 4);
    assert_eq!(CORNER_NUMBERS, 4);
    assert_eq!(ATTRIBUTE_NUMBERS, 2);
    assert_eq!(COLOR_OUTPUT, "outColor");
    assert_eq!(POSITION_ATTRIBUTE, "position");
    assert_eq!(TEXTURE_ATTRIBUTE, "vsTex");
}

#[test]
fn attribute_location_keeps_its_bits() {
    assert_eq!(index_of_location(0), 0);
    assert_eq!(index_of_location(1), 1);
    assert_eq!(index_of_location(i32::MAX), 0x7fff_ffff);
    assert_eq!(index_of_location(-1), 0xffff_ffff);
    assert_eq!(index_of_location(-2), 0xffff_fffe);
    assert_eq!(index_of_location(i32::MIN), 0x8000_0000);
    for location in [-70_000, -3, 5, 99_999] {
        assert_eq!(index_of_location(location), location as u32);
    }
}

#[test]
fn frame_draws_the_six_indices() {
    assert_eq!(
        render(8),
        vec![
            Command::BindVertexArray { array: 8 },
            Command::DrawElements {
                primitive: Primitive::Triangles,
                count: 6,
                scalar: Scalar::UnsignedInt,
            },
            Command::Flush,
        ]
    );
}

#[test]
fn preparation_starts_with_the_vertex_shader() {
    let (state, calls) = drive(Vec::new());
    assert_eq!(calls, vec![Command::CreateShader { kind: ShaderKind::Vertex }]);
    assert_eq!(state.outcome(), None);
}

#[test]
fn preparation_makes_every_call_in_order() {
    let (state, calls) = drive(vec![
        Reply::Name(1),
        Reply::Value(1),
        Reply::Name(2),
        Reply::Value(1),
        Reply::Name(3),
        Reply::Value(1),
        Reply::Name(10),
        Reply::Name(11),
        Reply::Name(20),
        Reply::Value(0),
        Reply::Value(1),
    ]);
    assert_eq!(
        calls,
        vec![
            Command::CreateShader { kind: ShaderKind::Vertex },
            Command::ShaderSource { shader: 1, source: VERTEX.to_vec() },
            Command::CompileShader { shader: 1 },
            Command::GetShaderiv { shader: 1, pname: Param::CompileStatus },
            Command::CreateShader { kind: ShaderKind::Fragment },
            Command::ShaderSource { shader: 2, source: FRAGMENT.to_vec() },
            Command::CompileShader { shader: 2 },
            Command::GetShaderiv { shader: 2, pname: Param::CompileStatus },
            Command::CreateProgram,
            Command::AttachShader { program: 3, shader: 1 },
            Command::AttachShader { program: 3, shader: 2 },
            Command::LinkProgram { program: 3 },
            Command::GetProgramiv { program: 3, pname: Param::LinkStatus },
            Command::DetachShader { program: 3, shader: 1 },
            Command::DetachShader { program: 3, shader: 2 },
            Command::DeleteShader { shader: 1 },
            Command::DeleteShader { shader: 2 },
            Command::UseProgram { program: 3 },
            Command::GenBuffers,
            Command::BindBuffer { target: BufferTarget::Array, object: 10 },
            Command::BufferData {
                target: BufferTarget::Array,
                bytes: 64,
                data: vec![-1, 1, 0, 0, 1, 1, 1, 0, 1, -1, 1, 1, -1, -1, 0, 1],
                scalar: Scalar::Float,
                usage: Usage::StaticDraw,
            },
            Command::BindBuffer { target: BufferTarget::Array, object: 0 },
            Command::GenBuffers,
            Command::BindBuffer { target: BufferTarget::ElementArray, object: 11 },
            Command::BufferData {
                target: BufferTarget::ElementArray,
                bytes: 24,
                data: vec![0, 1, 2, 2, 3, 0],
                scalar: Scalar::UnsignedInt,
                usage: Usage::StaticDraw,
            },
            Command::BindBuffer { target: BufferTarget::Array, object: 0 },
            Command::GenVertexArrays,
            Command::BindVertexArray { array: 20 },
            Command::BindBuffer { target: BufferTarget::Array, object: 10 },
            Command::BindFragDataLocation { program: 3, color: 0, name: "outColor" },
            Command::GetAttribLocation { program: 3, name: "position" },
            Command::EnableVertexAttribArray { index: 0 },
            attribute(0, 0),
            Command::GetAttribLocation { program: 3, name: "vsTex" },
            Command::EnableVertexAttribArray { index: 1 },
            attribute(1, 8),
            Command::DeleteProgram { program: 3 },
        ]
    );
    assert_eq!(state, Visualization::Ready(Prepared { program: 3, vertex_array: 20 }));
    assert_eq!(state.outcome(), Some(Ok(Prepared { program: 3, vertex_array: 20 })));
}

#[test]
fn attribute_that_is_not_found_is_still_described() {
    let (_, calls) = drive(vec![
        Reply::Name(1),
        Reply::Value(1),
        Reply::Name(2),
        Reply::Value(1),
        Reply::Name(3),
        Reply::Value(1),
        Reply::Name(10),
        Reply::Name(11),
        Reply::Name(20),
        Reply::Value(-1),
        Reply::Value(4),
    ]);
    let tail = &calls[calls.len() - 6..];
    assert_eq!(
        tail,
        &[
            Command::EnableVertexAttribArray { index: 0xffff_ffff },
            attribute(0xffff_ffff, 0),
            Command::GetAttribLocation { program: 3, name: "vsTex" },
            Command::EnableVertexAttribArray { index: 4 },
            attribute(4, 8),
            Command::DeleteProgram { program: 3 },
        ]
    );
}

#[test]
fn failed_vertex_shader_ends_the_preparation() {
    let (state, calls) = drive(vec![
        Reply::Name(1),
        Reply::Value(0),
        Reply::Value(4),
        Reply::Log(b"bad\0".to_vec()),
    ]);
    assert_eq!(
        calls,
        vec![
            Command::CreateShader { kind: ShaderKind::Vertex },
            Command::ShaderSource { shader: 1, source: VERTEX.to_vec() },
            Command::CompileShader { shader: 1 },
            Command::GetShaderiv { shader: 1, pname: Param::CompileStatus },
            Command::GetShaderiv { shader: 1, pname: Param::InfoLogLength },
            Command::GetShaderInfoLog { shader: 1, buffer: b"    ".to_vec() },
        ]
    );
    assert_eq!(state.outcome(), Some(Err(String::from("bad\0"))));
}

#[test]
fn failed_fragment_shader_deletes_the_vertex_shader() {
    let (state, calls) = drive(vec![
        Reply::Name(1),
        Reply::Value(1),
        Reply::Name(2),
        Reply::Value(0),
        Reply::Value(2),
        Reply::Log(b"f\0".to_vec()),
    ]);
    assert_eq!(
        &calls[8..],
        &[
            Command::GetShaderiv { shader: 2, pname: Param::InfoLogLength },
            Command::GetShaderInfoLog { shader: 2, buffer: b"  ".to_vec() },
            Command::DeleteShader { shader: 1 },
        ]
    );
    assert_eq!(state.outcome(), Some(Err(String::from("f\0"))));
}

#[test]
fn failed_program_deletes_both_shaders() {
    let (state, calls) = drive(vec![
        Reply::Name(1),
        Reply::Value(1),
        Reply::Name(2),
        Reply::Value(1),
        Reply::Name(3),
        Reply::Value(0),
        Reply::Value(5),
        Reply::Log(b"link\0".to_vec()),
    ]);
    assert_eq!(
        &calls[13..],
        &[
            Command::GetProgramiv { program: 3, pname: Param::InfoLogLength },
            Command::GetProgramInfoLog { program: 3, buffer: b"     ".to_vec() },
            Command::DeleteShader { shader: 1 },
            Command::DeleteShader { shader: 2 },
        ]
    );
    assert_eq!(state.outcome(), Some(Err(String::from("link\0"))));
}

/// The replies of a preparation up to, and without, reply number `count`.
fn replies_before(count: usize) -> Vec<Reply> {
    let mut replies = vec![
        Reply::Name(1),
        Reply::Value(1),
        Reply::Name(2),
        Reply::Value(1),
        Reply::Name(3),
        Reply::Value(1),
        Reply::Name(10),
        Reply::Name(11),
        Reply::Name(20),
        Reply::Value(0),
        Reply::Value(1),
    ];
    replies.truncate(count);
    replies
}

#[test]
fn preparation_refuses_replies_out_of_turn() {
    let (state, _) = drive(Vec::new());
    assert_eq!(state.advance(Reply::Value(1)), None);
    let (state, _) = drive(vec![Reply::Name(1)]);
    assert_eq!(state.advance(Reply::Name(2)), None);
    let (state, _) = drive(vec![Reply::Name(1), Reply::Value(0)]);
    assert_eq!(state.advance(Reply::Value(-1)), None);
    let (state, _) = drive(replies_before(6));
    assert_eq!(state.advance(Reply::Value(1)), None);
    let (state, _) = drive(replies_before(7));
    assert_eq!(state.advance(Reply::Log(Vec::new())), None);
    let (state, _) = drive(replies_before(8));
    assert_eq!(state.advance(Reply::Value(0)), None);
    let (state, _) = drive(replies_before(9));
    assert_eq!(state.advance(Reply::Name(0)), None);
    let (state, _) = drive(replies_before(10));
    assert_eq!(state.advance(Reply::Name(1)), None);
    let (state, _) = drive(replies_before(11));
    assert_eq!(state.advance(Reply::Value(1)), None);
    assert_eq!(Visualization::Failed(String::new()).advance(Reply::Name(1)), None);
}

#[test]
fn preparation_under_way_has_no_outcome() {
    for count in 0..11 {
        let (state, _) = drive(replies_before(count));
        assert_eq!(state.outcome(), None);
    }
}
