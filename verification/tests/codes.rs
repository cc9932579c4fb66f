use rustgl::call::{Action, Call, Reply};
use rustgl::graphics::{
    clear, draw_arrays, draw_elements, BufferTarget, DrawMode, Program, ShaderType,
};
use rustgl::scene::{process_event, Key, KeyAction, Response, WindowEvent};

#[test]
fn buffer_targets_have_the_registry_values() {
    assert_eq!(BufferTarget::Array.target(), 0x8892);
    assert_eq!(BufferTarget::ElementArray.target(), 0x8893);
    assert_eq!(BufferTarget::ShaderStorage.target(), 0x90D2);
}

#[test]
fn buffer_targets_are_those_of_the_bindings() {
    assert_eq!(BufferTarget::Array.target(), gl::ARRAY_BUFFER);
    assert_eq!(BufferTarget::ElementArray.target(), gl::ELEMENT_ARRAY_BUFFER);
    assert_eq!(BufferTarget::ShaderStorage.target(), gl::SHADER_STORAGE_BUFFER);
}

#[test]
fn shader_types_have_the_registry_values() {
    assert_eq!(ShaderType::Vertex.target(), 0x8B31);
    assert_eq!(ShaderType::Fragment.target(), 0x8B30);
    assert_eq!(ShaderType::Compute.target(), 0x91B9);
    assert_eq!(ShaderType::Geometry.target(), 0x8DD9);
}

#[test]
fn shader_types_are_those_of_the_bindings() {
    assert_eq!(ShaderType::Vertex.target(), gl::VERTEX_SHADER);
    assert_eq!(ShaderType::Fragment.target(), gl::FRAGMENT_SHADER);
    assert_eq!(ShaderType::Compute.target(), gl::COMPUTE_SHADER);
    assert_eq!(ShaderType::Geometry.target(), gl::GEOMETRY_SHADER);
}

#[test]
fn draw_modes_have_the_registry_values() {
    assert_eq!(DrawMode::Points.code(), 0);
    assert_eq!(DrawMode::Lines.code(), 1);
    assert_eq!(DrawMode::Triangles.code(), 4);
    assert_eq!(DrawMode::Points.code(), gl::POINTS);
    assert_eq!(DrawMode::Lines.code(), gl::LINES);
    assert_eq!(DrawMode::Triangles.code(), gl::TRIANGLES);
}

#[test]
fn clear_names_the_colour_buffer() {
    assert_eq!(clear(), Call::Clear { mask: 0x4000 });
    assert_eq!(clear(), Call::Clear { mask: gl::COLOR_BUFFER_BIT });
}

#[test]
fn draw_arrays_passes_its_arguments_on() {
    assert_eq!(
        draw_arrays(DrawMode::Points, 2, 256),
        Call::DrawArrays { mode: 0, first: 2, count: 256 }
    );
    assert_eq!(
        draw_arrays(DrawMode::Triangles, 0, 3),
        Call::DrawArrays { mode: 4, first: 0, count: 3 }
    );
}

#[test]
fn draw_elements_passes_mode_and_count_on() {
    assert_eq!(
        draw_elements(DrawMode::Triangles, 6),
        Call::DrawElements { mode: 4, count: 6, kind: 0x1405 }
    );
    assert_eq!(
        draw_elements(DrawMode::Points, 36),
        Call::DrawElements { mode: 0, count: 36, kind: 0x1405 }
    );
    assert_eq!(
        draw_elements(DrawMode::Lines, 0),
        Call::DrawElements { mode: 1, count: 0, kind: 0x1405 }
    );
    assert_eq!(
        draw_elements(DrawMode::Triangles, -1),
        Call::DrawElements { mode: gl::TRIANGLES, count: -1, kind: gl::UNSIGNED_INT }
    );
}

#[test]
fn status_queries_use_the_registry_values() {
    let mut compile = rustgl::graphics::Shader::new(&Reply::Name(3)).compile();
    assert_eq!(compile.step(Reply::Nothing), Action::Issue(Call::CompileShader { shader: 3 }));
    assert_eq!(
        compile.step(Reply::Nothing),
        Action::Issue(Call::GetShaderiv { shader: 3, parameter: 0x8B81 })
    );
    assert_eq!(
        compile.step(Reply::Value(0)),
        Action::Issue(Call::GetShaderiv { shader: 3, parameter: 0x8B84 })
    );
    let mut link = Program::new(&Reply::Name(4)).link();
    link.step(Reply::Nothing);
    assert_eq!(
        link.step(Reply::Nothing),
        Action::Issue(Call::GetProgramiv { program: 4, parameter: 0x8B82 })
    );
    assert_eq!(gl::COMPILE_STATUS, 0x8B81);
    assert_eq!(gl::LINK_STATUS, 0x8B82);
    assert_eq!(gl::INFO_LOG_LENGTH, 0x8B84);
}

#[test]
fn polygon_modes_use_the_registry_values() {
    let press = |key| process_event(WindowEvent::Key(key, KeyAction::Press));
    assert_eq!(press(Key::Num1), Response::Issue(Call::PolygonMode { face: 0x0408, mode: 0x1B00 }));
    assert_eq!(press(Key::Num2), Response::Issue(Call::PolygonMode { face: 0x0408, mode: 0x1B01 }));
    assert_eq!(press(Key::Num3), Response::Issue(Call::PolygonMode { face: 0x0408, mode: 0x1B02 }));
    assert_eq!(gl::FRONT_AND_BACK, 0x0408);
    assert_eq!(gl::POINT, 0x1B00);
    assert_eq!(gl::LINE, 0x1B01);
    assert_eq!(gl::FILL, 0x1B02);
}
