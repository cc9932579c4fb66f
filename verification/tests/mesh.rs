use rustgl::call::{byte_size, is_uploadable, Action, Call, Reply};
use rustgl::mesh::{clear, report, Geometry, GeometrySetup, Material, MaterialSetup, Mesh};

fn issued(action: Action) -> Call {
    match action {
        Action::Issue(call) => call,
        other => panic!("no call: {:?}", other),
    }
}

fn made_geometry(vao: u32) -> Geometry {
    let mut setup = Geometry::new(0, 3, vec![1], vec![0]);
    run_geometry(&mut setup, vao, 2, 3);
    setup.geometry().unwrap()
}

fn run_geometry(setup: &mut GeometrySetup, vao: u32, ebo: u32, vbo: u32) -> Vec<Action> {
    let mut actions = Vec::new();
    for k in 0..14 {
        let reply = match k {
            1 => Reply::Name(vao),
            2 => Reply::Name(ebo),
            3 => Reply::Name(vbo),
            _ => Reply::Nothing,
        };
        actions.push(setup.step(reply));
    }
    actions
}

fn made_material(program: u32) -> Material {
    let mut setup = Material::new("v", "f");
    run_clean(&mut setup, 1, 2, program);
    setup.material().unwrap()
}

fn run_clean(setup: &mut MaterialSetup, vs: u32, fs: u32, program: u32) -> Vec<Action> {
    let mut actions = Vec::new();
    for k in 0..16 {
        let reply = match k {
            1 => Reply::Name(vs),
            5 => Reply::Name(fs),
            9 => Reply::Name(program),
            4 | 8 | 13 => Reply::Value(1),
            _ => Reply::Nothing,
        };
        actions.push(setup.step(reply));
    }
    actions
}

#[test]
fn data_can_be_uploaded_if_it_has_a_first_word() {
    assert!(!is_uploadable(&Vec::new()));
    assert!(is_uploadable(&vec![0]));
    assert!(is_uploadable(&vec![0; 36]));
}

#[test]
fn a_word_takes_four_bytes() {
    assert_eq!(byte_size(&vec![7]), 4);
    assert_eq!(byte_size(&vec![0; 24]), 96);
    assert_eq!(byte_size(&vec![0; 36]), 144);
}

#[test]
fn a_geometry_is_set_up_call_by_call() {
    let vertices: Vec<u32> = [0.5f32, 0.5, 0.0, -0.5, 0.5, 0.0, 0.0, -0.5, 0.0]
        .iter()
        .map(|x| x.to_bits())
        .collect();
    let indices = vec![0, 1, 2];
    let mut setup = Geometry::new(1, 3, vertices.clone(), indices.clone());
    assert!(!setup.is_finished());
    let actions = run_geometry(&mut setup, 10, 20, 30);
    let expected = vec![
        Action::Issue(Call::GenVertexArrays),
        Action::Issue(Call::GenBuffers),
        Action::Issue(Call::GenBuffers),
        Action::Issue(Call::BindVertexArray { array: 10 }),
        Action::Issue(Call::BindBuffer { target: 0x8892, buffer: 30 }),
        Action::Issue(Call::BufferData { target: 0x8892, size: 36, data: vertices, usage: 0x88E4 }),
        Action::Issue(Call::BindBuffer { target: 0x8893, buffer: 20 }),
        Action::Issue(Call::BufferData { target: 0x8893, size: 12, data: indices, usage: 0x88E4 }),
        Action::Issue(Call::VertexAttribPointer {
            index: 1,
            components: 3,
            kind: 0x1406,
            normalized: 0,
            stride: 12,
        }),
        Action::Issue(Call::EnableVertexAttribArray { index: 1 }),
        Action::Issue(Call::BindBuffer { target: 0x8892, buffer: 0 }),
        Action::Issue(Call::BindVertexArray { array: 0 }),
        Action::Issue(Call::BindBuffer { target: 0x8893, buffer: 0 }),
        Action::Finish,
    ];
    assert_eq!(actions, expected);
    assert!(setup.is_finished());
    let geometry = setup.geometry().unwrap();
    assert_eq!((geometry.vao(), geometry.ebo(), geometry.vbo()), (10, 20, 30));
}

#[test]
fn a_geometry_uses_the_constants_of_the_bindings() {
    let mut setup = Geometry::new(0, 3, vec![1, 2, 3], vec![0]);
    let actions = run_geometry(&mut setup, 1, 2, 3);
    assert_eq!(
        actions[5],
        Action::Issue(Call::BufferData {
            target: gl::ARRAY_BUFFER,
            size: 12,
            data: vec![1, 2, 3],
            usage: gl::STATIC_DRAW,
        })
    );
    assert_eq!(
        actions[8],
        Action::Issue(Call::VertexAttribPointer {
            index: 0,
            components: 3,
            kind: gl::FLOAT,
            normalized: gl::FALSE,
            stride: 12,
        })
    );
}

#[test]
fn a_geometry_is_there_only_when_the_end_was_handed_out() {
    let mut setup = Geometry::new(0, 3, vec![1], vec![0]);
    for k in 0..13 {
        assert!(!setup.is_finished());
        let reply = if k == 1 { Reply::Name(5) } else { Reply::Nothing };
        assert!(setup.step(reply) != Action::Finish);
    }
    assert!(!setup.is_finished());
    assert_eq!(setup.step(Reply::Nothing), Action::Finish);
    assert!(setup.is_finished());
    assert_eq!(setup.step(Reply::Name(77)), Action::Finish);
    assert!(setup.is_finished());
    assert_eq!(setup.geometry().unwrap().vao(), 5);
}

#[test]
fn a_setup_that_is_ended_early_gives_no_geometry() {
    let mut setup = Geometry::new(0, 3, vec![1], vec![0]);
    assert_eq!(Geometry::new(0, 3, vec![1], vec![0]).geometry(), None);
    for _ in 0..13 {
        setup.step(Reply::Name(5));
    }
    assert_eq!(setup.geometry(), None);
    let mut setup = Material::new("v", "f");
    for _ in 0..15 {
        setup.step(Reply::Value(1));
    }
    assert!(!setup.is_finished());
    assert_eq!(setup.material(), None);
}

#[test]
fn a_driver_that_names_nothing_leaves_zero() {
    let mut setup = Geometry::new(0, 3, vec![1], vec![0]);
    let mut actions = Vec::new();
    for _ in 0..14 {
        actions.push(setup.step(Reply::Nothing));
    }
    assert_eq!(actions[3], Action::Issue(Call::BindVertexArray { array: 0 }));
    assert_eq!(actions[4], Action::Issue(Call::BindBuffer { target: 0x8892, buffer: 0 }));
    assert_eq!(setup.geometry().unwrap().vao(), 0);
}

#[test]
fn a_geometry_binds_unbinds_and_is_deleted() {
    let geometry = made_geometry(12);
    assert_eq!(geometry.bind(), Call::BindVertexArray { array: 12 });
    assert_eq!(geometry.unbind(), Call::BindVertexArray { array: 0 });
}

#[test]
fn a_geometry_releases_its_vertex_array_and_both_buffers() {
    let mut setup = Geometry::new(0, 3, vec![1], vec![0]);
    let actions = run_geometry(&mut setup, 10, 20, 30);
    for action in &actions {
        assert!(!matches!(
            action,
            Action::Issue(Call::DeleteBuffers { .. }) | Action::Issue(Call::DeleteVertexArrays { .. })
        ));
    }
    assert_eq!(
        setup.geometry().unwrap().delete(),
        vec![
            Call::DeleteVertexArrays { array: 10 },
            Call::DeleteBuffers { buffer: 20 },
            Call::DeleteBuffers { buffer: 30 },
        ]
    );
}

#[test]
fn a_material_that_builds_is_set_up_in_fifteen_calls() {
    let mut setup = Material::new("vertex source", "fragment source");
    assert!(!setup.is_finished());
    let actions = run_clean(&mut setup, 4, 5, 6);
    let expected = vec![
        Action::Issue(Call::CreateShader { kind: 0x8B31 }),
        Action::Issue(Call::ShaderSource { shader: 4, source: String::from("vertex source") }),
        Action::Issue(Call::CompileShader { shader: 4 }),
        Action::Issue(Call::GetShaderiv { shader: 4, parameter: 0x8B81 }),
        Action::Issue(Call::CreateShader { kind: 0x8B30 }),
        Action::Issue(Call::ShaderSource { shader: 5, source: String::from("fragment source") }),
        Action::Issue(Call::CompileShader { shader: 5 }),
        Action::Issue(Call::GetShaderiv { shader: 5, parameter: 0x8B81 }),
        Action::Issue(Call::CreateProgram),
        Action::Issue(Call::AttachShader { program: 6, shader: 4 }),
        Action::Issue(Call::AttachShader { program: 6, shader: 5 }),
        Action::Issue(Call::LinkProgram { program: 6 }),
        Action::Issue(Call::GetProgramiv { program: 6, parameter: 0x8B82 }),
        Action::Issue(Call::DeleteShader { shader: 4 }),
        Action::Issue(Call::DeleteShader { shader: 5 }),
        Action::Finish,
    ];
    assert_eq!(actions, expected);
    assert!(setup.is_finished());
    assert_eq!(setup.step(Reply::Nothing), Action::Finish);
    assert_eq!(setup.material().unwrap().program(), 6);
}

#[test]
fn a_vertex_shader_that_fails_is_reported_and_the_setup_goes_on() {
    let mut setup = Material::new("v", "f");
    setup.step(Reply::Nothing);
    setup.step(Reply::Name(4));
    setup.step(Reply::Nothing);
    setup.step(Reply::Nothing);
    assert_eq!(
        setup.step(Reply::Value(0)),
        Action::Issue(Call::GetShaderInfoLog { shader: 4, capacity: 512 })
    );
    let log = Reply::Bytes(b"0:1(1): error\0".to_vec());
    assert_eq!(
        setup.step(log),
        Action::Report(String::from("ERROR::SHADER::VERTEX::COMPILATION_FAILED\n0:1(1): error"))
    );
    assert_eq!(setup.step(Reply::Nothing), Action::Issue(Call::CreateShader { kind: 0x8B30 }));
}

#[test]
fn every_failure_is_reported_under_its_heading() {
    let mut setup = Material::new("v", "f");
    let mut reports = Vec::new();
    let mut calls = Vec::new();
    let replies = vec![
        Reply::Nothing,
        Reply::Name(4),
        Reply::Nothing,
        Reply::Nothing,
        Reply::Value(0),
        Reply::Bytes(b"bad vertex".to_vec()),
        Reply::Nothing,
        Reply::Name(5),
        Reply::Nothing,
        Reply::Nothing,
        Reply::Value(0),
        Reply::Bytes(b"bad fragment".to_vec()),
        Reply::Nothing,
        Reply::Name(6),
        Reply::Nothing,
        Reply::Nothing,
        Reply::Nothing,
        Reply::Value(0),
        Reply::Bytes(b"bad link".to_vec()),
        Reply::Nothing,
        Reply::Nothing,
        Reply::Nothing,
    ];
    for reply in replies {
        match setup.step(reply) {
            Action::Issue(call) => calls.push(call),
            Action::Report(text) => reports.push(text),
            Action::Finish => break,
        }
    }
    assert_eq!(
        reports,
        vec![
            String::from("ERROR::SHADER::VERTEX::COMPILATION_FAILED\nbad vertex"),
            String::from("ERROR::SHADER::FRAGMENT::COMPILATION_FAILED\nbad fragment"),
            String::from("ERROR::SHADER::PROGRAM::COMPILATION_FAILED\nbad link"),
        ]
    );
    assert_eq!(calls.len(), 18);
    assert_eq!(calls[4], Call::GetShaderInfoLog { shader: 4, capacity: 512 });
    assert_eq!(calls[9], Call::GetShaderInfoLog { shader: 5, capacity: 512 });
    assert_eq!(calls[15], Call::GetProgramInfoLog { program: 6, capacity: 512 });
    assert_eq!(calls[16], Call::DeleteShader { shader: 4 });
    assert_eq!(calls[17], Call::DeleteShader { shader: 5 });
    assert_eq!(setup.material().unwrap().program(), 6);
}

fn vertex_report(log: Reply) -> (Action, MaterialSetup) {
    let mut setup = Material::new("v", "f");
    for reply in [Reply::Nothing, Reply::Name(4), Reply::Nothing, Reply::Nothing, Reply::Value(0)] {
        setup.step(reply);
    }
    (setup.step(log), setup)
}

fn vertex_heading(text: &str) -> Action {
    let mut line = String::from("ERROR::SHADER::VERTEX::COMPILATION_FAILED\n");
    line.push_str(text);
    Action::Report(line)
}

#[test]
fn a_log_that_fills_its_buffer_is_reported_whole() {
    let mut buffer = vec![b'x'; 512];
    buffer[511] = 0;
    let (action, _) = vertex_report(Reply::Bytes(buffer));
    assert_eq!(action, vertex_heading(&"x".repeat(511)));
    let (action, _) = vertex_report(Reply::Bytes(vec![b'y'; 512]));
    assert_eq!(action, vertex_heading(&"y".repeat(512)));
}

#[test]
fn a_log_is_reported_without_what_follows_its_terminator() {
    let mut buffer = vec![0u8; 512];
    buffer[..3].copy_from_slice(b"bad");
    let (action, _) = vertex_report(Reply::Bytes(buffer));
    assert_eq!(action, vertex_heading("bad"));
    let mut buffer = vec![0xFFu8; 512];
    buffer[..4].copy_from_slice(b"bad\0");
    let (action, _) = vertex_report(Reply::Bytes(buffer));
    assert_eq!(action, vertex_heading("bad"));
}

#[test]
fn a_log_that_is_not_utf8_is_reported_all_the_same() {
    let (action, mut setup) = vertex_report(Reply::Bytes(vec![b'a', 0xFF, b'b', 0]));
    assert_eq!(action, vertex_heading("a\u{fffd}b"));
    assert_eq!(setup.step(Reply::Nothing), Action::Issue(Call::CreateShader { kind: 0x8B30 }));
    let mut calls = Vec::new();
    let replies = vec![
        Reply::Name(5),
        Reply::Nothing,
        Reply::Nothing,
        Reply::Value(1),
        Reply::Name(6),
        Reply::Nothing,
        Reply::Nothing,
        Reply::Nothing,
        Reply::Value(0),
        Reply::Bytes(vec![0xC3]),
        Reply::Nothing,
        Reply::Nothing,
        Reply::Nothing,
    ];
    let mut reports = Vec::new();
    for reply in replies {
        match setup.step(reply) {
            Action::Issue(call) => calls.push(call),
            Action::Report(text) => reports.push(text),
            Action::Finish => break,
        }
    }
    assert_eq!(
        reports,
        vec![String::from("ERROR::SHADER::PROGRAM::COMPILATION_FAILED\n\u{fffd}")]
    );
    assert_eq!(calls[calls.len() - 2], Call::DeleteShader { shader: 4 });
    assert_eq!(calls[calls.len() - 1], Call::DeleteShader { shader: 5 });
    assert!(setup.is_finished());
    assert_eq!(setup.material().unwrap().program(), 6);
}

#[test]
fn a_reply_without_a_log_is_reported_as_an_empty_log() {
    let (action, _) = vertex_report(Reply::Nothing);
    assert_eq!(action, vertex_heading(""));
    let (action, _) = vertex_report(Reply::Bytes(Vec::new()));
    assert_eq!(action, vertex_heading(""));
}

#[test]
fn a_report_is_the_heading_and_then_the_text() {
    assert_eq!(report("HEAD\n", "text"), Action::Report(String::from("HEAD\ntext")));
    assert_eq!(report("", ""), Action::Report(String::new()));
    assert_eq!(report("gr\u{fc}n: ", "\u{20ac}"), Action::Report(String::from("gr\u{fc}n: \u{20ac}")));
}

#[test]
fn a_status_that_does_not_come_is_the_one_before() {
    let mut setup = Material::new("v", "f");
    for reply in [Reply::Nothing, Reply::Name(4), Reply::Nothing, Reply::Nothing] {
        setup.step(reply);
    }
    assert_eq!(setup.step(Reply::Value(1)), Action::Issue(Call::CreateShader { kind: 0x8B30 }));
    for reply in [Reply::Name(5), Reply::Nothing, Reply::Nothing] {
        setup.step(reply);
    }
    assert_eq!(setup.step(Reply::Nothing), Action::Issue(Call::CreateProgram));

    let mut setup = Material::new("v", "f");
    for reply in [Reply::Nothing, Reply::Name(4), Reply::Nothing, Reply::Nothing] {
        setup.step(reply);
    }
    assert_eq!(
        setup.step(Reply::Nothing),
        Action::Issue(Call::GetShaderInfoLog { shader: 4, capacity: 512 })
    );
}

#[test]
fn a_material_is_used_and_deleted_by_its_program() {
    let material = made_material(33);
    assert_eq!(material.program(), 33);
    assert_eq!(material.use_program(), Call::UseProgram { program: 33 });
    assert_eq!(material.delete(), Call::DeleteProgram { program: 33 });
}

#[test]
fn a_mesh_is_drawn_with_its_program_and_its_vertex_array() {
    let mesh = Mesh::new(made_geometry(12), made_material(33));
    assert_eq!(
        mesh.render(),
        vec![
            Call::UseProgram { program: 33 },
            Call::BindVertexArray { array: 12 },
            Call::DrawElements { mode: 4, count: 6, kind: 0x1405 },
            Call::BindVertexArray { array: 0 },
        ]
    );
}

#[test]
fn clearing_sets_a_dark_grey_first() {
    let calls = clear();
    assert_eq!(
        calls,
        vec![
            Call::ClearColor {
                red: 0.1f32.to_bits(),
                green: 0.1f32.to_bits(),
                blue: 0.1f32.to_bits(),
                alpha: 1.0f32.to_bits(),
            },
            Call::Clear { mask: 0x4000 },
        ]
    );
    assert_eq!(issued(Action::Issue(Call::Clear { mask: 0x4000 })), Call::Clear { mask: 0x4000 });
}

#[test]
fn a_mesh_deletes_its_geometry_before_its_material() {
    let mesh = Mesh::new(made_geometry(12), made_material(33));
    assert_eq!(
        mesh.delete(),
        vec![
            Call::DeleteVertexArrays { array: 12 },
            Call::DeleteBuffers { buffer: 2 },
            Call::DeleteBuffers { buffer: 3 },
            Call::DeleteProgram { program: 33 },
        ]
    );
}
