use rustgl::call::{Action, Call, Reply};
use rustgl::graphics::{Program, VertexArray};
use rustgl::scene::{
    frame, process_event, process_events, vertex_array_from_vertices, Key, KeyAction, Response,
    WindowEvent,
};

#[test]
fn a_vertex_array_is_set_up_call_by_call() {
    let vertices: Vec<u32> = [0.5f32, 0.5, 0.5, -0.5, 0.5, 0.5].iter().map(|x| x.to_bits()).collect();
    let indices = vec![1, 2, 0, 3, 0, 2];
    let mut setup = vertex_array_from_vertices(0, 3, vertices.clone(), indices.clone());
    assert!(!setup.is_finished());
    let mut actions = Vec::new();
    for k in 0..20 {
        let reply = match k {
            1 => Reply::Name(7),
            2 => Reply::Name(8),
            9 => Reply::Name(9),
            _ => Reply::Nothing,
        };
        actions.push(setup.step(reply));
    }
    let expected = vec![
        Action::Issue(Call::GenBuffers),
        Action::Issue(Call::GenBuffers),
        Action::Issue(Call::BindBuffer { target: 0x8892, buffer: 7 }),
        Action::Issue(Call::BufferData { target: 0x8892, size: 24, data: vertices, usage: 0x88E4 }),
        Action::Issue(Call::BindBuffer { target: 0x8892, buffer: 0 }),
        Action::Issue(Call::BindBuffer { target: 0x8893, buffer: 8 }),
        Action::Issue(Call::BufferData { target: 0x8893, size: 24, data: indices, usage: 0x88E4 }),
        Action::Issue(Call::BindBuffer { target: 0x8893, buffer: 0 }),
        Action::Issue(Call::GenVertexArrays),
        Action::Issue(Call::BindVertexArray { array: 9 }),
        Action::Issue(Call::BindBuffer { target: 0x8892, buffer: 7 }),
        Action::Issue(Call::VertexAttribPointer {
            index: 0,
            components: 3,
            kind: 0x1406,
            normalized: 0,
            stride: 12,
        }),
        Action::Issue(Call::BindBuffer { target: 0x8892, buffer: 0 }),
        Action::Issue(Call::EnableVertexAttribArray { index: 0 }),
        Action::Issue(Call::BindBuffer { target: 0x8893, buffer: 8 }),
        Action::Issue(Call::BindVertexArray { array: 0 }),
        Action::Issue(Call::BindBuffer { target: 0x8893, buffer: 0 }),
        Action::Issue(Call::DeleteBuffers { buffer: 8 }),
        Action::Issue(Call::DeleteBuffers { buffer: 7 }),
        Action::Finish,
    ];
    assert_eq!(actions, expected);
    assert!(setup.is_finished());
    assert_eq!(setup.step(Reply::Name(1)), Action::Finish);
    assert_eq!(setup.vertex_array().unwrap().name(), 9);
}

#[test]
fn a_vertex_array_is_there_only_when_the_end_was_handed_out() {
    let mut setup = vertex_array_from_vertices(2, 4, vec![1], vec![0]);
    for _ in 0..19 {
        assert!(!setup.is_finished());
        assert!(setup.step(Reply::Name(3)) != Action::Finish);
    }
    assert!(!setup.is_finished());
    assert_eq!(setup.step(Reply::Name(3)), Action::Finish);
    assert!(setup.is_finished());
    assert_eq!(setup.vertex_array().unwrap().name(), 3);
    let mut early = vertex_array_from_vertices(2, 4, vec![1], vec![0]);
    early.step(Reply::Nothing);
    assert_eq!(early.vertex_array(), None);
}

#[test]
fn a_frame_clears_and_draws() {
    let program = Program::new(&Reply::Name(5));
    let array = VertexArray::new(&Reply::Name(6));
    assert_eq!(
        frame(&program, &array),
        vec![
            Call::ClearColor {
                red: 0.1f32.to_bits(),
                green: 0.1f32.to_bits(),
                blue: 0.1f32.to_bits(),
                alpha: 1.0f32.to_bits(),
            },
            Call::Clear { mask: 0x4000 },
            Call::UseProgram { program: 5 },
            Call::BindVertexArray { array: 6 },
            Call::DrawElements { mode: 4, count: 6, kind: 0x1405 },
            Call::BindVertexArray { array: 0 },
        ]
    );
}

#[test]
fn a_new_framebuffer_size_moves_the_viewport() {
    assert_eq!(
        process_event(WindowEvent::FramebufferSize(1600, 1200)),
        Response::Issue(Call::Viewport { x: 0, y: 0, width: 1600, height: 1200 })
    );
    assert_eq!(
        process_event(WindowEvent::FramebufferSize(0, -1)),
        Response::Issue(Call::Viewport { x: 0, y: 0, width: 0, height: -1 })
    );
}

#[test]
fn pressing_escape_closes_the_window() {
    assert_eq!(process_event(WindowEvent::Key(Key::Escape, KeyAction::Press)), Response::Close);
}

#[test]
fn only_a_press_counts() {
    for key in [Key::Escape, Key::Num1, Key::Num2, Key::Num3, Key::Other] {
        assert_eq!(process_event(WindowEvent::Key(key, KeyAction::Release)), Response::Ignore);
        assert_eq!(process_event(WindowEvent::Key(key, KeyAction::Repeat)), Response::Ignore);
    }
}

#[test]
fn other_keys_and_events_are_ignored() {
    assert_eq!(process_event(WindowEvent::Key(Key::Other, KeyAction::Press)), Response::Ignore);
    assert_eq!(process_event(WindowEvent::Other), Response::Ignore);
}

#[test]
fn number_keys_choose_how_polygons_are_drawn() {
    assert_eq!(
        process_event(WindowEvent::Key(Key::Num1, KeyAction::Press)),
        Response::Issue(Call::PolygonMode { face: gl::FRONT_AND_BACK, mode: gl::POINT })
    );
    assert_eq!(
        process_event(WindowEvent::Key(Key::Num2, KeyAction::Press)),
        Response::Issue(Call::PolygonMode { face: gl::FRONT_AND_BACK, mode: gl::LINE })
    );
    assert_eq!(
        process_event(WindowEvent::Key(Key::Num3, KeyAction::Press)),
        Response::Issue(Call::PolygonMode { face: gl::FRONT_AND_BACK, mode: gl::FILL })
    );
}

#[test]
fn events_are_answered_one_by_one_in_their_order() {
    let events = vec![
        WindowEvent::Key(Key::Num2, KeyAction::Press),
        WindowEvent::Other,
        WindowEvent::FramebufferSize(640, 480),
        WindowEvent::Key(Key::Escape, KeyAction::Press),
        WindowEvent::Key(Key::Num3, KeyAction::Release),
        WindowEvent::Key(Key::Num3, KeyAction::Press),
    ];
    assert_eq!(
        process_events(&events),
        vec![
            Response::Issue(Call::PolygonMode { face: 0x0408, mode: 0x1B01 }),
            Response::Ignore,
            Response::Issue(Call::Viewport { x: 0, y: 0, width: 640, height: 480 }),
            Response::Close,
            Response::Ignore,
            Response::Issue(Call::PolygonMode { face: 0x0408, mode: 0x1B02 }),
        ]
    );
}

#[test]
fn no_events_get_no_responses() {
    assert_eq!(process_events(&Vec::new()), Vec::<Response>::new());
}
