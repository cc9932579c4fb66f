//! What a windowed program does with the objects of [`crate::graphics`]: it
//! uploads one indexed set of vertices, draws it every frame, and answers the
//! window's events.
use crate::binding::{array_at, buffer_at, unbound_at};
use crate::call::{
    byte_len, byte_size, call_views, uploadable, Action, ActionView, Call, CallView, Reply,
    VERTEX_STRIDE,
};
use crate::codes;
use crate::graphics::{
    clear, clear_color, draw_elements, viewport, DrawMode, Program, VertexArray,
};
use vstd::prelude::*;

verus! {

/// Begins the making of a vertex array from `vertices`, three single-precision
/// numbers to a vertex given as their bit patterns, and `indices`. The
/// attribute `location` of the vertex array is given `size` components.
pub fn vertex_array_from_vertices(
    location: u32,
    size: i32,
    vertices: Vec<u32>,
    indices: Vec<u32>,
) -> (setup: VertexArraySetup)
    requires
        uploadable(vertices@),
        uploadable(indices@),
    ensures
        setup@ == VertexArraySetupView::start(location, size, vertices@, indices@),
{
    VertexArraySetup { location, size, vertices, indices, cursor: 0, vb: 0, ib: 0, vao: 0 }
}

/// The making of a vertex array. Two buffers are made and filled, each bound
/// only while it is filled. Then the vertex array is made and bound, the
/// attribute is described while the vertex buffer is bound and switched on,
/// and the index buffer is bound, so that the vertex array remembers both.
/// The vertex array is unbound before the index buffer is. In the end both
/// buffers are deleted, the index buffer first: the vertex array keeps what
/// it needs of them.
#[derive(Debug, PartialEq, Eq)]
pub struct VertexArraySetup {
    location: u32,
    size: i32,
    vertices: Vec<u32>,
    indices: Vec<u32>,
    cursor: usize,
    vb: u32,
    ib: u32,
    vao: u32,
}

/// A [`VertexArraySetup`], with its data as sequences.
pub struct VertexArraySetupView {
    pub location: u32,
    pub size: i32,
    pub vertices: Seq<u32>,
    pub indices: Seq<u32>,
    /// How many actions have been handed out.
    pub cursor: nat,
    pub vb: u32,
    pub ib: u32,
    pub vao: u32,
}

impl VertexArraySetupView {
    /// A setup that has not begun. No name is known yet.
    pub open spec fn start(location: u32, size: i32, vertices: Seq<u32>, indices: Seq<u32>) -> Self {
        VertexArraySetupView { location, size, vertices, indices, cursor: 0, vb: 0, ib: 0, vao: 0 }
    }

    /// Whether the data can be uploaded.
    pub open spec fn wf(self) -> bool {
        uploadable(self.vertices) && uploadable(self.indices)
    }

    /// The setup with these three names.
    pub open spec fn named(self, vb: u32, ib: u32, vao: u32) -> Self {
        VertexArraySetupView { vb, ib, vao, ..self }
    }

    /// Everything the setup asks for, in its order, with the names as far as
    /// they are known.
    pub open spec fn plan(self) -> Seq<ActionView> {
        let array = codes::array_buffer();
        let element = codes::element_array_buffer();
        seq![
            ActionView::Issue(CallView::GenBuffers),
            ActionView::Issue(CallView::GenBuffers),
            ActionView::Issue(CallView::BindBuffer { target: array, buffer: self.vb }),
            ActionView::Issue(
                CallView::BufferData {
                    target: array,
                    size: byte_len(self.vertices) as isize,
                    data: self.vertices,
                    usage: codes::static_draw(),
                },
            ),
            ActionView::Issue(CallView::BindBuffer { target: array, buffer: 0 }),
            ActionView::Issue(CallView::BindBuffer { target: element, buffer: self.ib }),
            ActionView::Issue(
                CallView::BufferData {
                    target: element,
                    size: byte_len(self.indices) as isize,
                    data: self.indices,
                    usage: codes::static_draw(),
                },
            ),
            ActionView::Issue(CallView::BindBuffer { target: element, buffer: 0 }),
            ActionView::Issue(CallView::GenVertexArrays),
            ActionView::Issue(CallView::BindVertexArray { array: self.vao }),
            ActionView::Issue(CallView::BindBuffer { target: array, buffer: self.vb }),
            ActionView::Issue(
                CallView::VertexAttribPointer {
                    index: self.location,
                    components: self.size,
                    kind: codes::float(),
                    normalized: codes::gl_false(),
                    stride: VERTEX_STRIDE,
                },
            ),
            ActionView::Issue(CallView::BindBuffer { target: array, buffer: 0 }),
            ActionView::Issue(CallView::EnableVertexAttribArray { index: self.location }),
            ActionView::Issue(CallView::BindBuffer { target: element, buffer: self.ib }),
            ActionView::Issue(CallView::BindVertexArray { array: 0 }),
            ActionView::Issue(CallView::BindBuffer { target: element, buffer: 0 }),
            ActionView::Issue(CallView::DeleteBuffers { buffer: self.ib }),
            ActionView::Issue(CallView::DeleteBuffers { buffer: self.vb }),
            ActionView::Finish,
        ]
    }

    /// The setup once it has noted what `reply` says. The replies to the
    /// first two calls are the names of the vertex buffer and the index
    /// buffer, the reply to the ninth is the name of the vertex array; a
    /// reply without a name leaves zero.
    pub open spec fn record(self, reply: Reply) -> Self {
        if self.cursor == 1 {
            VertexArraySetupView { vb: reply.name_or(self.vb), ..self }
        } else if self.cursor == 2 {
            VertexArraySetupView { ib: reply.name_or(self.ib), ..self }
        } else if self.cursor == 9 {
            VertexArraySetupView { vao: reply.name_or(self.vao), ..self }
        } else {
            self
        }
    }

    /// The setup after it has taken `reply`.
    pub open spec fn next(self, reply: Reply) -> Self {
        let noted = self.record(reply);
        if self.cursor < self.plan().len() {
            VertexArraySetupView { cursor: self.cursor + 1, ..noted }
        } else {
            noted
        }
    }

    /// What the setup asks for once it has taken `reply`.
    pub open spec fn action(self, reply: Reply) -> ActionView {
        if self.cursor < self.plan().len() {
            self.record(reply).plan()[self.cursor as int]
        } else {
            ActionView::Finish
        }
    }

    /// Whether everything has been asked for.
    pub open spec fn finished(self) -> bool {
        self.cursor >= self.plan().len()
    }

    /// The setup after it has taken the first `count` of `replies`.
    pub open spec fn after(self, replies: Seq<Reply>, count: nat) -> Self
        decreases count,
    {
        if count == 0 {
            self
        } else {
            self.after(replies, (count - 1) as nat).next(replies[count - 1])
        }
    }

    proof fn after_shape(self, replies: Seq<Reply>, count: nat)
        requires
            self.cursor == 0,
            self.vb == 0 && self.ib == 0 && self.vao == 0,
            count <= replies.len(),
        ensures
            self.after(replies, count) == (VertexArraySetupView {
                cursor: if count < 20 {
                    count
                } else {
                    20
                },
                vb: if count >= 2 {
                    replies[1].name_or(0)
                } else {
                    0
                },
                ib: if count >= 3 {
                    replies[2].name_or(0)
                } else {
                    0
                },
                vao: if count >= 10 {
                    replies[9].name_or(0)
                } else {
                    0
                },
                ..self
            }),
        decreases count,
    {
        if count > 0 {
            self.after_shape(replies, (count - 1) as nat);
        }
    }
}

/// A setup asks for its plan, entry by entry, with the names that the driver
/// gave in reply to the three calls that make an object, and when the plan is
/// through it is finished with the vertex array's name in hand. No other
/// reply matters.
pub proof fn vertex_array_setup_follows_plan(
    location: u32,
    size: i32,
    vertices: Seq<u32>,
    indices: Seq<u32>,
    replies: Seq<Reply>,
)
    requires
        replies.len() >= 20,
    ensures
        ({
            let start = VertexArraySetupView::start(location, size, vertices, indices);
            let names = start.named(
                replies[1].name_or(0),
                replies[2].name_or(0),
                replies[9].name_or(0),
            );
            &&& forall|k: nat|
                k < 20 ==> #[trigger] start.after(replies, k).action(replies[k as int])
                    == names.plan()[k as int]
            &&& forall|k: nat|
                20 <= k <= replies.len() ==> (#[trigger] start.after(replies, k)).finished()
                    && start.after(replies, k).vao == names.vao
        }),
{
    let start = VertexArraySetupView::start(location, size, vertices, indices);
    let names = start.named(replies[1].name_or(0), replies[2].name_or(0), replies[9].name_or(0));
    assert forall|k: nat| k < 20 implies #[trigger] start.after(replies, k).action(
        replies[k as int],
    ) == names.plan()[k as int] by {
        start.after_shape(replies, k);
    }
    assert forall|k: nat| 20 <= k <= replies.len() implies (#[trigger] start.after(
        replies,
        k,
    )).finished() && start.after(replies, k).vao == names.vao by {
        start.after_shape(replies, k);
    }
}

/// The setup binds what it says it binds. The attribute is described while
/// the vertex array is current and the vertex buffer is bound, so that the
/// attribute reads from that buffer. The vertex array is unbound while it is
/// current and the index buffer is bound, so that it keeps that buffer. Each
/// buffer is deleted only when it is bound nowhere, and in the end nothing is
/// bound at all.
pub proof fn vertex_array_setup_binds(setup: VertexArraySetupView)
    ensures
        ({
            let plan = setup.plan();
            &&& plan[11] is Issue && plan[11]->Issue_0 is VertexAttribPointer
            &&& array_at(plan, 11) == setup.vao
            &&& buffer_at(plan, codes::array_buffer(), 11) == setup.vb
            &&& plan[15] == ActionView::Issue(CallView::BindVertexArray { array: 0 })
            &&& array_at(plan, 15) == setup.vao
            &&& buffer_at(plan, codes::element_array_buffer(), 15) == setup.ib
            &&& plan[17] == ActionView::Issue(CallView::DeleteBuffers { buffer: setup.ib })
            &&& unbound_at(plan, 17)
            &&& unbound_at(plan, plan.len())
        }),
{
    reveal_with_fuel(array_at, 12);
    reveal_with_fuel(buffer_at, 21);
}

impl View for VertexArraySetup {
    type V = VertexArraySetupView;

    closed spec fn view(&self) -> VertexArraySetupView {
        VertexArraySetupView {
            location: self.location,
            size: self.size,
            vertices: self.vertices@,
            indices: self.indices@,
            cursor: self.cursor as nat,
            vb: self.vb,
            ib: self.ib,
            vao: self.vao,
        }
    }
}

impl VertexArraySetup {
    /// Takes the reply to the call issued last and says what to do next. The
    /// first step takes any reply.
    pub fn step(&mut self, reply: Reply) -> (action: Action)
        requires
            old(self)@.wf(),
        ensures
            final(self)@ == old(self)@.next(reply),
            final(self)@.wf(),
            action@ == old(self)@.action(reply),
    {
        let at = self.cursor;
        if at == 1 {
            self.vb = reply.get_name_or(self.vb);
        } else if at == 2 {
            self.ib = reply.get_name_or(self.ib);
        } else if at == 9 {
            self.vao = reply.get_name_or(self.vao);
        }
        if at < 20 {
            self.cursor = at + 1;
        }
        let array = codes::read_array_buffer();
        let element = codes::read_element_array_buffer();
        match at {
            0 => Action::Issue(Call::GenBuffers),
            1 => Action::Issue(Call::GenBuffers),
            2 => Action::Issue(Call::BindBuffer { target: array, buffer: self.vb }),
            3 => Action::Issue(
                Call::BufferData {
                    target: array,
                    size: byte_size(&self.vertices),
                    data: self.vertices.clone(),
                    usage: codes::read_static_draw(),
                },
            ),
            4 => Action::Issue(Call::BindBuffer { target: array, buffer: 0 }),
            5 => Action::Issue(Call::BindBuffer { target: element, buffer: self.ib }),
            6 => Action::Issue(
                Call::BufferData {
                    target: element,
                    size: byte_size(&self.indices),
                    data: self.indices.clone(),
                    usage: codes::read_static_draw(),
                },
            ),
            7 => Action::Issue(Call::BindBuffer { target: element, buffer: 0 }),
            8 => Action::Issue(Call::GenVertexArrays),
            9 => Action::Issue(Call::BindVertexArray { array: self.vao }),
            10 => Action::Issue(Call::BindBuffer { target: array, buffer: self.vb }),
            11 => Action::Issue(
                Call::VertexAttribPointer {
                    index: self.location,
                    components: self.size,
                    kind: codes::read_float(),
                    normalized: codes::read_false(),
                    stride: VERTEX_STRIDE,
                },
            ),
            12 => Action::Issue(Call::BindBuffer { target: array, buffer: 0 }),
            13 => Action::Issue(Call::EnableVertexAttribArray { index: self.location }),
            14 => Action::Issue(Call::BindBuffer { target: element, buffer: self.ib }),
            15 => Action::Issue(Call::BindVertexArray { array: 0 }),
            16 => Action::Issue(Call::BindBuffer { target: element, buffer: 0 }),
            17 => Action::Issue(Call::DeleteBuffers { buffer: self.ib }),
            18 => Action::Issue(Call::DeleteBuffers { buffer: self.vb }),
            _ => Action::Finish,
        }
    }

    /// Whether everything has been asked for.
    pub fn is_finished(&self) -> (finished: bool)
        ensures
            finished == self@.finished(),
    {
        self.cursor >= 20
    }

    /// Ends the setup. There is a vertex array if everything has been asked
    /// for.
    pub fn vertex_array(self) -> (array: Option<VertexArray>)
        ensures
            array is Some == self@.finished(),
            array is Some ==> array.unwrap().spec_name() == self@.vao,
    {
        if self.cursor >= 20 {
            Some(VertexArray::new(&Reply::Name(self.vao)))
        } else {
            None
        }
    }
}

/// The calls that draw one frame: the colour buffer is cleared to a dark
/// grey, and with `program` in use and `array` bound six indices are drawn as
/// triangles.
pub fn frame(program: &Program, array: &VertexArray) -> (calls: Vec<Call>)
    ensures
        call_views(calls@) == seq![
            CallView::ClearColor {
                red: 0x3DCC_CCCD,
                green: 0x3DCC_CCCD,
                blue: 0x3DCC_CCCD,
                alpha: 0x3F80_0000,
            },
            CallView::Clear { mask: codes::color_buffer_bit() },
            CallView::UseProgram { program: program.spec_id() },
            CallView::BindVertexArray { array: array.spec_name() },
            CallView::DrawElements {
                mode: codes::triangles(),
                count: 6,
                kind: codes::unsigned_int(),
            },
            CallView::BindVertexArray { array: 0 },
        ],
{
    let calls = vec![
        clear_color(0x3DCC_CCCD, 0x3DCC_CCCD, 0x3DCC_CCCD, 0x3F80_0000),
        clear(),
        program.use_program(),
        array.bind(),
        draw_elements(DrawMode::Triangles, 6),
        array.unbind(),
    ];
    assert(call_views(calls@) =~= seq![
        CallView::ClearColor {
            red: 0x3DCC_CCCD,
            green: 0x3DCC_CCCD,
            blue: 0x3DCC_CCCD,
            alpha: 0x3F80_0000,
        },
        CallView::Clear { mask: codes::color_buffer_bit() },
        CallView::UseProgram { program: program.spec_id() },
        CallView::BindVertexArray { array: array.spec_name() },
        CallView::DrawElements { mode: codes::triangles(), count: 6, kind: codes::unsigned_int() },
        CallView::BindVertexArray { array: 0 },
    ]);
    calls
}

/// The keys that the program tells apart.
#[derive(Clone, Copy, Debug, PartialEq, Eq)]
pub enum Key {
    Escape,
    Num1,
    Num2,
    Num3,
    /// Any other key.
    Other,
}

/// What happened to a key.
#[derive(Clone, Copy, Debug, PartialEq, Eq)]
pub enum KeyAction {
    Release,
    Press,
    Repeat,
}

/// An event of the window, as far as the program reads it.
#[derive(Clone, Copy, Debug, PartialEq, Eq)]
pub enum WindowEvent {
    /// The framebuffer has a new size, in pixels.
    FramebufferSize(i32, i32),
    /// A key was pressed, released or held.
    Key(Key, KeyAction),
    /// Any other event.
    Other,
}

/// What the program does about an event.
#[derive(Debug, PartialEq, Eq)]
pub enum Response {
    /// Perform this call.
    Issue(Call),
    /// Ask the window to close.
    Close,
    /// Nothing.
    Ignore,
}

/// What a [`Response`] is, with its call as a [`CallView`].
pub enum ResponseView {
    Issue(CallView),
    Close,
    Ignore,
}

impl View for Response {
    type V = ResponseView;

    open spec fn view(&self) -> ResponseView {
        match *self {
            Response::Issue(call) => ResponseView::Issue(call@),
            Response::Close => ResponseView::Close,
            Response::Ignore => ResponseView::Ignore,
        }
    }
}

/// The call that has polygons drawn in `mode`, front and back.
pub open spec fn polygon_mode(mode: u32) -> ResponseView {
    ResponseView::Issue(CallView::PolygonMode { face: codes::front_and_back(), mode })
}

/// The response to one event. A new framebuffer size moves the viewport onto
/// the whole framebuffer. Pressing escape closes the window; pressing 1, 2 or
/// 3 has polygons drawn as points, as outlines or filled. Nothing else has an
/// effect, neither another key nor a key that is released or held.
pub open spec fn response_to(event: WindowEvent) -> ResponseView {
    match event {
        WindowEvent::FramebufferSize(width, height) => ResponseView::Issue(
            CallView::Viewport { x: 0, y: 0, width, height },
        ),
        WindowEvent::Key(Key::Escape, KeyAction::Press) => ResponseView::Close,
        WindowEvent::Key(Key::Num1, KeyAction::Press) => polygon_mode(codes::point()),
        WindowEvent::Key(Key::Num2, KeyAction::Press) => polygon_mode(codes::line()),
        WindowEvent::Key(Key::Num3, KeyAction::Press) => polygon_mode(codes::fill()),
        _ => ResponseView::Ignore,
    }
}

/// The response to one event.
pub fn process_event(event: WindowEvent) -> (response: Response)
    ensures
        response@ == response_to(event),
{
    match event {
        WindowEvent::FramebufferSize(width, height) => Response::Issue(
            viewport(0, 0, width, height),
        ),
        WindowEvent::Key(Key::Escape, KeyAction::Press) => Response::Close,
        WindowEvent::Key(Key::Num1, KeyAction::Press) => Response::Issue(
            Call::PolygonMode { face: codes::read_front_and_back(), mode: codes::read_point() },
        ),
        WindowEvent::Key(Key::Num2, KeyAction::Press) => Response::Issue(
            Call::PolygonMode { face: codes::read_front_and_back(), mode: codes::read_line() },
        ),
        WindowEvent::Key(Key::Num3, KeyAction::Press) => Response::Issue(
            Call::PolygonMode { face: codes::read_front_and_back(), mode: codes::read_fill() },
        ),
        _ => Response::Ignore,
    }
}

/// The responses to the events that have queued up, one for each event, in
/// the events' order.
pub fn process_events(events: &Vec<WindowEvent>) -> (responses: Vec<Response>)
    ensures
        responses@.len() == events@.len(),
        forall|i: int| 0 <= i < events@.len() ==> (#[trigger] responses@[i])@ == response_to(events@[i]),
{
    let mut responses: Vec<Response> = Vec::new();
    let mut i: usize = 0;
    while i < events.len()
        invariant
            i <= events@.len(),
            responses@.len() == i,
            forall|j: int| 0 <= j < i ==> (#[trigger] responses@[j])@ == response_to(events@[j]),
        decreases events@.len() - i,
    {
        responses.push(process_event(events[i]));
        i += 1;
    }
    responses
}

} // verus!
