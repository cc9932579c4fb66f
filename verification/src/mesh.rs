//! Geometry, material and mesh: a vertex array with its data, a linked
//! program, and the two drawn together.
use crate::binding::{array_at, buffer_at, unbound_at};
use crate::call::{
    byte_len, byte_size, call_views, uploadable, Action, ActionView, Call, CallView, Reply,
    VERTEX_STRIDE,
};
use crate::codes;
pub use crate::graphics::{draw_arrays, draw_elements, viewport, DrawMode};
use crate::text::{log_text, read_log};
use vstd::prelude::*;
use vstd::string::StringExecFns;
use vstd::string::StringSliceAdditionalSpecFns;

verus! {

/// An indexed set of vertices on the driver's side: a vertex array and the
/// two buffers that it reads, the element buffer and the vertex buffer. All
/// three names are the geometry's own, and it releases all three.
#[derive(Debug, PartialEq, Eq)]
pub struct Geometry {
    vao: u32,
    ebo: u32,
    vbo: u32,
}

impl Geometry {
    /// The name of the vertex array.
    pub closed spec fn spec_vao(&self) -> u32 {
        self.vao
    }

    /// The name of the element buffer.
    pub closed spec fn spec_ebo(&self) -> u32 {
        self.ebo
    }

    /// The name of the vertex buffer.
    pub closed spec fn spec_vbo(&self) -> u32 {
        self.vbo
    }

    /// The calls that release a geometry of these names: the vertex array
    /// goes first, then the element buffer, then the vertex buffer.
    pub open spec fn delete_calls(vao: u32, ebo: u32, vbo: u32) -> Seq<CallView> {
        seq![
            CallView::DeleteVertexArrays { array: vao },
            CallView::DeleteBuffers { buffer: ebo },
            CallView::DeleteBuffers { buffer: vbo },
        ]
    }

    /// The name of the vertex array.
    pub fn vao(&self) -> (vao: u32)
        ensures
            vao == self.spec_vao(),
    {
        self.vao
    }

    /// The name of the element buffer.
    pub fn ebo(&self) -> (ebo: u32)
        ensures
            ebo == self.spec_ebo(),
    {
        self.ebo
    }

    /// The name of the vertex buffer.
    pub fn vbo(&self) -> (vbo: u32)
        ensures
            vbo == self.spec_vbo(),
    {
        self.vbo
    }

    /// Begins the making of a geometry from `vertices`, three single-precision
    /// numbers to a vertex given as their bit patterns, and `indices`. The
    /// attribute `index` of the vertex array is given `size` components.
    pub fn new(index: u32, size: i32, vertices: Vec<u32>, indices: Vec<u32>) -> (setup:
        GeometrySetup)
        requires
            uploadable(vertices@),
            uploadable(indices@),
        ensures
            setup@ == GeometrySetupView::start(index, size, vertices@, indices@),
    {
        GeometrySetup { index, size, vertices, indices, cursor: 0, vao: 0, ebo: 0, vbo: 0 }
    }

    /// Makes this the current vertex array.
    pub fn bind(&self) -> (call: Call)
        ensures
            call@ == (CallView::BindVertexArray { array: self.spec_vao() }),
    {
        Call::BindVertexArray { array: self.vao }
    }

    /// Leaves the context without a current vertex array.
    pub fn unbind(&self) -> (call: Call)
        ensures
            call@ == (CallView::BindVertexArray { array: 0 }),
    {
        Call::BindVertexArray { array: 0 }
    }

    /// The calls that end the geometry's life. Each of its three names is
    /// released, once.
    pub fn delete(self) -> (calls: Vec<Call>)
        ensures
            call_views(calls@) == Geometry::delete_calls(
                self.spec_vao(),
                self.spec_ebo(),
                self.spec_vbo(),
            ),
    {
        let calls = vec![
            Call::DeleteVertexArrays { array: self.vao },
            Call::DeleteBuffers { buffer: self.ebo },
            Call::DeleteBuffers { buffer: self.vbo },
        ];
        assert(call_views(calls@) =~= Geometry::delete_calls(self.vao, self.ebo, self.vbo));
        calls
    }
}

/// The making of a [`Geometry`]: three names are asked for, the vertex array
/// is bound, both buffers are filled, the attribute is described and switched
/// on, and everything is unbound again, the element buffer last, after the
/// vertex array that remembers it. Nothing is deleted: the three names go to
/// the geometry, which releases them when its life ends.
#[derive(Debug, PartialEq, Eq)]
pub struct GeometrySetup {
    index: u32,
    size: i32,
    vertices: Vec<u32>,
    indices: Vec<u32>,
    cursor: usize,
    vao: u32,
    ebo: u32,
    vbo: u32,
}

/// A [`GeometrySetup`], with its data as sequences.
pub struct GeometrySetupView {
    pub index: u32,
    pub size: i32,
    pub vertices: Seq<u32>,
    pub indices: Seq<u32>,
    /// How many actions have been handed out.
    pub cursor: nat,
    pub vao: u32,
    pub ebo: u32,
    pub vbo: u32,
}

impl GeometrySetupView {
    /// A setup that has not begun. No name is known yet.
    pub open spec fn start(index: u32, size: i32, vertices: Seq<u32>, indices: Seq<u32>) -> Self {
        GeometrySetupView { index, size, vertices, indices, cursor: 0, vao: 0, ebo: 0, vbo: 0 }
    }

    /// Whether the data can be uploaded.
    pub open spec fn wf(self) -> bool {
        uploadable(self.vertices) && uploadable(self.indices)
    }

    /// Everything the setup asks for, in its order, with the names as far as
    /// they are known.
    pub open spec fn plan(self) -> Seq<ActionView> {
        seq![
            ActionView::Issue(CallView::GenVertexArrays),
            ActionView::Issue(CallView::GenBuffers),
            ActionView::Issue(CallView::GenBuffers),
            ActionView::Issue(CallView::BindVertexArray { array: self.vao }),
            ActionView::Issue(CallView::BindBuffer { target: codes::array_buffer(), buffer: self.vbo }),
            ActionView::Issue(
                CallView::BufferData {
                    target: codes::array_buffer(),
                    size: byte_len(self.vertices) as isize,
                    data: self.vertices,
                    usage: codes::static_draw(),
                },
            ),
            ActionView::Issue(
                CallView::BindBuffer { target: codes::element_array_buffer(), buffer: self.ebo },
            ),
            ActionView::Issue(
                CallView::BufferData {
                    target: codes::element_array_buffer(),
                    size: byte_len(self.indices) as isize,
                    data: self.indices,
                    usage: codes::static_draw(),
                },
            ),
            ActionView::Issue(
                CallView::VertexAttribPointer {
                    index: self.index,
                    components: self.size,
                    kind: codes::float(),
                    normalized: codes::gl_false(),
                    stride: VERTEX_STRIDE,
                },
            ),
            ActionView::Issue(CallView::EnableVertexAttribArray { index: self.index }),
            ActionView::Issue(CallView::BindBuffer { target: codes::array_buffer(), buffer: 0 }),
            ActionView::Issue(CallView::BindVertexArray { array: 0 }),
            ActionView::Issue(CallView::BindBuffer { target: codes::element_array_buffer(), buffer: 0 }),
            ActionView::Finish,
        ]
    }

    /// The setup once it has noted what `reply` says. The replies to the
    /// first three calls are the names of the vertex array, the element
    /// buffer and the vertex buffer; a reply without a name leaves zero.
    pub open spec fn record(self, reply: Reply) -> Self {
        if self.cursor == 1 {
            GeometrySetupView { vao: reply.name_or(self.vao), ..self }
        } else if self.cursor == 2 {
            GeometrySetupView { ebo: reply.name_or(self.ebo), ..self }
        } else if self.cursor == 3 {
            GeometrySetupView { vbo: reply.name_or(self.vbo), ..self }
        } else {
            self
        }
    }

    /// The setup after it has taken `reply`.
    pub open spec fn next(self, reply: Reply) -> Self {
        let noted = self.record(reply);
        if self.cursor < self.plan().len() {
            GeometrySetupView { cursor: self.cursor + 1, ..noted }
        } else {
            noted
        }
    }

    /// What the setup asks for once it has taken `reply`.
    pub open spec fn action(self, reply: Reply) -> ActionView {
        if self.cursor < self.plan().len() {
            self.record(reply).plan()[self.cursor as int]
        } else {
            ActionView::Finish
        }
    }

    /// Whether everything has been asked for.
    pub open spec fn finished(self) -> bool {
        self.cursor >= self.plan().len()
    }

    /// The setup after it has taken the first `count` of `replies`.
    pub open spec fn after(self, replies: Seq<Reply>, count: nat) -> Self
        decreases count,
    {
        if count == 0 {
            self
        } else {
            self.after(replies, (count - 1) as nat).next(replies[count - 1])
        }
    }

    /// The setup with these three names.
    pub open spec fn named(self, vao: u32, ebo: u32, vbo: u32) -> Self {
        GeometrySetupView { vao, ebo, vbo, ..self }
    }

    proof fn after_shape(self, replies: Seq<Reply>, count: nat)
        requires
            self.cursor == 0,
            self.vao == 0 && self.ebo == 0 && self.vbo == 0,
            count <= replies.len(),
        ensures
            self.after(replies, count) == (GeometrySetupView {
                cursor: if count < 14 {
                    count
                } else {
                    14
                },
                vao: if count >= 2 {
                    replies[1].name_or(0)
                } else {
                    0
                },
                ebo: if count >= 3 {
                    replies[2].name_or(0)
                } else {
                    0
                },
                vbo: if count >= 4 {
                    replies[3].name_or(0)
                } else {
                    0
                },
                ..self
            }),
        decreases count,
    {
        if count > 0 {
            self.after_shape(replies, (count - 1) as nat);
        }
    }
}

/// A setup asks for its plan, entry by entry, with the names that the driver
/// gave in reply to the first three calls, and when the plan is through it is
/// finished with the vertex array's name in hand. No other reply matters.
pub proof fn geometry_setup_follows_plan(
    index: u32,
    size: i32,
    vertices: Seq<u32>,
    indices: Seq<u32>,
    replies: Seq<Reply>,
)
    requires
        replies.len() >= 14,
    ensures
        ({
            let start = GeometrySetupView::start(index, size, vertices, indices);
            let names = start.named(
                replies[1].name_or(0),
                replies[2].name_or(0),
                replies[3].name_or(0),
            );
            &&& forall|k: nat|
                k < 14 ==> #[trigger] start.after(replies, k).action(replies[k as int])
                    == names.plan()[k as int]
            &&& forall|k: nat|
                14 <= k <= replies.len() ==> (#[trigger] start.after(replies, k)).finished()
                    && start.after(replies, k).vao == names.vao && start.after(replies, k).ebo
                    == names.ebo && start.after(replies, k).vbo == names.vbo
        }),
{
    let start = GeometrySetupView::start(index, size, vertices, indices);
    let names = start.named(replies[1].name_or(0), replies[2].name_or(0), replies[3].name_or(0));
    assert forall|k: nat| k < 14 implies #[trigger] start.after(replies, k).action(
        replies[k as int],
    ) == names.plan()[k as int] by {
        start.after_shape(replies, k);
    }
    assert forall|k: nat| 14 <= k <= replies.len() implies (#[trigger] start.after(
        replies,
        k,
    )).finished() && start.after(replies, k).vao == names.vao && start.after(replies, k).ebo
        == names.ebo && start.after(replies, k).vbo == names.vbo by {
        start.after_shape(replies, k);
    }
}

/// Whether `action` releases an object.
pub open spec fn releases(action: ActionView) -> bool {
    match action {
        ActionView::Issue(CallView::DeleteBuffers { .. }) => true,
        ActionView::Issue(CallView::DeleteVertexArrays { .. }) => true,
        ActionView::Issue(CallView::DeleteShader { .. }) => true,
        ActionView::Issue(CallView::DeleteProgram { .. }) => true,
        _ => false,
    }
}

/// A geometry's names are released exactly once over its life. The setup
/// that makes them releases nothing, and the calls that end the geometry
/// release the vertex array, the element buffer and the vertex buffer, one
/// call for each.
pub proof fn geometry_releases_once(setup: GeometrySetupView)
    ensures
        forall|k: int| 0 <= k < setup.plan().len() ==> !releases(#[trigger] setup.plan()[k]),
        Geometry::delete_calls(setup.vao, setup.ebo, setup.vbo).len() == 3,
        Geometry::delete_calls(setup.vao, setup.ebo, setup.vbo)[0] == (CallView::DeleteVertexArrays {
            array: setup.vao,
        }),
        Geometry::delete_calls(setup.vao, setup.ebo, setup.vbo)[1] == (CallView::DeleteBuffers {
            buffer: setup.ebo,
        }),
        Geometry::delete_calls(setup.vao, setup.ebo, setup.vbo)[2] == (CallView::DeleteBuffers {
            buffer: setup.vbo,
        }),
{
}

/// The setup binds what it says it binds. Both buffers are filled and the
/// attribute is described while the vertex array is current, the attribute
/// while the vertex buffer is bound, so that it reads from that buffer. The
/// vertex array is unbound while it is current and the element buffer is
/// bound, so that it keeps that buffer, and in the end nothing is bound at
/// all.
pub proof fn geometry_setup_binds(setup: GeometrySetupView)
    ensures
        ({
            let plan = setup.plan();
            &&& plan[8] is Issue && plan[8]->Issue_0 is VertexAttribPointer
            &&& array_at(plan, 8) == setup.vao
            &&& buffer_at(plan, codes::array_buffer(), 8) == setup.vbo
            &&& plan[11] == ActionView::Issue(CallView::BindVertexArray { array: 0 })
            &&& array_at(plan, 11) == setup.vao
            &&& buffer_at(plan, codes::element_array_buffer(), 11) == setup.ebo
            &&& unbound_at(plan, plan.len())
        }),
{
    reveal_with_fuel(array_at, 9);
    reveal_with_fuel(buffer_at, 15);
}

impl View for GeometrySetup {
    type V = GeometrySetupView;

    closed spec fn view(&self) -> GeometrySetupView {
        GeometrySetupView {
            index: self.index,
            size: self.size,
            vertices: self.vertices@,
            indices: self.indices@,
            cursor: self.cursor as nat,
            vao: self.vao,
            ebo: self.ebo,
            vbo: self.vbo,
        }
    }
}

impl GeometrySetup {
    /// Takes the reply to the call issued last and says what to do next. The
    /// first step takes any reply.
    pub fn step(&mut self, reply: Reply) -> (action: Action)
        requires
            old(self)@.wf(),
        ensures
            final(self)@ == old(self)@.next(reply),
            final(self)@.wf(),
            action@ == old(self)@.action(reply),
    {
        let at = self.cursor;
        if at == 1 {
            self.vao = reply.get_name_or(self.vao);
        } else if at == 2 {
            self.ebo = reply.get_name_or(self.ebo);
        } else if at == 3 {
            self.vbo = reply.get_name_or(self.vbo);
        }
        if at < 14 {
            self.cursor = at + 1;
        }
        let array = codes::read_array_buffer();
        let element = codes::read_element_array_buffer();
        match at {
            0 => Action::Issue(Call::GenVertexArrays),
            1 => Action::Issue(Call::GenBuffers),
            2 => Action::Issue(Call::GenBuffers),
            3 => Action::Issue(Call::BindVertexArray { array: self.vao }),
            4 => Action::Issue(Call::BindBuffer { target: array, buffer: self.vbo }),
            5 => Action::Issue(
                Call::BufferData {
                    target: array,
                    size: byte_size(&self.vertices),
                    data: self.vertices.clone(),
                    usage: codes::read_static_draw(),
                },
            ),
            6 => Action::Issue(Call::BindBuffer { target: element, buffer: self.ebo }),
            7 => Action::Issue(
                Call::BufferData {
                    target: element,
                    size: byte_size(&self.indices),
                    data: self.indices.clone(),
                    usage: codes::read_static_draw(),
                },
            ),
            8 => Action::Issue(
                Call::VertexAttribPointer {
                    index: self.index,
                    components: self.size,
                    kind: codes::read_float(),
                    normalized: codes::read_false(),
                    stride: VERTEX_STRIDE,
                },
            ),
            9 => Action::Issue(Call::EnableVertexAttribArray { index: self.index }),
            10 => Action::Issue(Call::BindBuffer { target: array, buffer: 0 }),
            11 => Action::Issue(Call::BindVertexArray { array: 0 }),
            12 => Action::Issue(Call::BindBuffer { target: element, buffer: 0 }),
            _ => Action::Finish,
        }
    }

    /// Whether everything has been asked for.
    pub fn is_finished(&self) -> (finished: bool)
        ensures
            finished == self@.finished(),
    {
        self.cursor >= 14
    }

    /// Ends the setup. There is a geometry if everything has been asked for,
    /// and it has the three names that the driver gave.
    pub fn geometry(self) -> (geometry: Option<Geometry>)
        ensures
            geometry is Some == self@.finished(),
            geometry is Some ==> {
                &&& geometry.unwrap().spec_vao() == self@.vao
                &&& geometry.unwrap().spec_ebo() == self@.ebo
                &&& geometry.unwrap().spec_vbo() == self@.vbo
            },
    {
        if self.cursor >= 14 {
            Some(Geometry { vao: self.vao, ebo: self.ebo, vbo: self.vbo })
        } else {
            None
        }
    }
}

/// The name of a program that was linked from a vertex and a fragment
/// shader.
#[derive(Debug, PartialEq, Eq)]
pub struct Material {
    program: u32,
}

/// The size of the buffer that an information log is fetched into.
pub const LOG_CAPACITY: i32 = 512;

/// The line that heads the report of a vertex shader that did not compile.
pub open spec fn vertex_heading() -> Seq<char> {
    "ERROR::SHADER::VERTEX::COMPILATION_FAILED\n"@
}

/// The line that heads the report of a fragment shader that did not compile.
pub open spec fn fragment_heading() -> Seq<char> {
    "ERROR::SHADER::FRAGMENT::COMPILATION_FAILED\n"@
}

/// The line that heads the report of a program that did not link.
pub open spec fn program_heading() -> Seq<char> {
    "ERROR::SHADER::PROGRAM::COMPILATION_FAILED\n"@
}

/// The report of a failure: the heading, then the text of the log that came
/// back in the buffer `log`.
pub open spec fn report_text(heading: Seq<char>, log: Seq<u8>) -> Seq<char> {
    heading + log_text(log)
}

/// The report of a failure whose log reads `text`: the heading, then the
/// text.
pub fn report(heading: &str, text: &str) -> (action: Action)
    ensures
        action@ == ActionView::Report(heading@ + text@),
{
    let mut line = String::from_str(heading);
    line.append(text);
    Action::Report(line)
}

fn report_log(heading: &str, log: &Vec<u8>) -> (action: Action)
    ensures
        action@ == ActionView::Report(report_text(heading@, log@)),
{
    let text = read_log(log.as_slice());
    report(heading, text.as_str())
}

impl Material {
    /// The name of the program.
    pub closed spec fn spec_program(&self) -> u32 {
        self.program
    }

    /// The name of the program.
    pub fn program(&self) -> (program: u32)
        ensures
            program == self.spec_program(),
    {
        self.program
    }

    /// Begins the making of a material from the sources of its two shaders.
    /// Each source travels as a C string and so may hold no zero byte.
    pub fn new(vertex_shader_source: &str, fragment_shader_source: &str) -> (setup: MaterialSetup)
        requires
            !vertex_shader_source.spec_bytes().contains(0u8),
            !fragment_shader_source.spec_bytes().contains(0u8),
        ensures
            setup@ == MaterialSetupView::start(vertex_shader_source@, fragment_shader_source@),
    {
        MaterialSetup {
            vertex_source: vertex_shader_source.to_owned(),
            fragment_source: fragment_shader_source.to_owned(),
            at: 0,
            vs: 0,
            fs: 0,
            program: 0,
            vertex_status: 0,
            fragment_status: 0,
            link_status: 0,
            vertex_log: Vec::new(),
            fragment_log: Vec::new(),
            link_log: Vec::new(),
        }
    }

    /// Makes this the current program.
    pub fn use_program(&self) -> (call: Call)
        ensures
            call@ == (CallView::UseProgram { program: self.spec_program() }),
    {
        Call::UseProgram { program: self.program }
    }

    /// Deletes the program, which ends the material's life.
    pub fn delete(self) -> (call: Call)
        ensures
            call@ == (CallView::DeleteProgram { program: self.spec_program() }),
    {
        Call::DeleteProgram { program: self.program }
    }
}

/// The making of a [`Material`]: each shader is created, given its source and
/// compiled, the program is created and linked from the two, and the shaders
/// are deleted. After each of the three builds the status is read, and where
/// it is not true the log is fetched and reported. Every log has a text, and
/// the setup goes on regardless: nothing that the driver answers stops it.
#[derive(Debug, PartialEq, Eq)]
pub struct MaterialSetup {
    vertex_source: String,
    fragment_source: String,
    at: usize,
    vs: u32,
    fs: u32,
    program: u32,
    vertex_status: i32,
    fragment_status: i32,
    link_status: i32,
    vertex_log: Vec<u8>,
    fragment_log: Vec<u8>,
    link_log: Vec<u8>,
}

/// A [`MaterialSetup`], with its texts and logs as sequences.
pub struct MaterialSetupView {
    pub vertex_source: Seq<char>,
    pub fragment_source: Seq<char>,
    /// The place in the plan of what is handed out next.
    pub at: nat,
    pub vs: u32,
    pub fs: u32,
    pub program: u32,
    pub vertex_status: i32,
    pub fragment_status: i32,
    pub link_status: i32,
    pub vertex_log: Seq<u8>,
    pub fragment_log: Seq<u8>,
    pub link_log: Seq<u8>,
}

impl MaterialSetupView {
    /// A setup that has not begun. No name is known, no status is true and no
    /// log has been fetched.
    pub open spec fn start(vertex_source: Seq<char>, fragment_source: Seq<char>) -> Self {
        MaterialSetupView {
            vertex_source,
            fragment_source,
            at: 0,
            vs: 0,
            fs: 0,
            program: 0,
            vertex_status: 0,
            fragment_status: 0,
            link_status: 0,
            vertex_log: Seq::empty(),
            fragment_log: Seq::empty(),
            link_log: Seq::empty(),
        }
    }

    /// Everything the setup may ask for, in its order, with the names and
    /// logs as far as they are known. The fetch and the report that follow a
    /// status are passed over where the status is true.
    pub open spec fn plan(self) -> Seq<ActionView> {
        seq![
            ActionView::Issue(CallView::CreateShader { kind: codes::vertex_shader() }),
            ActionView::Issue(CallView::ShaderSource { shader: self.vs, source: self.vertex_source }),
            ActionView::Issue(CallView::CompileShader { shader: self.vs }),
            ActionView::Issue(
                CallView::GetShaderiv { shader: self.vs, parameter: codes::compile_status() },
            ),
            ActionView::Issue(CallView::GetShaderInfoLog { shader: self.vs, capacity: LOG_CAPACITY }),
            ActionView::Report(report_text(vertex_heading(), self.vertex_log)),
            ActionView::Issue(CallView::CreateShader { kind: codes::fragment_shader() }),
            ActionView::Issue(
                CallView::ShaderSource { shader: self.fs, source: self.fragment_source },
            ),
            ActionView::Issue(CallView::CompileShader { shader: self.fs }),
            ActionView::Issue(
                CallView::GetShaderiv { shader: self.fs, parameter: codes::compile_status() },
            ),
            ActionView::Issue(CallView::GetShaderInfoLog { shader: self.fs, capacity: LOG_CAPACITY }),
            ActionView::Report(report_text(fragment_heading(), self.fragment_log)),
            ActionView::Issue(CallView::CreateProgram),
            ActionView::Issue(CallView::AttachShader { program: self.program, shader: self.vs }),
            ActionView::Issue(CallView::AttachShader { program: self.program, shader: self.fs }),
            ActionView::Issue(CallView::LinkProgram { program: self.program }),
            ActionView::Issue(
                CallView::GetProgramiv { program: self.program, parameter: codes::link_status() },
            ),
            ActionView::Issue(
                CallView::GetProgramInfoLog { program: self.program, capacity: LOG_CAPACITY },
            ),
            ActionView::Report(report_text(program_heading(), self.link_log)),
            ActionView::Issue(CallView::DeleteShader { shader: self.vs }),
            ActionView::Issue(CallView::DeleteShader { shader: self.fs }),
            ActionView::Finish,
        ]
    }

    /// The setup once it has noted what `reply` says: a name after a
    /// creation, a status after a query, a log after a fetch. A reply
    /// without a name leaves zero, and one without a value leaves the status
    /// of the build before, or false.
    pub open spec fn record(self, reply: Reply) -> Self {
        if self.at == 1 {
            MaterialSetupView { vs: reply.name_or(0), ..self }
        } else if self.at == 4 {
            MaterialSetupView { vertex_status: reply.value_or(codes::gl_false() as i32), ..self }
        } else if self.at == 5 {
            MaterialSetupView { vertex_log: reply.bytes(), ..self }
        } else if self.at == 7 {
            MaterialSetupView { fs: reply.name_or(0), ..self }
        } else if self.at == 10 {
            MaterialSetupView { fragment_status: reply.value_or(self.vertex_status), ..self }
        } else if self.at == 11 {
            MaterialSetupView { fragment_log: reply.bytes(), ..self }
        } else if self.at == 13 {
            MaterialSetupView { program: reply.name_or(0), ..self }
        } else if self.at == 17 {
            MaterialSetupView { link_status: reply.value_or(self.fragment_status), ..self }
        } else if self.at == 18 {
            MaterialSetupView { link_log: reply.bytes(), ..self }
        } else {
            self
        }
    }

    /// The place in the plan that is handed out: the one that is next, or,
    /// where the status that was just noted is true, the one behind the
    /// fetch and the report.
    pub open spec fn place(self) -> nat {
        let passed = codes::gl_true() as i32;
        if self.at == 4 && self.vertex_status == passed {
            6
        } else if self.at == 10 && self.fragment_status == passed {
            12
        } else if self.at == 17 && self.link_status == passed {
            19
        } else {
            self.at
        }
    }

    /// The setup after it has taken `reply`.
    pub open spec fn next(self, reply: Reply) -> Self {
        let noted = self.record(reply);
        if noted.place() < self.plan().len() {
            MaterialSetupView { at: noted.place() + 1, ..noted }
        } else {
            noted
        }
    }

    /// What the setup asks for once it has taken `reply`.
    pub open spec fn action(self, reply: Reply) -> ActionView {
        let noted = self.record(reply);
        if noted.place() < self.plan().len() {
            noted.plan()[noted.place() as int]
        } else {
            ActionView::Finish
        }
    }

    /// Whether everything has been asked for.
    pub open spec fn finished(self) -> bool {
        self.at >= self.plan().len()
    }
}

impl MaterialSetupView {
    /// The setup after it has taken the first `count` of `replies`.
    pub open spec fn after(self, replies: Seq<Reply>, count: nat) -> Self
        decreases count,
    {
        if count == 0 {
            self
        } else {
            self.after(replies, (count - 1) as nat).next(replies[count - 1])
        }
    }

    /// What is asked for when nothing fails: fifteen calls, then the end.
    pub open spec fn clean_run(self, vs: u32, fs: u32, program: u32) -> Seq<ActionView> {
        seq![
            ActionView::Issue(CallView::CreateShader { kind: codes::vertex_shader() }),
            ActionView::Issue(CallView::ShaderSource { shader: vs, source: self.vertex_source }),
            ActionView::Issue(CallView::CompileShader { shader: vs }),
            ActionView::Issue(
                CallView::GetShaderiv { shader: vs, parameter: codes::compile_status() },
            ),
            ActionView::Issue(CallView::CreateShader { kind: codes::fragment_shader() }),
            ActionView::Issue(CallView::ShaderSource { shader: fs, source: self.fragment_source }),
            ActionView::Issue(CallView::CompileShader { shader: fs }),
            ActionView::Issue(
                CallView::GetShaderiv { shader: fs, parameter: codes::compile_status() },
            ),
            ActionView::Issue(CallView::CreateProgram),
            ActionView::Issue(CallView::AttachShader { program, shader: vs }),
            ActionView::Issue(CallView::AttachShader { program, shader: fs }),
            ActionView::Issue(CallView::LinkProgram { program }),
            ActionView::Issue(CallView::GetProgramiv { program, parameter: codes::link_status() }),
            ActionView::Issue(CallView::DeleteShader { shader: vs }),
            ActionView::Issue(CallView::DeleteShader { shader: fs }),
            ActionView::Finish,
        ]
    }

    /// The setup that has taken `count` replies of a run in which nothing
    /// fails.
    spec fn clean_after(self, replies: Seq<Reply>, count: nat) -> Self {
        let passed = codes::gl_true() as i32;
        MaterialSetupView {
            at: if count <= 4 {
                count
            } else if count <= 8 {
                count + 2
            } else if count <= 13 {
                (count + 4) as nat
            } else {
                (count + 6) as nat
            },
            vs: if count >= 2 {
                replies[1].name_or(0)
            } else {
                0
            },
            vertex_status: if count >= 5 {
                passed
            } else {
                0
            },
            fs: if count >= 6 {
                replies[5].name_or(0)
            } else {
                0
            },
            fragment_status: if count >= 9 {
                passed
            } else {
                0
            },
            program: if count >= 10 {
                replies[9].name_or(0)
            } else {
                0
            },
            link_status: if count >= 14 {
                passed
            } else {
                0
            },
            ..self
        }
    }

    proof fn clean_shape(self, replies: Seq<Reply>, count: nat)
        requires
            self == MaterialSetupView::start(self.vertex_source, self.fragment_source),
            replies.len() >= 16,
            replies[4] == Reply::Value(codes::gl_true() as i32),
            replies[8] == Reply::Value(codes::gl_true() as i32),
            replies[13] == Reply::Value(codes::gl_true() as i32),
            count <= 16,
        ensures
            self.after(replies, count) == self.clean_after(replies, count),
        decreases count,
    {
        if count > 0 {
            self.clean_shape(replies, (count - 1) as nat);
        }
    }
}

/// Where every status is true, the setup asks for the fifteen calls of a
/// clean run, with the names that the driver gave, reports nothing, and is
/// finished after sixteen steps with the program's name in hand.
pub proof fn material_setup_clean_run(
    vertex_source: Seq<char>,
    fragment_source: Seq<char>,
    replies: Seq<Reply>,
)
    requires
        replies.len() >= 16,
        replies[4] == Reply::Value(codes::gl_true() as i32),
        replies[8] == Reply::Value(codes::gl_true() as i32),
        replies[13] == Reply::Value(codes::gl_true() as i32),
    ensures
        ({
            let start = MaterialSetupView::start(vertex_source, fragment_source);
            let run = start.clean_run(
                replies[1].name_or(0),
                replies[5].name_or(0),
                replies[9].name_or(0),
            );
            &&& forall|k: nat|
                k < 16 ==> #[trigger] start.after(replies, k).action(replies[k as int])
                    == run[k as int]
            &&& start.after(replies, 16).finished()
            &&& start.after(replies, 16).program == replies[9].name_or(0)
        }),
{
    let start = MaterialSetupView::start(vertex_source, fragment_source);
    let run = start.clean_run(replies[1].name_or(0), replies[5].name_or(0), replies[9].name_or(0));
    assert forall|k: nat| k < 16 implies #[trigger] start.after(replies, k).action(
        replies[k as int],
    ) == run[k as int] by {
        start.clean_shape(replies, k);
    }
    start.clean_shape(replies, 16);
}

/// A build that fails is reported and does not stop the setup. Where the
/// status that comes back for a shader or for the program is not true, the
/// log is fetched and then reported under the heading of that build, and the
/// step after that asks for what would have followed a build that passed.
pub proof fn material_setup_reports_failure(
    setup: MaterialSetupView,
    status: Reply,
    log: Reply,
    after: Reply,
)
    requires
        setup.at == 4 || setup.at == 10 || setup.at == 17,
        setup.record(status).place() == setup.at,
    ensures
        ({
            let fetching = setup.next(status);
            let reporting = fetching.next(log);
            let heading = if setup.at == 4 {
                vertex_heading()
            } else if setup.at == 10 {
                fragment_heading()
            } else {
                program_heading()
            };
            &&& setup.action(status) == setup.plan()[setup.at as int]
            &&& fetching.action(log) == ActionView::Report(report_text(heading, log.bytes()))
            &&& reporting.action(after) == setup.plan()[setup.at as int + 2]
        }),
{
}

impl MaterialSetupView {
    /// Whether the vertex shader compiled.
    pub open spec fn vertex_passed(self) -> bool {
        self.vertex_status == codes::gl_true() as i32
    }

    /// Whether the fragment shader compiled.
    pub open spec fn fragment_passed(self) -> bool {
        self.fragment_status == codes::gl_true() as i32
    }

    /// Whether the program linked.
    pub open spec fn link_passed(self) -> bool {
        self.link_status == codes::gl_true() as i32
    }

    /// The place in the plan of what step `step` of a run hands out, where
    /// the run ends in this setup. The steps go through the plan in its
    /// order and pass over the fetch and the report of each build that
    /// passed.
    pub open spec fn place_of(self, step: nat) -> nat {
        let a = if step >= 4 && self.vertex_passed() {
            step + 2
        } else {
            step
        };
        let b = if a >= 10 && self.fragment_passed() {
            a + 2
        } else {
            a
        };
        if b >= 17 && self.link_passed() {
            b + 2
        } else {
            b
        }
    }

    /// The step of a run that hands out the entry at `place` of the plan,
    /// where the run ends in this setup and the entry is not passed over.
    pub open spec fn step_of(self, place: nat) -> int {
        place - (if place >= 6 && self.vertex_passed() {
            2int
        } else {
            0int
        }) - (if place >= 12 && self.fragment_passed() {
            2int
        } else {
            0int
        }) - (if place >= 19 && self.link_passed() {
            2int
        } else {
            0int
        })
    }

    /// Where the setup stands after `count` steps, given how its builds
    /// went.
    spec fn cursor_of(self, count: nat) -> nat {
        let a = if count >= 5 && self.vertex_passed() {
            count + 2
        } else {
            count
        };
        let b = if a >= 11 && self.fragment_passed() {
            a + 2
        } else {
            a
        };
        let c = if b >= 18 && self.link_passed() {
            b + 2
        } else {
            b
        };
        if c < 22 {
            c
        } else {
            22
        }
    }

    /// Whatever `self` has noted, the later setup `end` holds too.
    spec fn kept_by(self, end: Self) -> bool {
        &&& self.vertex_source == end.vertex_source
        &&& self.fragment_source == end.fragment_source
        &&& self.at <= end.at
        &&& (self.at >= 2 ==> self.vs == end.vs)
        &&& (self.at >= 5 ==> self.vertex_status == end.vertex_status)
        &&& (self.at >= 6 ==> self.vertex_log == end.vertex_log)
        &&& (self.at >= 8 ==> self.fs == end.fs)
        &&& (self.at >= 11 ==> self.fragment_status == end.fragment_status)
        &&& (self.at >= 12 ==> self.fragment_log == end.fragment_log)
        &&& (self.at >= 14 ==> self.program == end.program)
        &&& (self.at >= 18 ==> self.link_status == end.link_status)
        &&& (self.at >= 19 ==> self.link_log == end.link_log)
    }

    proof fn run_shape(self, replies: Seq<Reply>, count: nat)
        requires
            self == MaterialSetupView::start(self.vertex_source, self.fragment_source),
            count <= replies.len(),
        ensures
            ({
                let now = self.after(replies, count);
                &&& now.at == now.cursor_of(count)
                &&& (now.at <= 4 ==> now.vertex_status == 0)
                &&& (now.at <= 10 ==> now.fragment_status == 0)
                &&& (now.at <= 17 ==> now.link_status == 0)
            }),
        decreases count,
    {
        if count > 0 {
            self.run_shape(replies, (count - 1) as nat);
        }
    }

    proof fn keeps(self, replies: Seq<Reply>, from: nat, to: nat)
        requires
            from <= to <= replies.len(),
        ensures
            self.after(replies, from).kept_by(self.after(replies, to)),
        decreases to - from,
    {
        if from < to {
            self.keeps(replies, from, (to - 1) as nat);
        }
    }
}

/// Every run of the setup goes through the plan. Whatever the driver
/// answers, the setup is finished after twenty-two steps, and step by step it
/// has handed out the plan that it ends with, in the plan's order, passing
/// over the fetch and the report of each build that passed and nothing else.
/// No answer of the driver stops it or takes a later call away.
pub proof fn material_setup_follows_plan(
    vertex_source: Seq<char>,
    fragment_source: Seq<char>,
    replies: Seq<Reply>,
)
    requires
        replies.len() >= 22,
    ensures
        ({
            let start = MaterialSetupView::start(vertex_source, fragment_source);
            let end = start.after(replies, 22);
            &&& end.finished()
            &&& end.vertex_source == vertex_source
            &&& end.fragment_source == fragment_source
            &&& forall|k: nat|
                k < 22 ==> #[trigger] start.after(replies, k).action(replies[k as int]) == if end.place_of(
                    k,
                ) < 22 {
                    end.plan()[end.place_of(k) as int]
                } else {
                    ActionView::Finish
                }
        }),
{
    let start = MaterialSetupView::start(vertex_source, fragment_source);
    let end = start.after(replies, 22);
    start.run_shape(replies, 22);
    start.keeps(replies, 0, 22);
    assert forall|k: nat| k < 22 implies #[trigger] start.after(replies, k).action(
        replies[k as int],
    ) == if end.place_of(k) < 22 {
        end.plan()[end.place_of(k) as int]
    } else {
        ActionView::Finish
    } by {
        let now = start.after(replies, k);
        let then = start.after(replies, k + 1);
        assert(then == now.next(replies[k as int]));
        start.run_shape(replies, k);
        start.run_shape(replies, k + 1);
        start.keeps(replies, k, 22);
        start.keeps(replies, k + 1, 22);
    }
}

impl MaterialSetupView {
    proof fn step_facts(self, replies: Seq<Reply>, k: nat)
        requires
            self == MaterialSetupView::start(self.vertex_source, self.fragment_source),
            k < 22 <= replies.len(),
        ensures
            ({
                let now = self.after(replies, k);
                let then = self.after(replies, k + 1);
                let end = self.after(replies, 22);
                &&& then == now.next(replies[k as int])
                &&& now.at == now.cursor_of(k)
                &&& now.kept_by(end)
                &&& then.kept_by(end)
                &&& (now.at <= 4 ==> now.vertex_status == 0)
                &&& (now.at <= 10 ==> now.fragment_status == 0)
                &&& (now.at <= 17 ==> now.link_status == 0)
            }),
    {
        self.run_shape(replies, k);
        self.keeps(replies, k, 22);
        self.keeps(replies, k + 1, 22);
    }

    proof fn plan_releases(self, place: int)
        requires
            0 <= place < 22,
        ensures
            releases(self.plan()[place]) <==> place == 19 || place == 20,
    {
        if place == 0 {
            assert(!releases(self.plan()[0]));
        }
        if place == 1 {
            assert(!releases(self.plan()[1]));
        }
        if place == 2 {
            assert(!releases(self.plan()[2]));
        }
        if place == 3 {
            assert(!releases(self.plan()[3]));
        }
        if place == 4 {
            assert(!releases(self.plan()[4]));
        }
        if place == 5 {
            assert(!releases(self.plan()[5]));
        }
        if place == 6 {
            assert(!releases(self.plan()[6]));
        }
        if place == 7 {
            assert(!releases(self.plan()[7]));
        }
        if place == 8 {
            assert(!releases(self.plan()[8]));
        }
        if place == 9 {
            assert(!releases(self.plan()[9]));
        }
        if place == 10 {
            assert(!releases(self.plan()[10]));
        }
        if place == 11 {
            assert(!releases(self.plan()[11]));
        }
        if place == 12 {
            assert(!releases(self.plan()[12]));
        }
        if place == 13 {
            assert(!releases(self.plan()[13]));
        }
        if place == 14 {
            assert(!releases(self.plan()[14]));
        }
        if place == 15 {
            assert(!releases(self.plan()[15]));
        }
        if place == 16 {
            assert(!releases(self.plan()[16]));
        }
        if place == 17 {
            assert(!releases(self.plan()[17]));
        }
        if place == 18 {
            assert(!releases(self.plan()[18]));
        }
        if place == 21 {
            assert(!releases(self.plan()[21]));
        }
        if place == 19 {
            assert(releases(self.plan()[19]));
        }
        if place == 20 {
            assert(releases(self.plan()[20]));
        }
    }
}

impl MaterialSetupView {
    proof fn noted_vs(self, replies: Seq<Reply>)
        requires
            self == MaterialSetupView::start(self.vertex_source, self.fragment_source),
            replies.len() >= 22,
        ensures
            ({
                let end = self.after(replies, 22);
                end.vs == replies[end.step_of(0) + 1].name_or(0)
            }),
    {
        let end = self.after(replies, 22);
        self.step_facts(replies, 1);
    }

    proof fn noted_vertex_status(self, replies: Seq<Reply>)
        requires
            self == MaterialSetupView::start(self.vertex_source, self.fragment_source),
            replies.len() >= 22,
        ensures
            ({
                let end = self.after(replies, 22);
                end.vertex_status == replies[end.step_of(3) + 1].value_or(0)
            }),
    {
        let end = self.after(replies, 22);
        self.step_facts(replies, 4);
    }

    proof fn noted_vertex_log(self, replies: Seq<Reply>)
        requires
            self == MaterialSetupView::start(self.vertex_source, self.fragment_source),
            replies.len() >= 22,
        ensures
            ({
                let end = self.after(replies, 22);
                !end.vertex_passed() ==> end.vertex_log == replies[end.step_of(4) + 1].bytes()
            }),
    {
        let end = self.after(replies, 22);
        self.step_facts(replies, 4);
        self.step_facts(replies, 5);
    }

    proof fn noted_fs(self, replies: Seq<Reply>)
        requires
            self == MaterialSetupView::start(self.vertex_source, self.fragment_source),
            replies.len() >= 22,
        ensures
            ({
                let end = self.after(replies, 22);
                end.fs == replies[end.step_of(6) + 1].name_or(0)
            }),
    {
        let end = self.after(replies, 22);
        self.step_facts(replies, (end.step_of(6) + 1) as nat);
    }

    proof fn noted_fragment_status(self, replies: Seq<Reply>)
        requires
            self == MaterialSetupView::start(self.vertex_source, self.fragment_source),
            replies.len() >= 22,
        ensures
            ({
                let end = self.after(replies, 22);
                end.fragment_status == replies[end.step_of(9) + 1].value_or(end.vertex_status)
            }),
    {
        let end = self.after(replies, 22);
        self.step_facts(replies, (end.step_of(9) + 1) as nat);
    }

    proof fn noted_fragment_log(self, replies: Seq<Reply>)
        requires
            self == MaterialSetupView::start(self.vertex_source, self.fragment_source),
            replies.len() >= 22,
        ensures
            ({
                let end = self.after(replies, 22);
                !end.fragment_passed() ==> end.fragment_log == replies[end.step_of(10) + 1].bytes()
            }),
    {
        let end = self.after(replies, 22);
        self.step_facts(replies, (end.step_of(9) + 1) as nat);
        self.step_facts(replies, (end.step_of(10) + 1) as nat);
    }

    proof fn noted_program(self, replies: Seq<Reply>)
        requires
            self == MaterialSetupView::start(self.vertex_source, self.fragment_source),
            replies.len() >= 22,
        ensures
            ({
                let end = self.after(replies, 22);
                end.program == replies[end.step_of(12) + 1].name_or(0)
            }),
    {
        let end = self.after(replies, 22);
        self.step_facts(replies, (end.step_of(12) + 1) as nat);
    }

    proof fn noted_link_status(self, replies: Seq<Reply>)
        requires
            self == MaterialSetupView::start(self.vertex_source, self.fragment_source),
            replies.len() >= 22,
        ensures
            ({
                let end = self.after(replies, 22);
                end.link_status == replies[end.step_of(16) + 1].value_or(end.fragment_status)
            }),
    {
        let end = self.after(replies, 22);
        self.step_facts(replies, (end.step_of(16) + 1) as nat);
    }

    proof fn noted_link_log(self, replies: Seq<Reply>)
        requires
            self == MaterialSetupView::start(self.vertex_source, self.fragment_source),
            replies.len() >= 22,
        ensures
            ({
                let end = self.after(replies, 22);
                !end.link_passed() ==> end.link_log == replies[end.step_of(17) + 1].bytes()
            }),
    {
        let end = self.after(replies, 22);
        self.step_facts(replies, (end.step_of(16) + 1) as nat);
        self.step_facts(replies, (end.step_of(17) + 1) as nat);
    }
}

/// What the plan of a finished run holds is what the driver answered. Each
/// name is the reply to the call that made the object, each status the reply
/// to its query, and each log the reply to its fetch, where there was one.
pub proof fn material_setup_notes_replies(
    vertex_source: Seq<char>,
    fragment_source: Seq<char>,
    replies: Seq<Reply>,
)
    requires
        replies.len() >= 22,
    ensures
        ({
            let end = MaterialSetupView::start(vertex_source, fragment_source).after(replies, 22);
            &&& end.vs == replies[end.step_of(0) + 1].name_or(0)
            &&& end.vertex_status == replies[end.step_of(3) + 1].value_or(0)
            &&& end.fs == replies[end.step_of(6) + 1].name_or(0)
            &&& end.fragment_status == replies[end.step_of(9) + 1].value_or(end.vertex_status)
            &&& end.program == replies[end.step_of(12) + 1].name_or(0)
            &&& end.link_status == replies[end.step_of(16) + 1].value_or(end.fragment_status)
            &&& !end.vertex_passed() ==> end.vertex_log == replies[end.step_of(4) + 1].bytes()
            &&& !end.fragment_passed() ==> end.fragment_log == replies[end.step_of(10)
                + 1].bytes()
            &&& !end.link_passed() ==> end.link_log == replies[end.step_of(17) + 1].bytes()
        }),
{
    let start = MaterialSetupView::start(vertex_source, fragment_source);
    start.noted_vs(replies);
    start.noted_vertex_status(replies);
    start.noted_vertex_log(replies);
    start.noted_fs(replies);
    start.noted_fragment_status(replies);
    start.noted_fragment_log(replies);
    start.noted_program(replies);
    start.noted_link_status(replies);
    start.noted_link_log(replies);
}

/// The shaders are released exactly once on every run, and the program never.
/// Whatever the driver answers, one step deletes the vertex shader and the
/// next one the fragment shader, both after the step that links the program,
/// and no other step of the run releases anything. The program's name goes
/// to the material alone.
pub proof fn material_setup_releases_shaders(
    vertex_source: Seq<char>,
    fragment_source: Seq<char>,
    replies: Seq<Reply>,
)
    requires
        replies.len() >= 22,
    ensures
        ({
            let start = MaterialSetupView::start(vertex_source, fragment_source);
            let end = start.after(replies, 22);
            let link = end.step_of(15) as nat;
            let first = end.step_of(19) as nat;
            &&& link < first < 21
            &&& start.after(replies, link).action(replies[link as int]) == ActionView::Issue(
                CallView::LinkProgram { program: end.program },
            )
            &&& start.after(replies, first).action(replies[first as int]) == ActionView::Issue(
                CallView::DeleteShader { shader: end.vs },
            )
            &&& start.after(replies, first + 1).action(replies[first + 1 as int]) == ActionView::Issue(
                CallView::DeleteShader { shader: end.fs },
            )
            &&& forall|k: nat|
                k < 22 && k != first && k != first + 1 ==> !releases(
                    #[trigger] start.after(replies, k).action(replies[k as int]),
                )
        }),
{
    material_setup_follows_plan(vertex_source, fragment_source, replies);
    let start = MaterialSetupView::start(vertex_source, fragment_source);
    let end = start.after(replies, 22);
    let link = end.step_of(15) as nat;
    let first = end.step_of(19) as nat;
    let second = first + 1;
    assert(link < first < 21);
    assert(end.place_of(link) == 15);
    assert(end.place_of(first) == 19);
    assert(end.place_of(second) == 20);
    assert(start.after(replies, link).action(replies[link as int]) == end.plan()[15]);
    assert(start.after(replies, first).action(replies[first as int]) == end.plan()[19]);
    assert(start.after(replies, second).action(replies[second as int]) == end.plan()[20]);
    assert forall|k: nat| k < 22 && k != first && k != first + 1 implies !releases(
        #[trigger] start.after(replies, k).action(replies[k as int]),
    ) by {
        let place = end.place_of(k);
        assert(place != 19 && place != 20);
        if place < 22 {
            end.plan_releases(place as int);
        }
    }
}

impl View for MaterialSetup {
    type V = MaterialSetupView;

    closed spec fn view(&self) -> MaterialSetupView {
        MaterialSetupView {
            vertex_source: self.vertex_source@,
            fragment_source: self.fragment_source@,
            at: self.at as nat,
            vs: self.vs,
            fs: self.fs,
            program: self.program,
            vertex_status: self.vertex_status,
            fragment_status: self.fragment_status,
            link_status: self.link_status,
            vertex_log: self.vertex_log@,
            fragment_log: self.fragment_log@,
            link_log: self.link_log@,
        }
    }
}

impl MaterialSetup {
    /// Takes the reply to the call issued last and says what to do next. The
    /// first step, and one that follows a report, takes any reply.
    pub fn step(&mut self, reply: Reply) -> (action: Action)
        ensures
            final(self)@ == old(self)@.next(reply),
            action@ == old(self)@.action(reply),
    {
        let at = self.at;
        match at {
            1 => {
                self.vs = reply.get_name_or(0);
            },
            4 => {
                self.vertex_status = reply.get_value_or(codes::read_false() as i32);
            },
            5 => {
                self.vertex_log = reply.into_bytes();
            },
            7 => {
                self.fs = reply.get_name_or(0);
            },
            10 => {
                self.fragment_status = reply.get_value_or(self.vertex_status);
            },
            11 => {
                self.fragment_log = reply.into_bytes();
            },
            13 => {
                self.program = reply.get_name_or(0);
            },
            17 => {
                self.link_status = reply.get_value_or(self.fragment_status);
            },
            18 => {
                self.link_log = reply.into_bytes();
            },
            _ => {},
        }
        let passed = codes::read_true() as i32;
        let place: usize = if at == 4 && self.vertex_status == passed {
            6
        } else if at == 10 && self.fragment_status == passed {
            12
        } else if at == 17 && self.link_status == passed {
            19
        } else {
            at
        };
        if place < 22 {
            self.at = place + 1;
        }
        match place {
            0 => Action::Issue(Call::CreateShader { kind: codes::read_vertex_shader() }),
            1 => Action::Issue(
                Call::ShaderSource { shader: self.vs, source: self.vertex_source.clone() },
            ),
            2 => Action::Issue(Call::CompileShader { shader: self.vs }),
            3 => Action::Issue(
                Call::GetShaderiv { shader: self.vs, parameter: codes::read_compile_status() },
            ),
            4 => Action::Issue(Call::GetShaderInfoLog { shader: self.vs, capacity: LOG_CAPACITY }),
            5 => report_log("ERROR::SHADER::VERTEX::COMPILATION_FAILED\n", &self.vertex_log),
            6 => Action::Issue(Call::CreateShader { kind: codes::read_fragment_shader() }),
            7 => Action::Issue(
                Call::ShaderSource { shader: self.fs, source: self.fragment_source.clone() },
            ),
            8 => Action::Issue(Call::CompileShader { shader: self.fs }),
            9 => Action::Issue(
                Call::GetShaderiv { shader: self.fs, parameter: codes::read_compile_status() },
            ),
            10 => Action::Issue(Call::GetShaderInfoLog { shader: self.fs, capacity: LOG_CAPACITY }),
            11 => report_log("ERROR::SHADER::FRAGMENT::COMPILATION_FAILED\n", &self.fragment_log),
            12 => Action::Issue(Call::CreateProgram),
            13 => Action::Issue(Call::AttachShader { program: self.program, shader: self.vs }),
            14 => Action::Issue(Call::AttachShader { program: self.program, shader: self.fs }),
            15 => Action::Issue(Call::LinkProgram { program: self.program }),
            16 => Action::Issue(
                Call::GetProgramiv { program: self.program, parameter: codes::read_link_status() },
            ),
            17 => Action::Issue(
                Call::GetProgramInfoLog { program: self.program, capacity: LOG_CAPACITY },
            ),
            18 => report_log("ERROR::SHADER::PROGRAM::COMPILATION_FAILED\n", &self.link_log),
            19 => Action::Issue(Call::DeleteShader { shader: self.vs }),
            20 => Action::Issue(Call::DeleteShader { shader: self.fs }),
            _ => Action::Finish,
        }
    }

    /// Whether everything has been asked for.
    pub fn is_finished(&self) -> (finished: bool)
        ensures
            finished == self@.finished(),
    {
        self.at >= 22
    }

    /// Ends the setup. There is a material if everything has been asked for.
    pub fn material(self) -> (material: Option<Material>)
        ensures
            material is Some == self@.finished(),
            material is Some ==> material.unwrap().spec_program() == self@.program,
    {
        if self.at >= 22 {
            Some(Material { program: self.program })
        } else {
            None
        }
    }
}

/// A geometry and the material it is drawn with.
#[derive(Debug, PartialEq, Eq)]
pub struct Mesh {
    geometry: Geometry,
    material: Material,
}

impl Mesh {
    /// The vertex array that is drawn.
    pub closed spec fn spec_vao(&self) -> u32 {
        self.geometry.vao
    }

    /// The element buffer that the vertex array reads.
    pub closed spec fn spec_ebo(&self) -> u32 {
        self.geometry.ebo
    }

    /// The vertex buffer that the vertex array reads.
    pub closed spec fn spec_vbo(&self) -> u32 {
        self.geometry.vbo
    }

    /// The program that draws.
    pub closed spec fn spec_program(&self) -> u32 {
        self.material.program
    }

    /// The calls that draw a mesh of this vertex array and program: six
    /// indices, as triangles.
    pub open spec fn render_calls(vao: u32, program: u32) -> Seq<CallView> {
        seq![
            CallView::UseProgram { program },
            CallView::BindVertexArray { array: vao },
            CallView::DrawElements {
                mode: codes::triangles(),
                count: 6,
                kind: codes::unsigned_int(),
            },
            CallView::BindVertexArray { array: 0 },
        ]
    }

    /// Puts a geometry and a material together.
    pub fn new(geometry: Geometry, material: Material) -> (mesh: Mesh)
        ensures
            mesh.spec_vao() == geometry.spec_vao(),
            mesh.spec_ebo() == geometry.spec_ebo(),
            mesh.spec_vbo() == geometry.spec_vbo(),
            mesh.spec_program() == material.spec_program(),
    {
        Mesh { geometry, material }
    }

    /// The calls that draw the mesh: with the material's program in use and
    /// the geometry bound, six indices are drawn as triangles, and the
    /// geometry is unbound again.
    pub fn render(&self) -> (calls: Vec<Call>)
        ensures
            call_views(calls@) == Mesh::render_calls(self.spec_vao(), self.spec_program()),
    {
        let calls = vec![
            self.material.use_program(),
            self.geometry.bind(),
            draw_elements(DrawMode::Triangles, 6),
            self.geometry.unbind(),
        ];
        assert(call_views(calls@) =~= Mesh::render_calls(self.spec_vao(), self.spec_program()));
        calls
    }

    /// The calls that end the mesh's life: the geometry goes first, with its
    /// vertex array and its two buffers, then the material.
    pub fn delete(self) -> (calls: Vec<Call>)
        ensures
            call_views(calls@) == Geometry::delete_calls(
                self.spec_vao(),
                self.spec_ebo(),
                self.spec_vbo(),
            ).push(CallView::DeleteProgram { program: self.spec_program() }),
    {
        let ghost expected = Geometry::delete_calls(
            self.spec_vao(),
            self.spec_ebo(),
            self.spec_vbo(),
        ).push(CallView::DeleteProgram { program: self.spec_program() });
        let mut calls = self.geometry.delete();
        calls.push(self.material.delete());
        assert(call_views(calls@) =~= expected);
        calls
    }
}

/// The calls that clear the colour buffer to a dark grey: red, green and
/// blue a tenth each, fully opaque.
pub fn clear() -> (calls: Vec<Call>)
    ensures
        call_views(calls@) == seq![
            CallView::ClearColor {
                red: 0x3DCC_CCCD,
                green: 0x3DCC_CCCD,
                blue: 0x3DCC_CCCD,
                alpha: 0x3F80_0000,
            },
            CallView::Clear { mask: codes::color_buffer_bit() },
        ],
{
    let calls = vec![
        Call::ClearColor {
            red: 0x3DCC_CCCD,
            green: 0x3DCC_CCCD,
            blue: 0x3DCC_CCCD,
            alpha: 0x3F80_0000,
        },
        Call::Clear { mask: codes::read_color_buffer_bit() },
    ];
    assert(call_views(calls@) =~= seq![
        CallView::ClearColor {
            red: 0x3DCC_CCCD,
            green: 0x3DCC_CCCD,
            blue: 0x3DCC_CCCD,
            alpha: 0x3F80_0000,
        },
        CallView::Clear { mask: codes::color_buffer_bit() },
    ]);
    calls
}

} // verus!
