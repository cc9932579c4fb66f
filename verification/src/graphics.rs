//! Buffers, vertex arrays, shaders and programs, one type for each kind of
//! object, and the calls that are made on them.
use crate::call::{Action, ActionView, Call, CallView, Reply};
use crate::codes;
use crate::text::{log_text, read_log};
use vstd::prelude::*;
use vstd::string::StringSliceAdditionalSpecFns;

verus! {

/// A binding point to which a [`Buffer`] may be bound.
#[derive(Clone, Copy, Debug, PartialEq, Eq)]
pub enum BufferTarget {
    Array,
    ElementArray,
    ShaderStorage,
}

impl BufferTarget {
    /// The enumerant that names this binding point.
    pub open spec fn spec_target(self) -> u32 {
        match self {
            BufferTarget::Array => codes::array_buffer(),
            BufferTarget::ElementArray => codes::element_array_buffer(),
            BufferTarget::ShaderStorage => codes::shader_storage_buffer(),
        }
    }

    /// The enumerant that names this binding point.
    pub fn target(self) -> (code: u32)
        ensures
            code == self.spec_target(),
    {
        match self {
            BufferTarget::Array => codes::read_array_buffer(),
            BufferTarget::ElementArray => codes::read_element_array_buffer(),
            BufferTarget::ShaderStorage => codes::read_shader_storage_buffer(),
        }
    }

    /// Binds `buffer` to this binding point.
    pub fn bind(self, buffer: &Buffer) -> (call: Call)
        ensures
            call@ == (CallView::BindBuffer { target: self.spec_target(), buffer: buffer.spec_name() }),
    {
        Call::BindBuffer { target: self.target(), buffer: buffer.name }
    }

    /// Leaves this binding point without a buffer.
    pub fn unbind(self) -> (call: Call)
        ensures
            call@ == (CallView::BindBuffer { target: self.spec_target(), buffer: 0 }),
    {
        Call::BindBuffer { target: self.target(), buffer: 0 }
    }

    /// Fills the buffer bound here with the first `size` bytes of `data`. The
    /// size reaches the driver as a signed machine word.
    pub fn buffer_data(self, size: usize, data: Vec<u32>, usage: u32) -> (call: Call)
        ensures
            call@ == (CallView::BufferData {
                target: self.spec_target(),
                size: size as isize,
                data: data@,
                usage,
            }),
    {
        Call::BufferData { target: self.target(), size: #[verifier::truncate] (size as isize), data, usage }
    }
}

/// The name of a buffer object. A buffer can be bound to several binding
/// points, so it does not know of any.
#[derive(Debug, PartialEq, Eq)]
pub struct Buffer {
    name: u32,
}

impl Buffer {
    /// The name of the buffer.
    pub closed spec fn spec_name(&self) -> u32 {
        self.name
    }

    /// The call that asks the driver for a new buffer name.
    pub fn generate() -> (call: Call)
        ensures
            call@ == CallView::GenBuffers,
    {
        Call::GenBuffers
    }

    /// The buffer that the driver named in `reply`. A reply without a name
    /// gives the name zero, which no buffer has.
    pub fn new(reply: &Reply) -> (buffer: Buffer)
        ensures
            buffer.spec_name() == reply.name_or(0),
    {
        Buffer { name: reply.get_name_or(0) }
    }

    /// The name of the buffer.
    pub fn name(&self) -> (name: u32)
        ensures
            name == self.spec_name(),
    {
        self.name
    }

    /// Deletes the buffer, which ends its life: the name may be used again.
    pub fn delete(self) -> (call: Call)
        ensures
            call@ == (CallView::DeleteBuffers { buffer: self.spec_name() }),
    {
        Call::DeleteBuffers { buffer: self.name }
    }
}

/// The name of a vertex array object.
#[derive(Debug, PartialEq, Eq)]
pub struct VertexArray {
    name: u32,
}

impl VertexArray {
    /// The name of the vertex array.
    pub closed spec fn spec_name(&self) -> u32 {
        self.name
    }

    /// The call that asks the driver for a new vertex array name.
    pub fn generate() -> (call: Call)
        ensures
            call@ == CallView::GenVertexArrays,
    {
        Call::GenVertexArrays
    }

    /// The vertex array that the driver named in `reply`. A reply without a
    /// name gives the name zero, which no vertex array has.
    pub fn new(reply: &Reply) -> (array: VertexArray)
        ensures
            array.spec_name() == reply.name_or(0),
    {
        VertexArray { name: reply.get_name_or(0) }
    }

    /// The name of the vertex array.
    pub fn name(&self) -> (name: u32)
        ensures
            name == self.spec_name(),
    {
        self.name
    }

    /// Makes this the current vertex array.
    pub fn bind(&self) -> (call: Call)
        ensures
            call@ == (CallView::BindVertexArray { array: self.spec_name() }),
    {
        Call::BindVertexArray { array: self.name }
    }

    /// Leaves the context without a current vertex array.
    pub fn unbind(&self) -> (call: Call)
        ensures
            call@ == (CallView::BindVertexArray { array: 0 }),
    {
        Call::BindVertexArray { array: 0 }
    }

    /// Deletes the vertex array, which ends its life.
    pub fn delete(self) -> (call: Call)
        ensures
            call@ == (CallView::DeleteVertexArrays { array: self.spec_name() }),
    {
        Call::DeleteVertexArrays { array: self.name }
    }
}

/// The pipeline stage that a shader is written for.
#[derive(Clone, Copy, Debug, PartialEq, Eq)]
pub enum ShaderType {
    Vertex,
    Fragment,
    Compute,
    Geometry,
}

impl ShaderType {
    /// The enumerant that names this stage.
    pub open spec fn spec_target(self) -> u32 {
        match self {
            ShaderType::Vertex => codes::vertex_shader(),
            ShaderType::Fragment => codes::fragment_shader(),
            ShaderType::Compute => codes::compute_shader(),
            ShaderType::Geometry => codes::geometry_shader(),
        }
    }

    /// The enumerant that names this stage.
    pub fn target(self) -> (code: u32)
        ensures
            code == self.spec_target(),
    {
        match self {
            ShaderType::Vertex => codes::read_vertex_shader(),
            ShaderType::Fragment => codes::read_fragment_shader(),
            ShaderType::Compute => codes::read_compute_shader(),
            ShaderType::Geometry => codes::read_geometry_shader(),
        }
    }

    /// The call that creates a shader for this stage. Its reply makes the
    /// [`Shader`].
    pub fn create(self) -> (call: Call)
        ensures
            call@ == (CallView::CreateShader { kind: self.spec_target() }),
    {
        Call::CreateShader { kind: self.target() }
    }
}

/// The name of a shader object.
#[derive(Debug, PartialEq, Eq)]
pub struct Shader {
    id: u32,
}

impl Shader {
    /// The name of the shader.
    pub closed spec fn spec_id(&self) -> u32 {
        self.id
    }

    /// The shader that the driver named in `reply`. A reply without a name
    /// gives the name zero, which is what a failed creation returns.
    pub fn new(reply: &Reply) -> (shader: Shader)
        ensures
            shader.spec_id() == reply.name_or(0),
    {
        Shader { id: reply.get_name_or(0) }
    }

    /// The name of the shader.
    pub fn id(&self) -> (id: u32)
        ensures
            id == self.spec_id(),
    {
        self.id
    }

    /// Replaces the shader's source by `text`, which travels as a C string
    /// and so may hold no zero byte.
    pub fn source(&self, text: &str) -> (call: Call)
        requires
            !text.spec_bytes().contains(0u8),
        ensures
            call@ == (CallView::ShaderSource { shader: self.spec_id(), source: text@ }),
    {
        Call::ShaderSource { shader: self.id, source: text.to_owned() }
    }

    /// Begins the compilation of the shader and the inquiry into how it went.
    pub fn compile(&self) -> (inquiry: Inquiry)
        ensures
            inquiry@ == InquiryView::start(Subject::Shader, self.spec_id()),
    {
        Inquiry { subject: Subject::Shader, id: self.id, stage: Stage::Start, result: None }
    }

    /// Deletes the shader, which ends its life.
    pub fn delete(self) -> (call: Call)
        ensures
            call@ == (CallView::DeleteShader { shader: self.spec_id() }),
    {
        Call::DeleteShader { shader: self.id }
    }
}

/// The name of a program object.
#[derive(Debug, PartialEq, Eq)]
pub struct Program {
    id: u32,
}

impl Program {
    /// The name of the program.
    pub closed spec fn spec_id(&self) -> u32 {
        self.id
    }

    /// The call that creates a program. Its reply makes the [`Program`].
    pub fn create() -> (call: Call)
        ensures
            call@ == CallView::CreateProgram,
    {
        Call::CreateProgram
    }

    /// The program that the driver named in `reply`. A reply without a name
    /// gives the name zero, which is what a failed creation returns.
    pub fn new(reply: &Reply) -> (program: Program)
        ensures
            program.spec_id() == reply.name_or(0),
    {
        Program { id: reply.get_name_or(0) }
    }

    /// The name of the program.
    pub fn id(&self) -> (id: u32)
        ensures
            id == self.spec_id(),
    {
        self.id
    }

    /// Attaches `shader` to the program.
    pub fn attach(&self, shader: &Shader) -> (call: Call)
        ensures
            call@ == (CallView::AttachShader { program: self.spec_id(), shader: shader.spec_id() }),
    {
        Call::AttachShader { program: self.id, shader: shader.id }
    }

    /// Begins the linking of the program and the inquiry into how it went.
    pub fn link(&self) -> (inquiry: Inquiry)
        ensures
            inquiry@ == InquiryView::start(Subject::Program, self.spec_id()),
    {
        Inquiry { subject: Subject::Program, id: self.id, stage: Stage::Start, result: None }
    }

    /// Makes this the current program.
    pub fn use_program(&self) -> (call: Call)
        ensures
            call@ == (CallView::UseProgram { program: self.spec_id() }),
    {
        Call::UseProgram { program: self.id }
    }

    /// Asks where the uniform variable `name` lives. The name travels as a C
    /// string and so may hold no zero byte; the reply is the location.
    pub fn get_uniform_location(&self, name: &str) -> (call: Call)
        requires
            !name.spec_bytes().contains(0u8),
        ensures
            call@ == (CallView::GetUniformLocation { program: self.spec_id(), name: name@ }),
    {
        Call::GetUniformLocation { program: self.id, name: name.to_owned() }
    }

    /// Deletes the program, which ends its life.
    pub fn delete(self) -> (call: Call)
        ensures
            call@ == (CallView::DeleteProgram { program: self.spec_id() }),
    {
        Call::DeleteProgram { program: self.id }
    }
}

/// The kind of object that an [`Inquiry`] is about.
#[derive(Clone, Copy, Debug, PartialEq, Eq)]
pub enum Subject {
    /// A shader, which is compiled.
    Shader,
    /// A program, which is linked.
    Program,
}

/// How far an [`Inquiry`] has come.
#[derive(Clone, Copy, Debug, PartialEq, Eq)]
pub enum Stage {
    /// Nothing has been asked of the driver.
    Start,
    /// The object is being compiled or linked.
    Building,
    /// The status has been asked for.
    Status,
    /// The build failed, and the length of its log has been asked for.
    Length,
    /// The log has been asked for.
    Log,
    /// The failure has been reported.
    Reported,
    /// The inquiry is over.
    Done,
}

/// Compiles a shader, or links a program, and finds out how that went.
///
/// The driver keeps a status flag and an information log for each object. The
/// inquiry builds the object and reads the flag. Where the flag is not true it
/// asks for the log's length and, if there is a log, for the log itself. The
/// log is reported and becomes the error. Every log has a text, so a failure
/// never stops whoever runs the inquiry.
#[derive(Debug, PartialEq, Eq)]
pub struct Inquiry {
    subject: Subject,
    id: u32,
    stage: Stage,
    result: Option<Result<(), String>>,
}

/// An [`Inquiry`], with its error text as a sequence.
pub struct InquiryView {
    pub subject: Subject,
    pub id: u32,
    pub stage: Stage,
    pub result: Option<Result<(), Seq<char>>>,
}

impl InquiryView {
    /// An inquiry that has not begun.
    pub open spec fn start(subject: Subject, id: u32) -> InquiryView {
        InquiryView { subject, id, stage: Stage::Start, result: None }
    }

    /// The call that compiles the shader or links the program.
    pub open spec fn build(self) -> CallView {
        match self.subject {
            Subject::Shader => CallView::CompileShader { shader: self.id },
            Subject::Program => CallView::LinkProgram { program: self.id },
        }
    }

    /// The call that reads `parameter` of the object.
    pub open spec fn query(self, parameter: u32) -> CallView {
        match self.subject {
            Subject::Shader => CallView::GetShaderiv { shader: self.id, parameter },
            Subject::Program => CallView::GetProgramiv { program: self.id, parameter },
        }
    }

    /// The enumerant of the object's status flag.
    pub open spec fn status_flag(self) -> u32 {
        match self.subject {
            Subject::Shader => codes::compile_status(),
            Subject::Program => codes::link_status(),
        }
    }

    /// The call that fetches the object's log into `capacity` bytes.
    pub open spec fn fetch(self, capacity: i32) -> CallView {
        match self.subject {
            Subject::Shader => CallView::GetShaderInfoLog { shader: self.id, capacity },
            Subject::Program => CallView::GetProgramInfoLog { program: self.id, capacity },
        }
    }

    /// The inquiry once the build has failed with this log text: the text is
    /// the error, and it has been reported.
    pub open spec fn failed(self, text: Seq<char>) -> InquiryView {
        InquiryView { stage: Stage::Reported, result: Some(Err(text)), ..self }
    }

    /// The inquiry after it has taken `reply`.
    pub open spec fn next(self, reply: Reply) -> InquiryView {
        match self.stage {
            Stage::Start => InquiryView { stage: Stage::Building, ..self },
            Stage::Building => InquiryView { stage: Stage::Status, ..self },
            Stage::Status => if reply.value_or(0) == codes::gl_true() as i32 {
                InquiryView { stage: Stage::Done, result: Some(Ok(())), ..self }
            } else {
                InquiryView { stage: Stage::Length, ..self }
            },
            Stage::Length => if reply.value_or(0) > 0 {
                InquiryView { stage: Stage::Log, ..self }
            } else {
                self.failed(Seq::empty())
            },
            Stage::Log => self.failed(log_text(reply.bytes())),
            Stage::Reported => InquiryView { stage: Stage::Done, ..self },
            Stage::Done => self,
        }
    }

    /// What the inquiry asks for once it has taken `reply`.
    pub open spec fn action(self, reply: Reply) -> ActionView {
        match self.stage {
            Stage::Start => ActionView::Issue(self.build()),
            Stage::Building => ActionView::Issue(self.query(self.status_flag())),
            Stage::Status => if reply.value_or(0) == codes::gl_true() as i32 {
                ActionView::Finish
            } else {
                ActionView::Issue(self.query(codes::info_log_length()))
            },
            Stage::Length => if reply.value_or(0) > 0 {
                ActionView::Issue(self.fetch(reply.value_or(0)))
            } else {
                ActionView::Report(Seq::empty())
            },
            Stage::Log => ActionView::Report(log_text(reply.bytes())),
            Stage::Reported => ActionView::Finish,
            Stage::Done => ActionView::Finish,
        }
    }
}

/// What an inquiry found, with its error text as a sequence.
pub open spec fn result_view(result: Option<Result<(), String>>) -> Option<
    Result<(), Seq<char>>,
> {
    match result {
        None => None,
        Some(Ok(())) => Some(Ok(())),
        Some(Err(text)) => Some(Err(text@)),
    }
}

impl View for Inquiry {
    type V = InquiryView;

    closed spec fn view(&self) -> InquiryView {
        InquiryView {
            subject: self.subject,
            id: self.id,
            stage: self.stage,
            result: result_view(self.result),
        }
    }
}

impl Inquiry {
    fn query(&self, parameter: u32) -> (call: Call)
        ensures
            call@ == self@.query(parameter),
    {
        match self.subject {
            Subject::Shader => Call::GetShaderiv { shader: self.id, parameter },
            Subject::Program => Call::GetProgramiv { program: self.id, parameter },
        }
    }

    /// How far the inquiry has come.
    pub fn stage(&self) -> (stage: Stage)
        ensures
            stage == self@.stage,
    {
        self.stage
    }

    /// Ends the build as failed with the log text `text`: the text becomes
    /// the error, and the action is its report.
    pub fn fail(&mut self, text: String) -> (action: Action)
        ensures
            final(self)@ == old(self)@.failed(text@),
            action@ == ActionView::Report(text@),
    {
        self.stage = Stage::Reported;
        self.result = Some(Err(text.clone()));
        Action::Report(text)
    }

    /// Takes the reply to the call issued last and says what to do next. The
    /// first step, and the one that follows the report, takes any reply.
    pub fn step(&mut self, reply: Reply) -> (action: Action)
        ensures
            final(self)@ == old(self)@.next(reply),
            action@ == old(self)@.action(reply),
    {
        match self.stage {
            Stage::Start => {
                self.stage = Stage::Building;
                match self.subject {
                    Subject::Shader => Action::Issue(Call::CompileShader { shader: self.id }),
                    Subject::Program => Action::Issue(Call::LinkProgram { program: self.id }),
                }
            },
            Stage::Building => {
                self.stage = Stage::Status;
                let flag = match self.subject {
                    Subject::Shader => codes::read_compile_status(),
                    Subject::Program => codes::read_link_status(),
                };
                Action::Issue(self.query(flag))
            },
            Stage::Status => {
                let status = reply.get_value_or(0);
                if status == codes::read_true() as i32 {
                    self.stage = Stage::Done;
                    self.result = Some(Ok(()));
                    Action::Finish
                } else {
                    self.stage = Stage::Length;
                    Action::Issue(self.query(codes::read_info_log_length()))
                }
            },
            Stage::Length => {
                let length = reply.get_value_or(0);
                if length > 0 {
                    self.stage = Stage::Log;
                    match self.subject {
                        Subject::Shader => Action::Issue(
                            Call::GetShaderInfoLog { shader: self.id, capacity: length },
                        ),
                        Subject::Program => Action::Issue(
                            Call::GetProgramInfoLog { program: self.id, capacity: length },
                        ),
                    }
                } else {
                    self.fail(String::new())
                }
            },
            Stage::Log => {
                let bytes = reply.into_bytes();
                let text = read_log(bytes.as_slice());
                self.fail(text)
            },
            Stage::Reported => {
                self.stage = Stage::Done;
                Action::Finish
            },
            Stage::Done => Action::Finish,
        }
    }

    /// What the inquiry found. There is nothing while the build is under
    /// way; then it is success, or the text of the object's log.
    pub fn result(self) -> (result: Option<Result<(), String>>)
        ensures
            result_view(result) == self@.result,
    {
        self.result
    }
}

/// What an inquiry finds, given the status flag, the length of the log and
/// the buffer that the log was fetched into: success where the flag is true,
/// else the text of the log, which is empty where the log has no length.
pub open spec fn outcome(status: i32, length: i32, log: Seq<u8>) -> Result<(), Seq<char>> {
    if status == codes::gl_true() as i32 {
        Ok(())
    } else if length > 0 {
        Err(log_text(log))
    } else {
        Err(Seq::empty())
    }
}

/// Everything that an inquiry asks for, in its order, given what the driver
/// answers: the build and the query of the status, then, where the status is
/// not true, the query of the log's length, the fetch of a log that has a
/// length, and the report of the log's text, and then the end.
pub open spec fn transcript(subject: Subject, id: u32, status: i32, length: i32, log: Seq<u8>) -> Seq<
    ActionView,
> {
    let inquiry = InquiryView::start(subject, id);
    if status == codes::gl_true() as i32 {
        seq![
            ActionView::Issue(inquiry.build()),
            ActionView::Issue(inquiry.query(inquiry.status_flag())),
            ActionView::Finish,
        ]
    } else if length > 0 {
        seq![
            ActionView::Issue(inquiry.build()),
            ActionView::Issue(inquiry.query(inquiry.status_flag())),
            ActionView::Issue(inquiry.query(codes::info_log_length())),
            ActionView::Issue(inquiry.fetch(length)),
            ActionView::Report(log_text(log)),
            ActionView::Finish,
        ]
    } else {
        seq![
            ActionView::Issue(inquiry.build()),
            ActionView::Issue(inquiry.query(inquiry.status_flag())),
            ActionView::Issue(inquiry.query(codes::info_log_length())),
            ActionView::Report(Seq::empty()),
            ActionView::Finish,
        ]
    }
}

/// An inquiry is over within six steps, whatever the driver answers. Step by
/// step it asks for its [`transcript`] and then for nothing more, and what it
/// found is the [`outcome`]. A build that fails is reported exactly once,
/// with the text that becomes the error. The replies to the build, to the
/// report and to a step that follows the end do not matter.
pub proof fn inquiry_concludes(
    subject: Subject,
    id: u32,
    first: Reply,
    built: Reply,
    status: Reply,
    length: Reply,
    log: Reply,
    last: Reply,
)
    ensures
        ({
            let s0 = InquiryView::start(subject, id);
            let s1 = s0.next(first);
            let s2 = s1.next(built);
            let s3 = s2.next(status);
            let s4 = s3.next(length);
            let s5 = s4.next(log);
            let s6 = s5.next(last);
            let actions = seq![
                s0.action(first),
                s1.action(built),
                s2.action(status),
                s3.action(length),
                s4.action(log),
                s5.action(last),
            ];
            let asked = transcript(
                subject,
                id,
                status.value_or(0),
                length.value_or(0),
                log.bytes(),
            );
            &&& s6.stage == Stage::Done
            &&& s6.result == Some(outcome(status.value_or(0), length.value_or(0), log.bytes()))
            &&& forall|k: int|
                0 <= k < 6 ==> #[trigger] actions[k] == if k < asked.len() {
                    asked[k]
                } else {
                    ActionView::Finish
                }
        }),
{
}

/// An inquiry that is over stays as it is and asks for nothing, whatever it
/// is told.
pub proof fn inquiry_rests(inquiry: InquiryView, reply: Reply)
    requires
        inquiry.stage == Stage::Done,
    ensures
        inquiry.next(reply) == inquiry,
        inquiry.action(reply) == ActionView::Finish,
{
}

/// Sets the colour that [`clear`] fills the colour buffer with. Each
/// component is the bit pattern of a single-precision number.
pub fn clear_color(red: u32, green: u32, blue: u32, alpha: u32) -> (call: Call)
    ensures
        call@ == (CallView::ClearColor { red, green, blue, alpha }),
{
    Call::ClearColor { red, green, blue, alpha }
}

/// Clears the colour buffer.
pub fn clear() -> (call: Call)
    ensures
        call@ == (CallView::Clear { mask: codes::color_buffer_bit() }),
{
    Call::Clear { mask: codes::read_color_buffer_bit() }
}

/// Describes the attribute `index` of the current vertex array: `size`
/// components of type `type_` per vertex, `stride` bytes from one vertex to
/// the next, starting where the bound array buffer starts. The stride reaches
/// the driver as a signed 32-bit number.
pub fn vertex_attrib_pointer(index: u32, size: i32, type_: u32, normalized: u8, stride: usize) -> (call:
    Call)
    ensures
        call@ == (CallView::VertexAttribPointer {
            index,
            components: size,
            kind: type_,
            normalized,
            stride: stride as i32,
        }),
{
    Call::VertexAttribPointer {
        index,
        components: size,
        kind: type_,
        normalized,
        stride: #[verifier::truncate] (stride as i32),
    }
}

/// Switches the attribute `index` of the current vertex array on.
pub fn enable_vertex_attrib_array(index: u32) -> (call: Call)
    ensures
        call@ == (CallView::EnableVertexAttribArray { index }),
{
    Call::EnableVertexAttribArray { index }
}

/// The primitives that vertices are assembled into.
#[derive(Clone, Copy, Debug, PartialEq, Eq)]
pub enum DrawMode {
    Lines,
    Points,
    Triangles,
}

impl DrawMode {
    /// The enumerant that names this mode.
    pub open spec fn spec_code(self) -> u32 {
        match self {
            DrawMode::Lines => codes::lines(),
            DrawMode::Points => codes::points(),
            DrawMode::Triangles => codes::triangles(),
        }
    }

    /// The enumerant that names this mode.
    pub fn code(self) -> (code: u32)
        ensures
            code == self.spec_code(),
    {
        match self {
            DrawMode::Lines => codes::read_lines(),
            DrawMode::Points => codes::read_points(),
            DrawMode::Triangles => codes::read_triangles(),
        }
    }
}

/// Draws `count` vertices of the current vertex array, from vertex `first`
/// on, without indices.
pub fn draw_arrays(mode: DrawMode, first: i32, count: i32) -> (call: Call)
    ensures
        call@ == (CallView::DrawArrays { mode: mode.spec_code(), first, count }),
{
    Call::DrawArrays { mode: mode.code(), first, count }
}

/// Draws `count` indices of the bound element buffer, from its start on, as
/// primitives of `mode`. The indices are 32-bit numbers.
pub fn draw_elements(mode: DrawMode, count: i32) -> (call: Call)
    ensures
        call@ == (CallView::DrawElements {
            mode: mode.spec_code(),
            count,
            kind: codes::unsigned_int(),
        }),
{
    Call::DrawElements { mode: mode.code(), count, kind: codes::read_unsigned_int() }
}

/// Maps clip space onto the rectangle of the window that starts at (`x`, `y`)
/// and is `width` by `height` pixels.
pub fn viewport(x: i32, y: i32, width: i32, height: i32) -> (call: Call)
    ensures
        call@ == (CallView::Viewport { x, y, width, height }),
{
    Call::Viewport { x, y, width, height }
}

} // verus!
