//! OpenGL calls as plain values, and the protocol by which they are handed to
//! whoever owns the context.
use vstd::prelude::*;

verus! {

/// One call of an OpenGL entry point, with the arguments it is made with.
///
/// Where the entry point takes a count of objects, the count is one; where it
/// takes an offset into a bound buffer, the offset is zero. Colour components
/// are carried as IEEE 754 single-precision bit patterns, and buffer contents
/// as 32-bit words, since nothing here computes with them.
#[derive(Debug, PartialEq, Eq)]
pub enum Call {
    /// `glGenBuffers`; the reply is the new buffer's name.
    GenBuffers,
    /// `glDeleteBuffers`.
    DeleteBuffers { buffer: u32 },
    /// `glBindBuffer`.
    BindBuffer { target: u32, buffer: u32 },
    /// `glBufferData`, reading `size` bytes from the start of `data`.
    BufferData { target: u32, size: isize, data: Vec<u32>, usage: u32 },
    /// `glGenVertexArrays`; the reply is the new vertex array's name.
    GenVertexArrays,
    /// `glDeleteVertexArrays`.
    DeleteVertexArrays { array: u32 },
    /// `glBindVertexArray`.
    BindVertexArray { array: u32 },
    /// `glVertexAttribPointer`.
    VertexAttribPointer { index: u32, components: i32, kind: u32, normalized: u8, stride: i32 },
    /// `glEnableVertexAttribArray`.
    EnableVertexAttribArray { index: u32 },
    /// `glCreateShader`; the reply is the new shader's name.
    CreateShader { kind: u32 },
    /// `glShaderSource`, with `source` as the only string.
    ShaderSource { shader: u32, source: String },
    /// `glCompileShader`.
    CompileShader { shader: u32 },
    /// `glGetShaderiv`; the reply is the parameter's value.
    GetShaderiv { shader: u32, parameter: u32 },
    /// `glGetShaderInfoLog` into a buffer of `capacity` bytes; the reply is
    /// the buffer.
    GetShaderInfoLog { shader: u32, capacity: i32 },
    /// `glDeleteShader`.
    DeleteShader { shader: u32 },
    /// `glCreateProgram`; the reply is the new program's name.
    CreateProgram,
    /// `glAttachShader`.
    AttachShader { program: u32, shader: u32 },
    /// `glLinkProgram`.
    LinkProgram { program: u32 },
    /// `glGetProgramiv`; the reply is the parameter's value.
    GetProgramiv { program: u32, parameter: u32 },
    /// `glGetProgramInfoLog` into a buffer of `capacity` bytes; the reply is
    /// the buffer.
    GetProgramInfoLog { program: u32, capacity: i32 },
    /// `glUseProgram`.
    UseProgram { program: u32 },
    /// `glDeleteProgram`.
    DeleteProgram { program: u32 },
    /// `glGetUniformLocation`; the reply is the location.
    GetUniformLocation { program: u32, name: String },
    /// `glClearColor`.
    ClearColor { red: u32, green: u32, blue: u32, alpha: u32 },
    /// `glClear`.
    Clear { mask: u32 },
    /// `glDrawArrays`.
    DrawArrays { mode: u32, first: i32, count: i32 },
    /// `glDrawElements`.
    DrawElements { mode: u32, count: i32, kind: u32 },
    /// `glViewport`.
    Viewport { x: i32, y: i32, width: i32, height: i32 },
    /// `glPolygonMode`.
    PolygonMode { face: u32, mode: u32 },
}

/// What a [`Call`] is, with its text and data as sequences.
pub enum CallView {
    GenBuffers,
    DeleteBuffers { buffer: u32 },
    BindBuffer { target: u32, buffer: u32 },
    BufferData { target: u32, size: isize, data: Seq<u32>, usage: u32 },
    GenVertexArrays,
    DeleteVertexArrays { array: u32 },
    BindVertexArray { array: u32 },
    VertexAttribPointer { index: u32, components: i32, kind: u32, normalized: u8, stride: i32 },
    EnableVertexAttribArray { index: u32 },
    CreateShader { kind: u32 },
    ShaderSource { shader: u32, source: Seq<char> },
    CompileShader { shader: u32 },
    GetShaderiv { shader: u32, parameter: u32 },
    GetShaderInfoLog { shader: u32, capacity: i32 },
    DeleteShader { shader: u32 },
    CreateProgram,
    AttachShader { program: u32, shader: u32 },
    LinkProgram { program: u32 },
    GetProgramiv { program: u32, parameter: u32 },
    GetProgramInfoLog { program: u32, capacity: i32 },
    UseProgram { program: u32 },
    DeleteProgram { program: u32 },
    GetUniformLocation { program: u32, name: Seq<char> },
    ClearColor { red: u32, green: u32, blue: u32, alpha: u32 },
    Clear { mask: u32 },
    DrawArrays { mode: u32, first: i32, count: i32 },
    DrawElements { mode: u32, count: i32, kind: u32 },
    Viewport { x: i32, y: i32, width: i32, height: i32 },
    PolygonMode { face: u32, mode: u32 },
}

impl View for Call {
    type V = CallView;

    open spec fn view(&self) -> CallView {
        match *self {
            Call::GenBuffers => CallView::GenBuffers,
            Call::DeleteBuffers { buffer } => CallView::DeleteBuffers { buffer },
            Call::BindBuffer { target, buffer } => CallView::BindBuffer { target, buffer },
            Call::BufferData { target, size, data, usage } => CallView::BufferData {
                target,
                size,
                data: data@,
                usage,
            },
            Call::GenVertexArrays => CallView::GenVertexArrays,
            Call::DeleteVertexArrays { array } => CallView::DeleteVertexArrays { array },
            Call::BindVertexArray { array } => CallView::BindVertexArray { array },
            Call::VertexAttribPointer { index, components, kind, normalized, stride } => {
                CallView::VertexAttribPointer { index, components, kind, normalized, stride }
            },
            Call::EnableVertexAttribArray { index } => CallView::EnableVertexAttribArray { index },
            Call::CreateShader { kind } => CallView::CreateShader { kind },
            Call::ShaderSource { shader, source } => CallView::ShaderSource {
                shader,
                source: source@,
            },
            Call::CompileShader { shader } => CallView::CompileShader { shader },
            Call::GetShaderiv { shader, parameter } => CallView::GetShaderiv { shader, parameter },
            Call::GetShaderInfoLog { shader, capacity } => CallView::GetShaderInfoLog {
                shader,
                capacity,
            },
            Call::DeleteShader { shader } => CallView::DeleteShader { shader },
            Call::CreateProgram => CallView::CreateProgram,
            Call::AttachShader { program, shader } => CallView::AttachShader { program, shader },
            Call::LinkProgram { program } => CallView::LinkProgram { program },
            Call::GetProgramiv { program, parameter } => CallView::GetProgramiv {
                program,
                parameter,
            },
            Call::GetProgramInfoLog { program, capacity } => CallView::GetProgramInfoLog {
                program,
                capacity,
            },
            Call::UseProgram { program } => CallView::UseProgram { program },
            Call::DeleteProgram { program } => CallView::DeleteProgram { program },
            Call::GetUniformLocation { program, name } => CallView::GetUniformLocation {
                program,
                name: name@,
            },
            Call::ClearColor { red, green, blue, alpha } => CallView::ClearColor {
                red,
                green,
                blue,
                alpha,
            },
            Call::Clear { mask } => CallView::Clear { mask },
            Call::DrawArrays { mode, first, count } => CallView::DrawArrays { mode, first, count },
            Call::DrawElements { mode, count, kind } => CallView::DrawElements {
                mode,
                count,
                kind,
            },
            Call::Viewport { x, y, width, height } => CallView::Viewport { x, y, width, height },
            Call::PolygonMode { face, mode } => CallView::PolygonMode { face, mode },
        }
    }
}

/// What a list of calls is, call by call.
pub open spec fn call_views(calls: Seq<Call>) -> Seq<CallView> {
    Seq::new(calls.len(), |i: int| calls[i]@)
}

/// The bytes from one vertex to the next: three single-precision numbers of
/// four bytes each.
pub const VERTEX_STRIDE: i32 = 12;

/// The bytes that `words` 32-bit words take.
pub open spec fn byte_len(words: Seq<u32>) -> nat {
    words.len() * 4
}

/// Whether `words` can be uploaded: there is a first word to point at, and
/// the size in bytes fits the signed machine word that the driver takes.
pub open spec fn uploadable(words: Seq<u32>) -> bool {
    0 < words.len() && byte_len(words) <= isize::MAX
}

/// Whether `words` can be uploaded.
pub fn is_uploadable(words: &Vec<u32>) -> (ok: bool)
    ensures
        ok == uploadable(words@),
{
    0 < words.len() && words.len() <= isize::MAX as usize / 4
}

/// The size of `words` in bytes.
pub fn byte_size(words: &Vec<u32>) -> (size: isize)
    requires
        uploadable(words@),
    ensures
        size == byte_len(words@),
{
    (words.len() * 4) as isize
}

/// What came back from the driver for the call performed last.
#[derive(Debug, PartialEq, Eq)]
pub enum Reply {
    /// The call returns nothing, or no call has been performed yet.
    Nothing,
    /// The name of a new object.
    Name(u32),
    /// The value of a queried parameter, or a location.
    Value(i32),
    /// The buffer that an information log was written into.
    Bytes(Vec<u8>),
}

impl Reply {
    /// The name that the reply carries. A reply without one leaves `current`
    /// as it is, as a driver does that writes nothing.
    pub open spec fn name_or(self, current: u32) -> u32 {
        match self {
            Reply::Name(name) => name,
            _ => current,
        }
    }

    /// The value that the reply carries. A reply without one leaves `current`
    /// as it is.
    pub open spec fn value_or(self, current: i32) -> i32 {
        match self {
            Reply::Value(value) => value,
            _ => current,
        }
    }

    /// The bytes that the reply carries; none where it carries no buffer.
    pub open spec fn bytes(self) -> Seq<u8> {
        match self {
            Reply::Bytes(bytes) => bytes@,
            _ => Seq::empty(),
        }
    }

    /// The name in this reply, or `current`.
    pub fn get_name_or(&self, current: u32) -> (name: u32)
        ensures
            name == self.name_or(current),
    {
        match self {
            Reply::Name(name) => *name,
            _ => current,
        }
    }

    /// The value in this reply, or `current`.
    pub fn get_value_or(&self, current: i32) -> (value: i32)
        ensures
            value == self.value_or(current),
    {
        match self {
            Reply::Value(value) => *value,
            _ => current,
        }
    }

    /// The buffer in this reply, or an empty one.
    pub fn into_bytes(self) -> (bytes: Vec<u8>)
        ensures
            bytes@ == self.bytes(),
    {
        match self {
            Reply::Bytes(bytes) => bytes,
            _ => Vec::new(),
        }
    }
}

/// What a procedure asks of its driver next.
#[derive(Debug, PartialEq, Eq)]
pub enum Action {
    /// Perform this call and step again with its reply.
    Issue(Call),
    /// Print this text on a line of its own and step again.
    Report(String),
    /// The procedure is over.
    Finish,
}

/// What an [`Action`] is, with its call and text as sequences.
pub enum ActionView {
    Issue(CallView),
    Report(Seq<char>),
    Finish,
}

impl View for Action {
    type V = ActionView;

    open spec fn view(&self) -> ActionView {
        match *self {
            Action::Issue(call) => ActionView::Issue(call@),
            Action::Report(text) => ActionView::Report(text@),
            Action::Finish => ActionView::Finish,
        }
    }
}

} // verus!
