//! GPU resource lifecycle.
//!
//! The library never talks to a graphics backend itself. Instead, every
//! resource operation is split into a decision and an effect: a thin runner
//! performs backend calls (create, compile, link, lookup) and reports their
//! outcomes here; the functions of this module judge those outcomes, track
//! resource state, and hand back exact plans — which handles to bind, what to
//! upload, and which handles must be released. The release plans enforce the
//! lifecycle rule of this design: every acquired handle is released exactly
//! once, on the normal path and on every failure path.

use vstd::prelude::*;

use crate::matrix::Mat4;

verus! {

/// Size of one buffer element (a single-precision coordinate), in bytes.
pub const FLOAT_BYTES: i32 = 4;

/// Largest attribute stride or offset (in elements) accepted, so the byte
/// conversion fits an `i32`.
pub const ATTRIB_DIM_MAX: i32 = 0x1FFF_FFFF;

/// An instruction to release one backend handle. Each handle kind has its own
/// delete call.
#[derive(Clone, Copy, PartialEq, Eq, Structural, Debug)]
pub enum GlRelease {
    Shader(u64),
    Program(u64),
    Buffer(u64),
    VertexArray(u64),
}

/// An instruction to make one backend object current.
#[derive(Clone, Copy, PartialEq, Eq, Structural, Debug)]
pub enum GlBind {
    Program(u64),
    Buffer(u64),
    VertexArray(u64),
}

/// The upload frequency hint for a buffer.
#[derive(Clone, Copy, PartialEq, Eq, Structural, Debug)]
pub enum UsageHint {
    Static,
    Dynamic,
}

/// The primitive topology of a draw call.
#[derive(Clone, Copy, PartialEq, Eq, Structural, Debug)]
pub enum DrawMode {
    Triangles,
    Points,
}

/// The two shader stages a program links.
#[derive(Clone, Copy, PartialEq, Eq, Structural, Debug)]
pub enum ShaderKind {
    Vertex,
    Fragment,
}

/// An instruction to upload the current data of a buffer.
#[derive(Clone, Copy, PartialEq, Eq, Structural, Debug)]
pub struct UploadCmd {
    pub buffer: u64,
    pub len: usize,
    pub usage: UsageHint,
}

/// An instruction to configure one vertex attribute: strides and offsets are
/// in bytes here; the element-count conversion already happened.
#[derive(Clone, Copy, PartialEq, Eq, Structural, Debug)]
pub struct AttribCmd {
    pub location: u32,
    pub size: i32,
    pub stride_bytes: i32,
    pub offset_bytes: i32,
}

/// A failure of the shader-stage lifecycle.
#[derive(PartialEq, Eq, Debug)]
pub enum ShaderError {
    /// The backend reported a failed compile; holds its info log, verbatim.
    Compilation(String),
    /// Source text was not valid text.
    Utf8(String),
    /// Source text could not be read.
    Io(String),
    /// Source text held an embedded NUL.
    Nul(String),
    /// The backend refused to create the stage object.
    String(String),
}

/// A failure of the program lifecycle.
#[derive(PartialEq, Eq, Debug)]
pub enum ProgramError {
    /// The backend reported a failed link; holds its info log, verbatim.
    Linking(String),
    /// Source text was not valid text.
    Utf8(String),
    /// Source text held an embedded NUL.
    Nul(String),
    /// A stage failed before the link.
    Shader(ShaderError),
    /// The backend refused to create the program object.
    String(String),
}

/// A failure of the buffer lifecycle.
#[derive(PartialEq, Eq, Debug)]
pub enum BufferError {
    /// The backend refused to create the buffer object.
    String(String),
}

/// A failure of the vertex-layout lifecycle.
#[derive(PartialEq, Eq, Debug)]
pub enum VertexArrayError {
    /// The backend refused to create the vertex-array object.
    String(String),
    /// The named attribute does not exist in the linked program.
    Location,
}

/// A failure of the uniform lifecycle.
#[derive(PartialEq, Eq, Debug)]
pub enum UniformMatrixError {
    /// The uniform name held an embedded NUL.
    Nul(String),
    /// The named uniform does not exist in the linked program.
    Location,
}

impl From<String> for ShaderError {
    /// A backend message, wrapped unchanged.
    fn from(s: String) -> (r: ShaderError) {
        ShaderError::String(s)
    }
}

impl vstd::std_specs::convert::FromSpecImpl<String> for ShaderError {
    open spec fn obeys_from_spec() -> bool {
        true
    }

    open spec fn from_spec(s: String) -> ShaderError {
        ShaderError::String(s)
    }
}

impl From<String> for ProgramError {
    /// A backend message, wrapped unchanged.
    fn from(s: String) -> (r: ProgramError) {
        ProgramError::String(s)
    }
}

impl vstd::std_specs::convert::FromSpecImpl<String> for ProgramError {
    open spec fn obeys_from_spec() -> bool {
        true
    }

    open spec fn from_spec(s: String) -> ProgramError {
        ProgramError::String(s)
    }
}

impl From<ShaderError> for ProgramError {
    /// A stage failure, carried into the program error.
    fn from(e: ShaderError) -> (r: ProgramError) {
        ProgramError::Shader(e)
    }
}

impl vstd::std_specs::convert::FromSpecImpl<ShaderError> for ProgramError {
    open spec fn obeys_from_spec() -> bool {
        true
    }

    open spec fn from_spec(e: ShaderError) -> ProgramError {
        ProgramError::Shader(e)
    }
}

impl From<String> for BufferError {
    /// A backend message, wrapped unchanged.
    fn from(s: String) -> (r: BufferError) {
        BufferError::String(s)
    }
}

impl vstd::std_specs::convert::FromSpecImpl<String> for BufferError {
    open spec fn obeys_from_spec() -> bool {
        true
    }

    open spec fn from_spec(s: String) -> BufferError {
        BufferError::String(s)
    }
}

impl From<String> for VertexArrayError {
    /// A backend message, wrapped unchanged.
    fn from(s: String) -> (r: VertexArrayError) {
        VertexArrayError::String(s)
    }
}

impl vstd::std_specs::convert::FromSpecImpl<String> for VertexArrayError {
    open spec fn obeys_from_spec() -> bool {
        true
    }

    open spec fn from_spec(s: String) -> VertexArrayError {
        VertexArrayError::String(s)
    }
}

/// What the backend reported for one shader compile dialog: the stage handle
/// it created, the compile status, and the info log.
#[derive(PartialEq, Eq, Debug)]
pub struct CompileReport {
    pub id: u64,
    pub compiled: bool,
    pub log: String,
}

/// What one attempt to compile a stage came to: either the backend refused to
/// create the stage object, or it compiled and reported.
#[derive(PartialEq, Eq, Debug)]
pub enum CompileOutcome {
    CreateFailed(String),
    Compiled(CompileReport),
}

/// What the backend reported for one program link dialog.
#[derive(PartialEq, Eq, Debug)]
pub struct LinkReport {
    pub id: u64,
    pub linked: bool,
    pub log: String,
}

/// What one attempt to link came to.
#[derive(PartialEq, Eq, Debug)]
pub enum LinkOutcome {
    CreateFailed(String),
    Linked(LinkReport),
}

/// An owned, compiled shader stage handle.
#[derive(Clone, Copy, PartialEq, Eq, Structural, Debug)]
pub struct Shader {
    pub id: u64,
}

/// An owned, linked program handle.
#[derive(Clone, Copy, PartialEq, Eq, Structural, Debug)]
pub struct Program {
    pub id: u64,
}

/// An owned data buffer handle, tracking the element count of its most recent
/// upload.
#[derive(Clone, Copy, PartialEq, Eq, Structural, Debug)]
pub struct Buffer {
    pub id: u64,
    pub usage: UsageHint,
    pub len: usize,
}

/// An owned vertex-attribute-layout handle.
#[derive(Clone, Copy, PartialEq, Eq, Structural, Debug)]
pub struct VertexArray {
    pub id: u64,
}

impl Shader {
    /// Judge one compile report: a good status yields the owned stage; a bad
    /// one yields the backend's log and orders the fresh handle released.
    pub fn new(report: CompileReport) -> (r: (Result<Shader, ShaderError>, Vec<GlRelease>))
        ensures
            report.compiled ==> r.0 == Ok::<Shader, ShaderError>(Shader { id: report.id })
                && r.1@ =~= Seq::<GlRelease>::empty(),
            !report.compiled ==> r.0 == Err::<Shader, ShaderError>(
                ShaderError::Compilation(report.log),
            ) && r.1@ =~= seq![GlRelease::Shader(report.id)],
    {
        if report.compiled {
            (Ok(Shader { id: report.id }), Vec::new())
        } else {
            let mut releases: Vec<GlRelease> = Vec::new();
            releases.push(GlRelease::Shader(report.id));
            (Err(ShaderError::Compilation(report.log)), releases)
        }
    }

    /// The instruction freeing this stage.
    pub fn release(&self) -> (r: GlRelease)
        ensures
            r == GlRelease::Shader(self.id),
    {
        GlRelease::Shader(self.id)
    }
}

impl Program {
    /// Judge one link report: a good status yields the owned program; a bad
    /// one yields the backend's log and orders the fresh handle released.
    pub fn new(report: LinkReport) -> (r: (Result<Program, ProgramError>, Vec<GlRelease>))
        ensures
            report.linked ==> r.0 == Ok::<Program, ProgramError>(Program { id: report.id })
                && r.1@ =~= Seq::<GlRelease>::empty(),
            !report.linked ==> r.0 == Err::<Program, ProgramError>(
                ProgramError::Linking(report.log),
            ) && r.1@ =~= seq![GlRelease::Program(report.id)],
    {
        if report.linked {
            (Ok(Program { id: report.id }), Vec::new())
        } else {
            let mut releases: Vec<GlRelease> = Vec::new();
            releases.push(GlRelease::Program(report.id));
            (Err(ProgramError::Linking(report.log)), releases)
        }
    }

    /// The instruction making this program current.
    pub fn bind(&self) -> (r: GlBind)
        ensures
            r == GlBind::Program(self.id),
    {
        GlBind::Program(self.id)
    }

    /// The instruction freeing this program.
    pub fn release(&self) -> (r: GlRelease)
        ensures
            r == GlRelease::Program(self.id),
    {
        GlRelease::Program(self.id)
    }
}

impl Buffer {
    /// Judge one buffer-creation outcome. A fresh buffer has no uploaded
    /// elements.
    pub fn new(outcome: Result<u64, String>, usage: UsageHint) -> (r: Result<Buffer, BufferError>)
        ensures
            match outcome {
                Ok(id) => r == Ok::<Buffer, BufferError>(Buffer { id, usage, len: 0 }),
                Err(msg) => r == Err::<Buffer, BufferError>(BufferError::String(msg)),
            },
    {
        match outcome {
            Ok(id) => Ok(Buffer { id, usage, len: 0 }),
            Err(msg) => Err(BufferError::String(msg)),
        }
    }

    /// Track an upload of `len` elements and order it: bind this buffer, then
    /// upload. The tracked count lets draw calls size themselves.
    pub fn set_data(&mut self, len: usize) -> (cmds: (GlBind, UploadCmd))
        ensures
            final(self).id == old(self).id,
            final(self).usage == old(self).usage,
            final(self).len == len,
            cmds.0 == GlBind::Buffer(old(self).id),
            cmds.1 == (UploadCmd { buffer: old(self).id, len, usage: old(self).usage }),
    {
        self.len = len;
        (GlBind::Buffer(self.id), UploadCmd { buffer: self.id, len, usage: self.usage })
    }

    /// The instruction making this buffer current.
    pub fn bind(&self) -> (r: GlBind)
        ensures
            r == GlBind::Buffer(self.id),
    {
        GlBind::Buffer(self.id)
    }

    /// The instruction freeing this buffer.
    pub fn release(&self) -> (r: GlRelease)
        ensures
            r == GlRelease::Buffer(self.id),
    {
        GlRelease::Buffer(self.id)
    }
}

impl VertexArray {
    /// Judge one vertex-array-creation outcome.
    pub fn new(outcome: Result<u64, String>) -> (r: Result<VertexArray, VertexArrayError>)
        ensures
            match outcome {
                Ok(id) => r == Ok::<VertexArray, VertexArrayError>(VertexArray { id }),
                Err(msg) => r == Err::<VertexArray, VertexArrayError>(VertexArrayError::String(msg)),
            },
    {
        match outcome {
            Ok(id) => Ok(VertexArray { id }),
            Err(msg) => Err(VertexArrayError::String(msg)),
        }
    }

    /// Judge one attribute-location lookup and convert element counts to byte
    /// strides. A missing attribute name is the `Location` error.
    pub fn set_attrib(location: Option<u32>, size: i32, stride: i32, offset: i32) -> (r: Result<
        AttribCmd,
        VertexArrayError,
    >)
        requires
            0 <= stride <= ATTRIB_DIM_MAX,
            0 <= offset <= ATTRIB_DIM_MAX,
        ensures
            match location {
                Some(loc) => r == Ok::<AttribCmd, VertexArrayError>(
                    AttribCmd {
                        location: loc,
                        size,
                        stride_bytes: (FLOAT_BYTES * stride) as i32,
                        offset_bytes: (FLOAT_BYTES * offset) as i32,
                    },
                ),
                None => r == Err::<AttribCmd, VertexArrayError>(VertexArrayError::Location),
            },
    {
        match location {
            Some(loc) => Ok(
                AttribCmd {
                    location: loc,
                    size,
                    stride_bytes: FLOAT_BYTES * stride,
                    offset_bytes: FLOAT_BYTES * offset,
                },
            ),
            None => Err(VertexArrayError::Location),
        }
    }

    /// The instruction making this vertex array current.
    pub fn bind(&self) -> (r: GlBind)
        ensures
            r == GlBind::VertexArray(self.id),
    {
        GlBind::VertexArray(self.id)
    }

    /// The instruction freeing this vertex array.
    pub fn release(&self) -> (r: GlRelease)
        ensures
            r == GlRelease::VertexArray(self.id),
    {
        GlRelease::VertexArray(self.id)
    }
}

/// A named 4x4 uniform slot: the location the backend resolved for the name,
/// and the current matrix value to push.
#[derive(PartialEq, Eq, Debug)]
pub struct UniformMatrix {
    pub name: String,
    pub location: u64,
    pub data: Mat4,
}

/// An instruction to push the current value of a uniform slot into one
/// program.
#[derive(Clone, Copy, PartialEq, Eq, Structural, Debug)]
pub struct UniformSlot {
    pub program: u64,
    pub location: u64,
}

impl UniformMatrix {
    /// Judge one uniform-location lookup: a resolved location yields the slot
    /// holding `data`; an absent name is the `Location` error.
    pub fn new(location: Option<u64>, name: String, data: Mat4) -> (r: Result<
        UniformMatrix,
        UniformMatrixError,
    >)
        ensures
            match location {
                Some(loc) => r matches Ok(u) && u.location == loc && u.name@ == name@ && u.data.m@
                    == data.m@,
                None => r == Err::<UniformMatrix, UniformMatrixError>(UniformMatrixError::Location),
            },
    {
        match location {
            Some(loc) => Ok(UniformMatrix { name, location: loc, data }),
            None => Err(UniformMatrixError::Location),
        }
    }

    /// Order the current matrix value pushed into every program of a list
    /// (they share the naming convention, so the one location applies).
    pub fn apply(&self, programs: &Vec<u64>) -> (slots: Vec<UniformSlot>)
        ensures
            slots@.len() == programs@.len(),
            forall|i: int|
                0 <= i < slots@.len() ==> slots@[i] == (UniformSlot {
                    program: programs@[i],
                    location: self.location,
                }),
    {
        let mut slots: Vec<UniformSlot> = Vec::new();
        let mut i: usize = 0;
        while i < programs.len()
            invariant
                i <= programs@.len(),
                slots@.len() == i,
                forall|j: int|
                    0 <= j < i ==> slots@[j] == (UniformSlot {
                        program: programs@[j],
                        location: self.location,
                    }),
            decreases programs@.len() - i,
        {
            slots.push(UniformSlot { program: programs[i], location: self.location });
            i = i + 1;
        }
        slots
    }
}

/// Where a program build stands: which stage outcome it waits for, and which
/// stage handles it holds meanwhile.
#[derive(Clone, Copy, PartialEq, Eq, Structural, Debug)]
pub enum ProgramBuildState {
    NeedVertex,
    NeedFragment { vertex: u64 },
    NeedLink { vertex: u64, fragment: u64 },
    Done,
}

/// The next backend call a program build asks its runner for.
#[derive(Clone, Copy, PartialEq, Eq, Structural, Debug)]
pub enum BuildRequest {
    CompileShader(ShaderKind),
    LinkProgram { vertex: u64, fragment: u64 },
    Finished,
}

/// Builds a program from two shader sources, one backend outcome at a time:
/// compile the vertex stage, compile the fragment stage, link, and release
/// both stage handles whether or not the link succeeded. Any failure ends the
/// build and releases every handle acquired so far.
#[derive(Clone, Copy, PartialEq, Eq, Structural, Debug)]
pub struct ProgramBuilder {
    pub state: ProgramBuildState,
}

/// The handles a compile outcome acquired from the backend.
pub open spec fn acquired_compile(o: CompileOutcome) -> Seq<GlRelease> {
    match o {
        CompileOutcome::CreateFailed(_) => Seq::empty(),
        CompileOutcome::Compiled(rep) => seq![GlRelease::Shader(rep.id)],
    }
}

/// The handles a link outcome acquired from the backend.
pub open spec fn acquired_link(o: LinkOutcome) -> Seq<GlRelease> {
    match o {
        LinkOutcome::CreateFailed(_) => Seq::empty(),
        LinkOutcome::Linked(rep) => seq![GlRelease::Program(rep.id)],
    }
}

/// The handle a buffer-creation outcome acquired.
pub open spec fn acquired_buffer(o: Result<u64, String>) -> Seq<GlRelease> {
    match o {
        Ok(id) => seq![GlRelease::Buffer(id)],
        Err(_) => Seq::empty(),
    }
}

/// The handle a vertex-array-creation outcome acquired.
pub open spec fn acquired_vertex_array(o: Result<u64, String>) -> Seq<GlRelease> {
    match o {
        Ok(id) => seq![GlRelease::VertexArray(id)],
        Err(_) => Seq::empty(),
    }
}

/// The handle a finished program build hands over.
pub open spec fn acquired_program(o: Result<Program, ProgramError>) -> Seq<GlRelease> {
    match o {
        Ok(p) => seq![GlRelease::Program(p.id)],
        Err(_) => Seq::empty(),
    }
}

/// The handles a build state still holds.
pub open spec fn outstanding(s: ProgramBuildState) -> Seq<GlRelease> {
    match s {
        ProgramBuildState::NeedVertex => Seq::empty(),
        ProgramBuildState::NeedFragment { vertex } => seq![GlRelease::Shader(vertex)],
        ProgramBuildState::NeedLink { vertex, fragment } => seq![
            GlRelease::Shader(vertex),
            GlRelease::Shader(fragment),
        ],
        ProgramBuildState::Done => Seq::empty(),
    }
}

/// The handle a finished build keeps: the program, on success.
pub open spec fn retained(r: Option<Result<Program, ProgramError>>) -> Seq<GlRelease> {
    match r {
        Some(Ok(p)) => seq![GlRelease::Program(p.id)],
        _ => Seq::empty(),
    }
}

/// The transition a compile outcome causes: the next state, the handles to
/// release now, and the error ending the build, if any. An outcome arriving
/// in a state that expects none releases whatever it acquired.
pub open spec fn spec_on_compile(s: ProgramBuildState, o: CompileOutcome) -> (
    ProgramBuildState,
    Seq<GlRelease>,
    Option<ProgramError>,
) {
    match s {
        ProgramBuildState::NeedVertex => match o {
            CompileOutcome::CreateFailed(msg) => (
                ProgramBuildState::Done,
                Seq::empty(),
                Some(ProgramError::Shader(ShaderError::String(msg))),
            ),
            CompileOutcome::Compiled(rep) => {
                if rep.compiled {
                    (ProgramBuildState::NeedFragment { vertex: rep.id }, Seq::empty(), None)
                } else {
                    (
                        ProgramBuildState::Done,
                        seq![GlRelease::Shader(rep.id)],
                        Some(ProgramError::Shader(ShaderError::Compilation(rep.log))),
                    )
                }
            },
        },
        ProgramBuildState::NeedFragment { vertex } => match o {
            CompileOutcome::CreateFailed(msg) => (
                ProgramBuildState::Done,
                seq![GlRelease::Shader(vertex)],
                Some(ProgramError::Shader(ShaderError::String(msg))),
            ),
            CompileOutcome::Compiled(rep) => {
                if rep.compiled {
                    (
                        ProgramBuildState::NeedLink { vertex, fragment: rep.id },
                        Seq::empty(),
                        None,
                    )
                } else {
                    (
                        ProgramBuildState::Done,
                        seq![GlRelease::Shader(vertex), GlRelease::Shader(rep.id)],
                        Some(ProgramError::Shader(ShaderError::Compilation(rep.log))),
                    )
                }
            },
        },
        _ => (s, acquired_compile(o), None),
    }
}

/// The transition a link outcome causes: both stage handles are released
/// whatever the link said, and a failed link also releases the program.
pub open spec fn spec_on_link(s: ProgramBuildState, o: LinkOutcome) -> (
    ProgramBuildState,
    Seq<GlRelease>,
    Option<Result<Program, ProgramError>>,
) {
    match s {
        ProgramBuildState::NeedLink { vertex, fragment } => match o {
            LinkOutcome::CreateFailed(msg) => (
                ProgramBuildState::Done,
                seq![GlRelease::Shader(vertex), GlRelease::Shader(fragment)],
                Some(Err(ProgramError::String(msg))),
            ),
            LinkOutcome::Linked(rep) => {
                if rep.linked {
                    (
                        ProgramBuildState::Done,
                        seq![GlRelease::Shader(vertex), GlRelease::Shader(fragment)],
                        Some(Ok(Program { id: rep.id })),
                    )
                } else {
                    (
                        ProgramBuildState::Done,
                        seq![
                            GlRelease::Shader(vertex),
                            GlRelease::Shader(fragment),
                            GlRelease::Program(rep.id),
                        ],
                        Some(Err(ProgramError::Linking(rep.log))),
                    )
                }
            },
        },
        _ => (s, acquired_link(o), None),
    }
}

impl ProgramBuilder {
    /// Start a build; the first request is the vertex stage.
    pub fn new() -> (b: ProgramBuilder)
        ensures
            b.state == ProgramBuildState::NeedVertex,
    {
        ProgramBuilder { state: ProgramBuildState::NeedVertex }
    }

    /// The backend call to perform next.
    pub fn request(&self) -> (r: BuildRequest)
        ensures
            r == match self.state {
                ProgramBuildState::NeedVertex => BuildRequest::CompileShader(ShaderKind::Vertex),
                ProgramBuildState::NeedFragment { .. } => BuildRequest::CompileShader(
                    ShaderKind::Fragment,
                ),
                ProgramBuildState::NeedLink { vertex, fragment } => BuildRequest::LinkProgram {
                    vertex,
                    fragment,
                },
                ProgramBuildState::Done => BuildRequest::Finished,
            },
    {
        match self.state {
            ProgramBuildState::NeedVertex => BuildRequest::CompileShader(ShaderKind::Vertex),
            ProgramBuildState::NeedFragment { .. } => BuildRequest::CompileShader(
                ShaderKind::Fragment,
            ),
            ProgramBuildState::NeedLink { vertex, fragment } => BuildRequest::LinkProgram {
                vertex,
                fragment,
            },
            ProgramBuildState::Done => BuildRequest::Finished,
        }
    }

    /// Feed one compile outcome; returns the handles to release now and the
    /// error that ends the build, if any.
    pub fn on_compile(&mut self, outcome: CompileOutcome) -> (r: (
        Vec<GlRelease>,
        Option<ProgramError>,
    ))
        ensures
            ({
                let step = spec_on_compile(old(self).state, outcome);
                &&& final(self).state == step.0
                &&& r.0@ =~= step.1
                &&& r.1 == step.2
            }),
            // conservation: what was held plus what this outcome acquired is
            // what is held now plus what is ordered released
            outstanding(old(self).state) + acquired_compile(outcome) =~= outstanding(
                final(self).state,
            ) + r.0@,
    {
        let state = self.state;
        match state {
            ProgramBuildState::NeedVertex => match outcome {
                CompileOutcome::CreateFailed(msg) => {
                    self.state = ProgramBuildState::Done;
                    (Vec::new(), Some(ProgramError::Shader(ShaderError::String(msg))))
                },
                CompileOutcome::Compiled(rep) => {
                    if rep.compiled {
                        self.state = ProgramBuildState::NeedFragment { vertex: rep.id };
                        (Vec::new(), None)
                    } else {
                        self.state = ProgramBuildState::Done;
                        let mut releases: Vec<GlRelease> = Vec::new();
                        releases.push(GlRelease::Shader(rep.id));
                        (
                            releases,
                            Some(ProgramError::Shader(ShaderError::Compilation(rep.log))),
                        )
                    }
                },
            },
            ProgramBuildState::NeedFragment { vertex } => match outcome {
                CompileOutcome::CreateFailed(msg) => {
                    self.state = ProgramBuildState::Done;
                    let mut releases: Vec<GlRelease> = Vec::new();
                    releases.push(GlRelease::Shader(vertex));
                    (releases, Some(ProgramError::Shader(ShaderError::String(msg))))
                },
                CompileOutcome::Compiled(rep) => {
                    if rep.compiled {
                        self.state = ProgramBuildState::NeedLink { vertex, fragment: rep.id };
                        (Vec::new(), None)
                    } else {
                        self.state = ProgramBuildState::Done;
                        let mut releases: Vec<GlRelease> = Vec::new();
                        releases.push(GlRelease::Shader(vertex));
                        releases.push(GlRelease::Shader(rep.id));
                        (
                            releases,
                            Some(ProgramError::Shader(ShaderError::Compilation(rep.log))),
                        )
                    }
                },
            },
            _ => match outcome {
                CompileOutcome::CreateFailed(_) => (Vec::new(), None),
                CompileOutcome::Compiled(rep) => {
                    let mut releases: Vec<GlRelease> = Vec::new();
                    releases.push(GlRelease::Shader(rep.id));
                    (releases, None)
                },
            },
        }
    }

    /// Feed the link outcome; returns the handles to release now and, when
    /// the build finished here, its result.
    pub fn on_link(&mut self, outcome: LinkOutcome) -> (r: (
        Vec<GlRelease>,
        Option<Result<Program, ProgramError>>,
    ))
        ensures
            ({
                let step = spec_on_link(old(self).state, outcome);
                &&& final(self).state == step.0
                &&& r.0@ =~= step.1
                &&& r.1 == step.2
            }),
            // conservation: every handle is either still held, released now,
            // or retained in the finished program
            outstanding(old(self).state) + acquired_link(outcome) =~= outstanding(
                final(self).state,
            ) + r.0@ + retained(r.1),
    {
        let state = self.state;
        match state {
            ProgramBuildState::NeedLink { vertex, fragment } => match outcome {
                LinkOutcome::CreateFailed(msg) => {
                    self.state = ProgramBuildState::Done;
                    let mut releases: Vec<GlRelease> = Vec::new();
                    releases.push(GlRelease::Shader(vertex));
                    releases.push(GlRelease::Shader(fragment));
                    (releases, Some(Err(ProgramError::String(msg))))
                },
                LinkOutcome::Linked(rep) => {
                    let mut releases: Vec<GlRelease> = Vec::new();
                    releases.push(GlRelease::Shader(vertex));
                    releases.push(GlRelease::Shader(fragment));
                    self.state = ProgramBuildState::Done;
                    if rep.linked {
                        (releases, Some(Ok(Program { id: rep.id })))
                    } else {
                        releases.push(GlRelease::Program(rep.id));
                        (releases, Some(Err(ProgramError::Linking(rep.log))))
                    }
                },
            },
            _ => match outcome {
                LinkOutcome::CreateFailed(_) => (Vec::new(), None),
                LinkOutcome::Linked(rep) => {
                    let mut releases: Vec<GlRelease> = Vec::new();
                    releases.push(GlRelease::Program(rep.id));
                    (releases, None)
                },
            },
        }
    }
}

/// Law: a program build never leaks a handle. Whatever the backend answers at
/// each of the three steps, the handles ordered released along the run — plus
/// the program retained on success — are exactly the handles the run acquired.
pub proof fn lemma_program_build_never_leaks(v: CompileOutcome, f: CompileOutcome, l: LinkOutcome)
    ensures
        ({
            let step1 = spec_on_compile(ProgramBuildState::NeedVertex, v);
            let step2 = spec_on_compile(step1.0, f);
            let step3 = spec_on_link(step2.0, l);
            &&& (step1.2 is Some ==> step1.1 =~= acquired_compile(v))
            &&& (step1.2 is None && step2.2 is Some ==> step1.1 + step2.1 =~= acquired_compile(v)
                + acquired_compile(f))
            &&& (step1.2 is None && step2.2 is None ==> step3.2 is Some && step1.1 + step2.1
                + step3.1 + retained(step3.2) =~= acquired_compile(v) + acquired_compile(f)
                + acquired_link(l))
        }),
{
    let step1 = spec_on_compile(ProgramBuildState::NeedVertex, v);
    let step2 = spec_on_compile(step1.0, f);
    let step3 = spec_on_link(step2.0, l);
    if step1.2 is Some {
        assert(step1.1 =~= acquired_compile(v));
    } else if step2.2 is Some {
        assert(step1.1 + step2.1 =~= acquired_compile(v) + acquired_compile(f));
    } else {
        assert(step1.1 + step2.1 + step3.1 + retained(step3.2) =~= acquired_compile(v)
            + acquired_compile(f) + acquired_link(l));
    }
}

} // verus!
