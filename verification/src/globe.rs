//! The globe drawable: an icosphere mesh with its program, buffer and vertex
//! layout.
//!
//! Construction is interactive — a runner performs the backend calls and
//! reports each outcome to a [`GlobeBuilder`] — and any failure along the way
//! releases every handle acquired so far before the error propagates.

use vstd::prelude::*;

use crate::fixed::SCALE;
use crate::gl_wrap::{
    acquired_buffer, acquired_program, acquired_vertex_array, AttribCmd, Buffer, BufferError,
    DrawMode, GlBind, GlRelease, Program, ProgramError, UploadCmd, UsageHint, VertexArray,
    VertexArrayError,
};
use crate::icosphere::{flat_buffer, get_icosphere, mesh_after, pow4};

verus! {

/// Subdivision depth of the globe mesh.
pub const GLOBE_SUBDIVISIONS: usize = 4;

/// A backend call a construction plan orders.
#[derive(Clone, Copy, PartialEq, Eq, Structural, Debug)]
pub enum GlCmd {
    Bind(GlBind),
    Upload(UploadCmd),
    Attrib(AttribCmd),
}

/// One draw call: what to bind, the topology, and the vertex count.
#[derive(Clone, Copy, PartialEq, Eq, Structural, Debug)]
pub struct DrawPlan {
    pub bind_program: GlBind,
    pub bind_buffer: GlBind,
    pub bind_vao: GlBind,
    pub mode: DrawMode,
    pub count: usize,
}

/// A failure constructing the globe.
#[derive(PartialEq, Eq, Debug)]
pub enum GlobeError {
    Program(ProgramError),
    Buffer(BufferError),
    VertexArray(VertexArrayError),
}

/// The globe's resources and its generated mesh buffer.
#[derive(PartialEq, Eq, Debug)]
pub struct Globe {
    pub data: Vec<i64>,
    pub program: Program,
    pub buffer: Buffer,
    pub vao: VertexArray,
}

/// Where a globe construction stands and which handles it holds meanwhile.
#[derive(Clone, Copy, PartialEq, Eq, Structural, Debug)]
pub enum GlobeBuildState {
    NeedProgram,
    NeedBuffer { program: u64 },
    NeedVao { program: u64, buffer: u64 },
    NeedAttrib { program: u64, buffer: u64, vao: u64 },
    Done,
}

/// Builds a [`Globe`] one backend outcome at a time: take the linked program,
/// create the buffer, create the vertex array, resolve the position
/// attribute. Any failure releases all handles held so far.
#[derive(Clone, Copy, PartialEq, Eq, Structural, Debug)]
pub struct GlobeBuilder {
    pub state: GlobeBuildState,
}

/// The handles a globe build state still holds.
pub open spec fn globe_outstanding(s: GlobeBuildState) -> Seq<GlRelease> {
    match s {
        GlobeBuildState::NeedProgram => Seq::empty(),
        GlobeBuildState::NeedBuffer { program } => seq![GlRelease::Program(program)],
        GlobeBuildState::NeedVao { program, buffer } => seq![
            GlRelease::Program(program),
            GlRelease::Buffer(buffer),
        ],
        GlobeBuildState::NeedAttrib { program, buffer, vao } => seq![
            GlRelease::Program(program),
            GlRelease::Buffer(buffer),
            GlRelease::VertexArray(vao),
        ],
        GlobeBuildState::Done => Seq::empty(),
    }
}

impl GlobeBuilder {
    /// Start a globe construction; the program comes first.
    pub fn new() -> (b: GlobeBuilder)
        ensures
            b.state == GlobeBuildState::NeedProgram,
    {
        GlobeBuilder { state: GlobeBuildState::NeedProgram }
    }

    /// Feed the program-build result.
    pub fn on_program(&mut self, result: Result<Program, ProgramError>) -> (r: Option<GlobeError>)
        requires
            old(self).state == GlobeBuildState::NeedProgram,
        ensures
            match result {
                Ok(p) => final(self).state == (GlobeBuildState::NeedBuffer { program: p.id })
                    && r is None,
                Err(e) => final(self).state == GlobeBuildState::Done && r == Some(
                    GlobeError::Program(e),
                ),
            },
            // conservation: the handed-over program is now held or nothing was
            globe_outstanding(old(self).state) + acquired_program(result) =~= globe_outstanding(
                final(self).state,
            ),
    {
        match result {
            Ok(p) => {
                self.state = GlobeBuildState::NeedBuffer { program: p.id };
                None
            },
            Err(e) => {
                self.state = GlobeBuildState::Done;
                Some(GlobeError::Program(e))
            },
        }
    }

    /// Feed the buffer-creation outcome; on failure the held program is
    /// released.
    pub fn on_buffer(&mut self, outcome: Result<u64, String>, program: u64) -> (r: (
        Vec<GlRelease>,
        Option<GlobeError>,
    ))
        requires
            old(self).state == (GlobeBuildState::NeedBuffer { program }),
        ensures
            match outcome {
                Ok(id) => final(self).state == (GlobeBuildState::NeedVao { program, buffer: id })
                    && r.0@ =~= Seq::<GlRelease>::empty() && r.1 is None,
                Err(msg) => final(self).state == GlobeBuildState::Done && r.0@ =~= seq![
                    GlRelease::Program(program),
                ] && r.1 == Some(GlobeError::Buffer(BufferError::String(msg))),
            },
            // conservation: held plus acquired is held plus released
            globe_outstanding(old(self).state) + acquired_buffer(outcome) =~= globe_outstanding(
                final(self).state,
            ) + r.0@,
    {
        match outcome {
            Ok(id) => {
                self.state = GlobeBuildState::NeedVao { program, buffer: id };
                (Vec::new(), None)
            },
            Err(msg) => {
                self.state = GlobeBuildState::Done;
                let mut releases: Vec<GlRelease> = Vec::new();
                releases.push(GlRelease::Program(program));
                (releases, Some(GlobeError::Buffer(BufferError::String(msg))))
            },
        }
    }

    /// Feed the vertex-array-creation outcome; on failure the held program
    /// and buffer are released.
    pub fn on_vao(&mut self, outcome: Result<u64, String>, program: u64, buffer: u64) -> (r: (
        Vec<GlRelease>,
        Option<GlobeError>,
    ))
        requires
            old(self).state == (GlobeBuildState::NeedVao { program, buffer }),
        ensures
            match outcome {
                Ok(id) => final(self).state == (GlobeBuildState::NeedAttrib {
                    program,
                    buffer,
                    vao: id,
                }) && r.0@ =~= Seq::<GlRelease>::empty() && r.1 is None,
                Err(msg) => final(self).state == GlobeBuildState::Done && r.0@ =~= seq![
                    GlRelease::Program(program),
                    GlRelease::Buffer(buffer),
                ] && r.1 == Some(GlobeError::VertexArray(VertexArrayError::String(msg))),
            },
            // conservation: held plus acquired is held plus released
            globe_outstanding(old(self).state) + acquired_vertex_array(outcome)
                =~= globe_outstanding(final(self).state) + r.0@,
    {
        match outcome {
            Ok(id) => {
                self.state = GlobeBuildState::NeedAttrib { program, buffer, vao: id };
                (Vec::new(), None)
            },
            Err(msg) => {
                self.state = GlobeBuildState::Done;
                let mut releases: Vec<GlRelease> = Vec::new();
                releases.push(GlRelease::Program(program));
                releases.push(GlRelease::Buffer(buffer));
                (releases, Some(GlobeError::VertexArray(VertexArrayError::String(msg))))
            },
        }
    }

    /// Feed the position-attribute lookup. A resolved location finishes the
    /// globe; an absent name releases all three held handles.
    pub fn on_attrib(&mut self, location: Option<u32>, program: u64, buffer: u64, vao: u64) -> (r: (
        Result<(Globe, Vec<GlCmd>), GlobeError>,
        Vec<GlRelease>,
    ))
        requires
            old(self).state == (GlobeBuildState::NeedAttrib { program, buffer, vao }),
        ensures
            final(self).state == GlobeBuildState::Done,
            match location {
                Some(_) => r.0 is Ok && r.1@ =~= Seq::<GlRelease>::empty(),
                None => r.0 == Err::<(Globe, Vec<GlCmd>), GlobeError>(
                    GlobeError::VertexArray(VertexArrayError::Location),
                ) && r.1@ =~= seq![
                    GlRelease::Program(program),
                    GlRelease::Buffer(buffer),
                    GlRelease::VertexArray(vao),
                ],
            },
            match (location, r.0) {
                (Some(loc), Ok(g)) => globe_assembled(g.0, program, buffer, vao) && g.1@
                    =~= globe_setup_cmds(g.0, loc),
                (None, Err(_)) => true,
                _ => false,
            },
            // conservation: everything held is now released or retained by
            // the finished globe
            globe_outstanding(old(self).state) =~= globe_outstanding(final(self).state) + r.1@
                + retained_globe(r.0),
    {
        self.state = GlobeBuildState::Done;
        match location {
            Some(loc) => {
                let r = Globe::new(
                    Program { id: program },
                    Buffer { id: buffer, usage: UsageHint::Static, len: 0 },
                    VertexArray { id: vao },
                    loc,
                );
                (Ok(r), Vec::new())
            },
            None => {
                let mut releases: Vec<GlRelease> = Vec::new();
                releases.push(GlRelease::Program(program));
                releases.push(GlRelease::Buffer(buffer));
                releases.push(GlRelease::VertexArray(vao));
                (Err(GlobeError::VertexArray(VertexArrayError::Location)), releases)
            },
        }
    }
}

/// The handles a finished globe construction retains.
pub open spec fn retained_globe(r: Result<(Globe, Vec<GlCmd>), GlobeError>) -> Seq<GlRelease> {
    match r {
        Ok(g) => seq![
            GlRelease::Program(g.0.program.id),
            GlRelease::Buffer(g.0.buffer.id),
            GlRelease::VertexArray(g.0.vao.id),
        ],
        Err(_) => Seq::empty(),
    }
}

/// `g` owns exactly the given handles and carries the generated mesh, with
/// the buffer tracking the mesh length.
pub open spec fn globe_assembled(g: Globe, program: u64, buffer: u64, vao: u64) -> bool {
    &&& g.program.id == program
    &&& g.buffer.id == buffer
    &&& g.buffer.usage == UsageHint::Static
    &&& g.vao.id == vao
    &&& g.data@ == flat_buffer(
        mesh_after(GLOBE_SUBDIVISIONS as nat).0,
        mesh_after(GLOBE_SUBDIVISIONS as nat).1,
    )
    &&& g.buffer.len == g.data@.len()
}

/// The setup a fresh globe orders: upload the mesh, make everything current,
/// and configure the three-component position attribute.
pub open spec fn globe_setup_cmds(g: Globe, location: u32) -> Seq<GlCmd> {
    seq![
        GlCmd::Bind(GlBind::Buffer(g.buffer.id)),
        GlCmd::Upload(UploadCmd { buffer: g.buffer.id, len: g.buffer.len, usage: UsageHint::Static }),
        GlCmd::Bind(GlBind::Program(g.program.id)),
        GlCmd::Bind(GlBind::Buffer(g.buffer.id)),
        GlCmd::Bind(GlBind::VertexArray(g.vao.id)),
        GlCmd::Attrib(AttribCmd { location, size: 3, stride_bytes: 12, offset_bytes: 0 }),
    ]
}

impl Globe {
    /// Assemble the globe from its owned resources: generate the mesh once,
    /// track its size in the buffer, and order upload, binds, and the
    /// position attribute.
    pub fn new(program: Program, buffer: Buffer, vao: VertexArray, attrib_location: u32) -> (r: (
        Globe,
        Vec<GlCmd>,
    ))
        requires
            buffer.usage == UsageHint::Static,
        ensures
            globe_assembled(r.0, program.id, buffer.id, vao.id),
            r.1@ =~= globe_setup_cmds(r.0, attrib_location),
    {
        proof {
            assert(pow4(0) == 1);
            assert(pow4(1) == 4);
            assert(pow4(2) == 16);
            assert(pow4(3) == 64);
            assert(pow4(4) == 256);
        }
        let data = get_icosphere(GLOBE_SUBDIVISIONS);
        let mut buffer = buffer;
        let (bind_for_upload, upload) = buffer.set_data(data.len());
        let mut cmds: Vec<GlCmd> = Vec::new();
        cmds.push(GlCmd::Bind(bind_for_upload));
        cmds.push(GlCmd::Upload(upload));
        cmds.push(GlCmd::Bind(program.bind()));
        cmds.push(GlCmd::Bind(buffer.bind()));
        cmds.push(GlCmd::Bind(vao.bind()));
        cmds.push(
            GlCmd::Attrib(
                AttribCmd {
                    location: attrib_location,
                    size: 3,
                    stride_bytes: 12,
                    offset_bytes: 0,
                },
            ),
        );
        let globe = Globe { data, program, buffer, vao };
        (globe, cmds)
    }

    /// One frame of the globe: re-bind its program, buffer and layout and
    /// draw one vertex per three buffer elements, as triangles.
    pub fn draw(&self) -> (plan: DrawPlan)
        ensures
            plan.bind_program == GlBind::Program(self.program.id),
            plan.bind_buffer == GlBind::Buffer(self.buffer.id),
            plan.bind_vao == GlBind::VertexArray(self.vao.id),
            plan.mode == DrawMode::Triangles,
            plan.count == self.buffer.len as int / 3,
    {
        DrawPlan {
            bind_program: self.program.bind(),
            bind_buffer: self.buffer.bind(),
            bind_vao: self.vao.bind(),
            mode: DrawMode::Triangles,
            count: self.buffer.len / 3,
        }
    }

    /// Teardown: release all three owned handles, each exactly once.
    pub fn release(&self) -> (r: Vec<GlRelease>)
        ensures
            r@ =~= seq![
                GlRelease::Program(self.program.id),
                GlRelease::Buffer(self.buffer.id),
                GlRelease::VertexArray(self.vao.id),
            ],
    {
        let mut releases: Vec<GlRelease> = Vec::new();
        releases.push(self.program.release());
        releases.push(self.buffer.release());
        releases.push(self.vao.release());
        releases
    }
}

} // verus!
