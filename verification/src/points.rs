//! The point-cloud drawable: a dynamically re-uploaded buffer with its own
//! program.
//!
//! As with the globe, construction is interactive: a runner reports each
//! backend outcome to a [`PointsBuilder`], and failures release every handle
//! acquired so far. The buffer is created
//! first, then the program, then the vertex array.

use vstd::prelude::*;

use crate::gl_wrap::{
    acquired_buffer, acquired_program, acquired_vertex_array, AttribCmd, Buffer, BufferError,
    DrawMode, GlBind, GlRelease, Program, ProgramError, UploadCmd, UsageHint, VertexArray,
    VertexArrayError,
};
use crate::globe::DrawPlan;

verus! {

/// A failure constructing the point cloud.
#[derive(PartialEq, Eq, Debug)]
pub enum PointsError {
    Program(ProgramError),
    Buffer(BufferError),
    VertexArray(VertexArrayError),
}

/// The point cloud's resources.
#[derive(Clone, Copy, PartialEq, Eq, Structural, Debug)]
pub struct Points {
    pub program: Program,
    pub buffer: Buffer,
    pub vao: VertexArray,
}

/// Where a point-cloud construction stands and which handles it holds.
#[derive(Clone, Copy, PartialEq, Eq, Structural, Debug)]
pub enum PointsBuildState {
    NeedBuffer,
    NeedProgram { buffer: u64 },
    NeedVao { buffer: u64, program: u64 },
    Done,
}

/// Builds a [`Points`] one backend outcome at a time.
#[derive(Clone, Copy, PartialEq, Eq, Structural, Debug)]
pub struct PointsBuilder {
    pub state: PointsBuildState,
}

/// The handles a point-cloud build state still holds.
pub open spec fn points_outstanding(s: PointsBuildState) -> Seq<GlRelease> {
    match s {
        PointsBuildState::NeedBuffer => Seq::empty(),
        PointsBuildState::NeedProgram { buffer } => seq![GlRelease::Buffer(buffer)],
        PointsBuildState::NeedVao { buffer, program } => seq![
            GlRelease::Buffer(buffer),
            GlRelease::Program(program),
        ],
        PointsBuildState::Done => Seq::empty(),
    }
}

impl PointsBuilder {
    /// Start a point-cloud construction; the buffer comes first.
    pub fn new() -> (b: PointsBuilder)
        ensures
            b.state == PointsBuildState::NeedBuffer,
    {
        PointsBuilder { state: PointsBuildState::NeedBuffer }
    }

    /// Feed the buffer-creation outcome.
    pub fn on_buffer(&mut self, outcome: Result<u64, String>) -> (r: Option<PointsError>)
        requires
            old(self).state == PointsBuildState::NeedBuffer,
        ensures
            match outcome {
                Ok(id) => final(self).state == (PointsBuildState::NeedProgram { buffer: id }) && r
                    is None,
                Err(msg) => final(self).state == PointsBuildState::Done && r == Some(
                    PointsError::Buffer(BufferError::String(msg)),
                ),
            },
            // conservation: the fresh buffer is now held or nothing was made
            points_outstanding(old(self).state) + acquired_buffer(outcome) =~= points_outstanding(
                final(self).state,
            ),
    {
        match outcome {
            Ok(id) => {
                self.state = PointsBuildState::NeedProgram { buffer: id };
                None
            },
            Err(msg) => {
                self.state = PointsBuildState::Done;
                Some(PointsError::Buffer(BufferError::String(msg)))
            },
        }
    }

    /// Feed the program-build result; on failure the held buffer is released.
    pub fn on_program(&mut self, result: Result<Program, ProgramError>, buffer: u64) -> (r: (
        Vec<GlRelease>,
        Option<PointsError>,
    ))
        requires
            old(self).state == (PointsBuildState::NeedProgram { buffer }),
        ensures
            match result {
                Ok(p) => final(self).state == (PointsBuildState::NeedVao { buffer, program: p.id })
                    && r.0@ =~= Seq::<GlRelease>::empty() && r.1 is None,
                Err(e) => final(self).state == PointsBuildState::Done && r.0@ =~= seq![
                    GlRelease::Buffer(buffer),
                ] && r.1 == Some(PointsError::Program(e)),
            },
            // conservation: held plus handed over is held plus released
            points_outstanding(old(self).state) + acquired_program(result) =~= points_outstanding(
                final(self).state,
            ) + r.0@,
    {
        match result {
            Ok(p) => {
                self.state = PointsBuildState::NeedVao { buffer, program: p.id };
                (Vec::new(), None)
            },
            Err(e) => {
                self.state = PointsBuildState::Done;
                let mut releases: Vec<GlRelease> = Vec::new();
                releases.push(GlRelease::Buffer(buffer));
                (releases, Some(PointsError::Program(e)))
            },
        }
    }

    /// Feed the vertex-array-creation outcome. Success finishes the drawable;
    /// failure releases the held buffer and program.
    pub fn on_vao(&mut self, outcome: Result<u64, String>, buffer: u64, program: u64) -> (r: (
        Result<Points, PointsError>,
        Vec<GlRelease>,
    ))
        requires
            old(self).state == (PointsBuildState::NeedVao { buffer, program }),
        ensures
            final(self).state == PointsBuildState::Done,
            match outcome {
                Ok(id) => r.0 == Ok::<Points, PointsError>(
                    Points {
                        program: Program { id: program },
                        buffer: Buffer { id: buffer, usage: UsageHint::Dynamic, len: 0 },
                        vao: VertexArray { id },
                    },
                ) && r.1@ =~= Seq::<GlRelease>::empty(),
                Err(msg) => r.0 == Err::<Points, PointsError>(
                    PointsError::VertexArray(VertexArrayError::String(msg)),
                ) && r.1@ =~= seq![GlRelease::Buffer(buffer), GlRelease::Program(program)],
            },
            // conservation: everything held or acquired is now released or
            // retained by the finished drawable
            points_outstanding(old(self).state) + acquired_vertex_array(outcome)
                =~= points_outstanding(final(self).state) + r.1@ + retained_points(r.0),
    {
        self.state = PointsBuildState::Done;
        match outcome {
            Ok(id) => {
                let points = Points {
                    program: Program { id: program },
                    buffer: Buffer { id: buffer, usage: UsageHint::Dynamic, len: 0 },
                    vao: VertexArray { id },
                };
                (Ok(points), Vec::new())
            },
            Err(msg) => {
                let mut releases: Vec<GlRelease> = Vec::new();
                releases.push(GlRelease::Buffer(buffer));
                releases.push(GlRelease::Program(program));
                (Err(PointsError::VertexArray(VertexArrayError::String(msg))), releases)
            },
        }
    }
}

/// The handles a finished point-cloud construction retains.
pub open spec fn retained_points(r: Result<Points, PointsError>) -> Seq<GlRelease> {
    match r {
        Ok(p) => seq![
            GlRelease::Buffer(p.buffer.id),
            GlRelease::Program(p.program.id),
            GlRelease::VertexArray(p.vao.id),
        ],
        Err(_) => Seq::empty(),
    }
}

impl Points {
    /// Prepare the point cloud for drawing: make everything current and
    /// resolve the three-component position attribute; an absent name is the
    /// `Location` failure.
    pub fn setup_gl_resources(&self, attrib_location: Option<u32>) -> (r: Result<
        (Vec<GlBind>, AttribCmd),
        PointsError,
    >)
        ensures
            match attrib_location {
                Some(loc) => r matches Ok(setup) && setup.0@ =~= seq![
                    GlBind::Program(self.program.id),
                    GlBind::Buffer(self.buffer.id),
                    GlBind::VertexArray(self.vao.id),
                ] && setup.1 == (AttribCmd { location: loc, size: 3, stride_bytes: 12, offset_bytes: 0 }),
                None => r == Err::<(Vec<GlBind>, AttribCmd), PointsError>(
                    PointsError::VertexArray(VertexArrayError::Location),
                ),
            },
    {
        match attrib_location {
            Some(loc) => {
                let mut binds: Vec<GlBind> = Vec::new();
                binds.push(self.program.bind());
                binds.push(self.buffer.bind());
                binds.push(self.vao.bind());
                Ok(
                    (
                        binds,
                        AttribCmd { location: loc, size: 3, stride_bytes: 12, offset_bytes: 0 },
                    ),
                )
            },
            None => Err(PointsError::VertexArray(VertexArrayError::Location)),
        }
    }

    /// One frame of the point cloud: re-bind everything; when new data
    /// arrived, track and order its upload first; then draw one point per
    /// three elements of the most recent upload.
    pub fn draw(&mut self, new_len: Option<usize>) -> (r: (Option<UploadCmd>, DrawPlan))
        ensures
            final(self).program == old(self).program,
            final(self).vao == old(self).vao,
            final(self).buffer.id == old(self).buffer.id,
            final(self).buffer.usage == old(self).buffer.usage,
            final(self).buffer.len == match new_len {
                Some(n) => n,
                None => old(self).buffer.len,
            },
            r.0 == match new_len {
                Some(n) => Some(
                    UploadCmd { buffer: old(self).buffer.id, len: n, usage: old(self).buffer.usage },
                ),
                None => None::<UploadCmd>,
            },
            r.1.bind_program == GlBind::Program(old(self).program.id),
            r.1.bind_buffer == GlBind::Buffer(old(self).buffer.id),
            r.1.bind_vao == GlBind::VertexArray(old(self).vao.id),
            r.1.mode == DrawMode::Points,
            r.1.count == final(self).buffer.len as int / 3,
    {
        let upload = match new_len {
            Some(n) => {
                let (_, cmd) = self.buffer.set_data(n);
                Some(cmd)
            },
            None => None,
        };
        let plan = DrawPlan {
            bind_program: self.program.bind(),
            bind_buffer: self.buffer.bind(),
            bind_vao: self.vao.bind(),
            mode: DrawMode::Points,
            count: self.buffer.len / 3,
        };
        (upload, plan)
    }

    /// Teardown: release all three owned handles, each exactly once.
    pub fn release(&self) -> (r: Vec<GlRelease>)
        ensures
            r@ =~= seq![
                GlRelease::Program(self.program.id),
                GlRelease::Buffer(self.buffer.id),
                GlRelease::VertexArray(self.vao.id),
            ],
    {
        let mut releases: Vec<GlRelease> = Vec::new();
        releases.push(self.program.release());
        releases.push(self.buffer.release());
        releases.push(self.vao.release());
        releases
    }
}

} // verus!
