//! Resource lifecycle and interaction control, driven by a counting stand-in
//! for the graphics backend.

use globe_vis::fixed::SCALE;
use globe_vis::gl_wrap::{
    AttribCmd, Buffer, BuildRequest, CompileOutcome, CompileReport, GlRelease, LinkOutcome,
    LinkReport, Program, ProgramBuilder, ProgramError, Shader, ShaderError, ShaderKind,
    UniformMatrix, UniformMatrixError, UsageHint, VertexArray, VertexArrayError,
};
use globe_vis::globe::{DrawPlan, Globe, GlobeBuilder, GlobeError};
use globe_vis::matrix::Mat4;
use globe_vis::mouse::{MouseButton, MouseState, RotateCmd};
use globe_vis::points::{Points, PointsBuilder};
use globe_vis::vis::{MvpMatrices, VisGl};

/// A stand-in backend that issues handles and counts create/delete pairs.
struct CountingContext {
    next_id: u64,
    created: Vec<u64>,
    deleted: Vec<u64>,
}

impl CountingContext {
    fn new() -> CountingContext {
        CountingContext { next_id: 1, created: Vec::new(), deleted: Vec::new() }
    }

    fn create(&mut self) -> u64 {
        let id = self.next_id;
        self.next_id += 1;
        self.created.push(id);
        id
    }

    fn delete(&mut self, release: GlRelease) {
        let id = match release {
            GlRelease::Shader(id) => id,
            GlRelease::Program(id) => id,
            GlRelease::Buffer(id) => id,
            GlRelease::VertexArray(id) => id,
        };
        assert!(self.created.contains(&id), "released a handle never created");
        assert!(!self.deleted.contains(&id), "released a handle twice");
        self.deleted.push(id);
    }

    fn delete_all(&mut self, releases: Vec<GlRelease>) {
        for r in releases {
            self.delete(r);
        }
    }

    fn leaked(&self) -> Vec<u64> {
        self.created.iter().cloned().filter(|id| !self.deleted.contains(id)).collect()
    }
}

#[test]
fn compiling_invalid_source_reports_the_log() {
    let id = 7;
    let (result, releases) = Shader::new(CompileReport {
        id,
        compiled: false,
        log: String::from("0:1: syntax error"),
    });
    match result {
        Err(ShaderError::Compilation(log)) => assert!(!log.is_empty()),
        _ => panic!("expected a compilation error"),
    }
    assert_eq!(releases, vec![GlRelease::Shader(id)]);
}

#[test]
fn compiling_valid_source_yields_the_handle() {
    let (result, releases) = Shader::new(CompileReport {
        id: 9,
        compiled: true,
        log: String::new(),
    });
    let shader = result.unwrap();
    assert_eq!(shader.id, 9);
    assert_eq!(shader.release(), GlRelease::Shader(9));
    assert!(releases.is_empty());
}

#[test]
fn linking_failure_reports_the_log_and_releases_the_program() {
    let (result, releases) = Program::new(LinkReport {
        id: 4,
        linked: false,
        log: String::from("unresolved varying"),
    });
    match result {
        Err(ProgramError::Linking(log)) => assert_eq!(log, "unresolved varying"),
        _ => panic!("expected a linking error"),
    }
    assert_eq!(releases, vec![GlRelease::Program(4)]);
}

#[test]
fn program_build_success_releases_both_stages() {
    let mut ctx = CountingContext::new();
    let mut builder = ProgramBuilder::new();
    assert_eq!(builder.request(), BuildRequest::CompileShader(ShaderKind::Vertex));

    let vs = ctx.create();
    let (releases, err) = builder.on_compile(CompileOutcome::Compiled(CompileReport {
        id: vs,
        compiled: true,
        log: String::new(),
    }));
    ctx.delete_all(releases);
    assert!(err.is_none());
    assert_eq!(builder.request(), BuildRequest::CompileShader(ShaderKind::Fragment));

    let fs = ctx.create();
    let (releases, err) = builder.on_compile(CompileOutcome::Compiled(CompileReport {
        id: fs,
        compiled: true,
        log: String::new(),
    }));
    ctx.delete_all(releases);
    assert!(err.is_none());
    assert_eq!(builder.request(), BuildRequest::LinkProgram { vertex: vs, fragment: fs });

    let pid = ctx.create();
    let (releases, result) = builder.on_link(LinkOutcome::Linked(LinkReport {
        id: pid,
        linked: true,
        log: String::new(),
    }));
    ctx.delete_all(releases);
    let program = result.unwrap().unwrap();
    assert_eq!(program.id, pid);
    assert_eq!(builder.request(), BuildRequest::Finished);

    // the stages are gone; only the linked program is still alive
    assert_eq!(ctx.leaked(), vec![pid]);
    ctx.delete(program.release());
    assert!(ctx.leaked().is_empty());
}

#[test]
fn program_build_fragment_failure_releases_the_vertex_stage() {
    let mut ctx = CountingContext::new();
    let mut builder = ProgramBuilder::new();

    let vs = ctx.create();
    let (releases, err) = builder.on_compile(CompileOutcome::Compiled(CompileReport {
        id: vs,
        compiled: true,
        log: String::new(),
    }));
    ctx.delete_all(releases);
    assert!(err.is_none());

    let fs = ctx.create();
    let (releases, err) = builder.on_compile(CompileOutcome::Compiled(CompileReport {
        id: fs,
        compiled: false,
        log: String::from("bad fragment"),
    }));
    ctx.delete_all(releases);
    match err {
        Some(ProgramError::Shader(ShaderError::Compilation(log))) => {
            assert_eq!(log, "bad fragment")
        }
        _ => panic!("expected the stage failure"),
    }
    assert!(ctx.leaked().is_empty());
}

#[test]
fn program_build_link_failure_releases_everything() {
    let mut ctx = CountingContext::new();
    let mut builder = ProgramBuilder::new();

    let vs = ctx.create();
    let (releases, _) = builder.on_compile(CompileOutcome::Compiled(CompileReport {
        id: vs,
        compiled: true,
        log: String::new(),
    }));
    ctx.delete_all(releases);
    let fs = ctx.create();
    let (releases, _) = builder.on_compile(CompileOutcome::Compiled(CompileReport {
        id: fs,
        compiled: true,
        log: String::new(),
    }));
    ctx.delete_all(releases);
    let pid = ctx.create();
    let (releases, result) = builder.on_link(LinkOutcome::Linked(LinkReport {
        id: pid,
        linked: false,
        log: String::from("link failed"),
    }));
    ctx.delete_all(releases);
    match result {
        Some(Err(ProgramError::Linking(log))) => assert_eq!(log, "link failed"),
        _ => panic!("expected the link failure"),
    }
    assert!(ctx.leaked().is_empty());
}

#[test]
fn globe_build_failure_midway_releases_acquired_handles() {
    let mut ctx = CountingContext::new();
    let mut builder = GlobeBuilder::new();

    let pid = ctx.create();
    let err = builder.on_program(Ok(Program { id: pid }));
    assert!(err.is_none());

    let bid = ctx.create();
    let (releases, err) = builder.on_buffer(Ok(bid), pid);
    ctx.delete_all(releases);
    assert!(err.is_none());

    // vertex-array creation fails: the program and buffer must come back
    let (releases, err) = builder.on_vao(Err(String::from("out of memory")), pid, bid);
    ctx.delete_all(releases);
    match err {
        Some(GlobeError::VertexArray(VertexArrayError::String(msg))) => {
            assert_eq!(msg, "out of memory")
        }
        _ => panic!("expected the creation failure"),
    }
    assert!(ctx.leaked().is_empty());
}

#[test]
fn globe_build_missing_attribute_releases_everything() {
    let mut ctx = CountingContext::new();
    let mut builder = GlobeBuilder::new();

    let pid = ctx.create();
    builder.on_program(Ok(Program { id: pid }));
    let bid = ctx.create();
    let (releases, _) = builder.on_buffer(Ok(bid), pid);
    ctx.delete_all(releases);
    let vid = ctx.create();
    let (releases, _) = builder.on_vao(Ok(vid), pid, bid);
    ctx.delete_all(releases);

    let (result, releases) = builder.on_attrib(None, pid, bid, vid);
    ctx.delete_all(releases);
    match result {
        Err(GlobeError::VertexArray(VertexArrayError::Location)) => {}
        _ => panic!("expected the location failure"),
    }
    assert!(ctx.leaked().is_empty());
}

#[test]
fn globe_build_success_then_teardown_releases_everything() {
    let mut ctx = CountingContext::new();
    let mut builder = GlobeBuilder::new();

    let pid = ctx.create();
    builder.on_program(Ok(Program { id: pid }));
    let bid = ctx.create();
    let (releases, _) = builder.on_buffer(Ok(bid), pid);
    ctx.delete_all(releases);
    let vid = ctx.create();
    let (releases, _) = builder.on_vao(Ok(vid), pid, bid);
    ctx.delete_all(releases);
    let (result, releases) = builder.on_attrib(Some(0), pid, bid, vid);
    ctx.delete_all(releases);
    let (globe, _setup) = result.unwrap();

    // the globe mesh was generated and its length tracked for draws
    assert_eq!(globe.data.len(), 9 * 20 * 256);
    assert_eq!(globe.buffer.len, globe.data.len());
    let plan: DrawPlan = globe.draw();
    assert_eq!(plan.count, globe.data.len() / 3);

    ctx.delete_all(globe.release());
    assert!(ctx.leaked().is_empty());
}

#[test]
fn points_build_program_failure_releases_the_buffer() {
    let mut ctx = CountingContext::new();
    let mut builder = PointsBuilder::new();

    let bid = ctx.create();
    let err = builder.on_buffer(Ok(bid));
    assert!(err.is_none());

    let (releases, err) = builder.on_program(
        Err(ProgramError::Linking(String::from("link failed"))),
        bid,
    );
    ctx.delete_all(releases);
    assert!(err.is_some());
    assert!(ctx.leaked().is_empty());
}

#[test]
fn points_draw_tracks_the_most_recent_upload() {
    let mut points = Points {
        program: Program { id: 1 },
        buffer: Buffer { id: 2, usage: UsageHint::Dynamic, len: 0 },
        vao: VertexArray { id: 3 },
    };
    let (upload, plan) = points.draw(Some(9));
    assert_eq!(upload.unwrap().len, 9);
    assert_eq!(plan.count, 3);
    // without new data, the old count stands
    let (upload, plan) = points.draw(None);
    assert!(upload.is_none());
    assert_eq!(plan.count, 3);
}

#[test]
fn attribute_strides_convert_to_bytes() {
    let cmd = VertexArray::set_attrib(Some(5), 3, 3, 1).unwrap();
    assert_eq!(
        cmd,
        AttribCmd { location: 5, size: 3, stride_bytes: 12, offset_bytes: 4 }
    );
    assert_eq!(
        VertexArray::set_attrib(None, 3, 3, 0),
        Err(VertexArrayError::Location)
    );
}

#[test]
fn missing_uniform_is_a_location_error() {
    let r = UniformMatrix::new(None, String::from("viewMatrix"), Mat4::identity());
    assert_eq!(r.unwrap_err(), UniformMatrixError::Location);
}

fn test_scene() -> VisGl {
    let (globe, _setup) = Globe::new(
        Program { id: 1 },
        Buffer { id: 2, usage: UsageHint::Static, len: 0 },
        VertexArray { id: 3 },
        0,
    );
    let points = Points {
        program: Program { id: 4 },
        buffer: Buffer { id: 5, usage: UsageHint::Dynamic, len: 0 },
        vao: VertexArray { id: 6 },
    };
    let mvp = MvpMatrices::new_default(
        Mat4::identity(),
        Mat4::identity(),
        Some(10),
        Some(11),
        Some(12),
    )
    .unwrap();
    VisGl::new(globe, points, mvp)
}

#[test]
fn drag_rotates_on_every_move_until_release() {
    let mut vis = test_scene();

    // a move before the drag only tracks the position
    assert_eq!(vis.mouse_move(100 * SCALE, 50 * SCALE), None);

    vis.mouse_input(MouseButton::Left, true);
    let first = vis.mouse_move(110 * SCALE, 55 * SCALE);
    let second = vis.mouse_move(120 * SCALE, 60 * SCALE);
    vis.mouse_input(MouseButton::Left, false);
    let after_release = vis.mouse_move(130 * SCALE, 65 * SCALE);

    // both dragged moves rotate, each from its own (+10, +5) travel
    let expected = RotateCmd { x_angle: SCALE / 4, y_angle: SCALE / 2 };
    assert_eq!(first, Some(expected));
    assert_eq!(second, Some(expected));
    assert_ne!(first.unwrap().x_angle, 0);
    // after the release, moves no longer rotate
    assert_eq!(after_release, None);
    assert_eq!(vis.mouse, MouseState { x: 130 * SCALE, y: 65 * SCALE, dragging: false });
}

#[test]
fn other_buttons_leave_the_drag_flag_alone() {
    let mut vis = test_scene();
    vis.mouse_input(MouseButton::Right, true);
    assert!(!vis.mouse.dragging);
    vis.mouse_input(MouseButton::Left, true);
    vis.mouse_input(MouseButton::Other, false);
    assert!(vis.mouse.dragging);
}

#[test]
fn wheel_zooms_the_view_and_pushes_it_everywhere() {
    let mut vis = test_scene();
    let slots = vis.mouse_wheel(10 * SCALE);
    // one push per program sharing the uniform name
    assert_eq!(slots.len(), 2);
    assert!(slots.iter().all(|s| s.location == 11));
    // the view scaled by 1 + 10 * 0.03
    let expected = 13 * SCALE / 10;
    assert_eq!(vis.mvp.view.data.m[0], expected);
    assert_eq!(vis.mvp.view.data.m[15], SCALE);
}

#[test]
fn model_updates_are_pushed_to_every_program() {
    let mut vis = test_scene();
    let slots = vis.apply_model(Mat4::uniform_scale(2 * SCALE));
    assert_eq!(slots.len(), 2);
    assert!(slots.iter().all(|s| s.location == 12));
    assert_eq!(vis.mvp.model.data.m[0], 2 * SCALE);
    let setup = vis.setup_gl();
    assert_eq!(setup.len(), 6);
}

#[test]
fn buffer_creation_failure_is_reported() {
    let r = Buffer::new(Err(String::from("no buffer")), UsageHint::Static);
    match r {
        Err(globe_vis::gl_wrap::BufferError::String(msg)) => assert_eq!(msg, "no buffer"),
        _ => panic!("expected the creation failure"),
    }
}

#[test]
fn backend_messages_wrap_into_error_variants() {
    assert_eq!(
        ShaderError::from(String::from("create failed")),
        ShaderError::String(String::from("create failed"))
    );
    assert_eq!(
        ProgramError::from(String::from("create failed")),
        ProgramError::String(String::from("create failed"))
    );
    assert_eq!(
        ProgramError::from(ShaderError::Compilation(String::from("bad"))),
        ProgramError::Shader(ShaderError::Compilation(String::from("bad")))
    );
}
