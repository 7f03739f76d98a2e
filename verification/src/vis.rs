//! Scene assembly and interaction control.
//!
//! [`VisGl`] owns the two drawables, the three camera matrices and the
//! pointer state, and turns input events into exact state updates and uniform
//! pushes. The host event loop delivers pointer and scroll events and performs
//! the backend calls the plans order; it decides nothing itself.

use vstd::prelude::*;

use crate::gl_wrap::{UniformMatrix, UniformMatrixError, UniformSlot};
use crate::globe::{Globe, GlobeError};
use crate::matrix::{mat_bounded, mat_wf, spec_identity, Mat4, MAT_ENTRY_ABS_MAX,
    MAT_PRODUCT_ABS_MAX};
use crate::mouse::{
    mouse_pos_ok, rotation_angles, spec_rotation_angle, spec_zoom, zoom_from_scroll, MouseButton,
    MouseState, RotateCmd, POS_ABS_MAX, SCROLL_DELTA_ABS_MAX,
};
use crate::points::{Points, PointsError};

verus! {

/// Default window dimension (500 logical units), used when the builder was
/// given none.
pub const DEFAULT_DIMENSION: i64 = 500 * crate::fixed::SCALE;

/// A failure assembling the camera matrices.
#[derive(PartialEq, Eq, Debug)]
pub enum MvpError {
    UniformMatrix(UniformMatrixError),
}

/// A failure assembling the scene.
#[derive(PartialEq, Eq, Debug)]
pub enum VisGlError {
    Globe(GlobeError),
    Points(PointsError),
    Mvp(MvpError),
    UniformMatrix(UniformMatrixError),
}

impl From<GlobeError> for VisGlError {
    /// A globe construction failure, carried upward.
    fn from(e: GlobeError) -> (r: VisGlError) {
        VisGlError::Globe(e)
    }
}

impl vstd::std_specs::convert::FromSpecImpl<GlobeError> for VisGlError {
    open spec fn obeys_from_spec() -> bool {
        true
    }

    open spec fn from_spec(e: GlobeError) -> VisGlError {
        VisGlError::Globe(e)
    }
}

impl From<PointsError> for VisGlError {
    /// A point-cloud construction failure, carried upward.
    fn from(e: PointsError) -> (r: VisGlError) {
        VisGlError::Points(e)
    }
}

impl vstd::std_specs::convert::FromSpecImpl<PointsError> for VisGlError {
    open spec fn obeys_from_spec() -> bool {
        true
    }

    open spec fn from_spec(e: PointsError) -> VisGlError {
        VisGlError::Points(e)
    }
}

impl From<MvpError> for VisGlError {
    /// A camera-matrix failure, carried upward.
    fn from(e: MvpError) -> (r: VisGlError) {
        VisGlError::Mvp(e)
    }
}

impl vstd::std_specs::convert::FromSpecImpl<MvpError> for VisGlError {
    open spec fn obeys_from_spec() -> bool {
        true
    }

    open spec fn from_spec(e: MvpError) -> VisGlError {
        VisGlError::Mvp(e)
    }
}

impl From<UniformMatrixError> for MvpError {
    /// A uniform lookup failure, carried upward.
    fn from(e: UniformMatrixError) -> (r: MvpError) {
        MvpError::UniformMatrix(e)
    }
}

impl vstd::std_specs::convert::FromSpecImpl<UniformMatrixError> for MvpError {
    open spec fn obeys_from_spec() -> bool {
        true
    }

    open spec fn from_spec(e: UniformMatrixError) -> MvpError {
        MvpError::UniformMatrix(e)
    }
}

/// The push of one uniform location into each program of a list.
pub open spec fn uniform_slots(location: u64, programs: Seq<u64>) -> Seq<UniformSlot> {
    Seq::new(programs.len(), |i: int| UniformSlot { program: programs[i], location })
}

/// The three camera matrices, one instance shared by all programs: a fixed
/// projection, a view the scroll zoom mutates, and a model the drag rotation
/// mutates.
#[derive(PartialEq, Eq, Debug)]
pub struct MvpMatrices {
    pub proj: UniformMatrix,
    pub view: UniformMatrix,
    pub model: UniformMatrix,
}

impl MvpMatrices {
    /// Assemble the three uniform slots from their resolved locations, with
    /// the given projection and view and the identity as the initial model.
    /// Any unresolved name is the `Location` failure.
    pub fn new_default(
        proj: Mat4,
        view: Mat4,
        proj_location: Option<u64>,
        view_location: Option<u64>,
        model_location: Option<u64>,
    ) -> (r: Result<MvpMatrices, MvpError>)
        ensures
            (proj_location is Some && view_location is Some && model_location is Some) <==> r is Ok,
            r matches Ok(m) ==> {
                &&& m.proj.location == proj_location.unwrap()
                &&& m.proj.data.m@ == proj.m@
                &&& m.view.location == view_location.unwrap()
                &&& m.view.data.m@ == view.m@
                &&& m.model.location == model_location.unwrap()
                &&& m.model.data.m@ == spec_identity()
            },
            r is Err ==> r == Err::<MvpMatrices, MvpError>(
                MvpError::UniformMatrix(UniformMatrixError::Location),
            ),
    {
        let proj_slot = match UniformMatrix::new(proj_location, "projMatrix".to_owned(), proj) {
            Ok(u) => u,
            Err(_) => {
                return Err(MvpError::UniformMatrix(UniformMatrixError::Location));
            },
        };
        let view_slot = match UniformMatrix::new(view_location, "viewMatrix".to_owned(), view) {
            Ok(u) => u,
            Err(_) => {
                return Err(MvpError::UniformMatrix(UniformMatrixError::Location));
            },
        };
        let model_slot = match UniformMatrix::new(
            model_location,
            "modelMatrix".to_owned(),
            Mat4::identity(),
        ) {
            Ok(u) => u,
            Err(_) => {
                return Err(MvpError::UniformMatrix(UniformMatrixError::Location));
            },
        };
        Ok(MvpMatrices { proj: proj_slot, view: view_slot, model: model_slot })
    }

    /// Order all three matrices pushed into every program of the list.
    pub fn apply(&self, programs: &Vec<u64>) -> (slots: Vec<UniformSlot>)
        ensures
            slots@ =~= uniform_slots(self.proj.location, programs@) + uniform_slots(
                self.view.location,
                programs@,
            ) + uniform_slots(self.model.location, programs@),
    {
        let mut slots = self.proj.apply(programs);
        let mut view_slots = self.view.apply(programs);
        let mut model_slots = self.model.apply(programs);
        slots.append(&mut view_slots);
        slots.append(&mut model_slots);
        slots
    }
}

/// The pointer state after a move event: the position always tracks the
/// pointer, dragging or not, so a drag started mid-motion sees no spurious
/// first delta.
pub open spec fn spec_move_state(s: MouseState, x: i64, y: i64) -> MouseState {
    MouseState { x, y, dragging: s.dragging }
}

/// The rotation a move event asks for: only while dragging, and exactly from
/// the travel since the previous event.
pub open spec fn spec_move_cmd(s: MouseState, x: i64, y: i64) -> Option<RotateCmd> {
    if s.dragging {
        Some(
            RotateCmd {
                x_angle: spec_rotation_angle(y - s.y) as i64,
                y_angle: spec_rotation_angle(x - s.x) as i64,
            },
        )
    } else {
        None
    }
}

/// The pointer state after a button event: only the primary button toggles
/// the drag flag.
pub open spec fn spec_input_state(s: MouseState, button: MouseButton, pressed: bool) -> MouseState {
    MouseState {
        x: s.x,
        y: s.y,
        dragging: if button == MouseButton::Left {
            pressed
        } else {
            s.dragging
        },
    }
}

/// The scene: both drawables, the camera matrices, and the pointer state.
#[derive(PartialEq, Eq, Debug)]
pub struct VisGl {
    pub globe: Globe,
    pub points: Points,
    pub mvp: MvpMatrices,
    pub mouse: MouseState,
}

impl VisGl {
    /// Assemble the scene; the pointer starts at the origin, not dragging.
    pub fn new(globe: Globe, points: Points, mvp: MvpMatrices) -> (v: VisGl)
        ensures
            v.globe == globe,
            v.points == points,
            v.mvp == mvp,
            v.mouse == (MouseState { x: 0, y: 0, dragging: false }),
    {
        VisGl { globe, points, mvp, mouse: MouseState::new() }
    }

    /// The programs sharing the camera uniforms.
    pub fn programs(&self) -> (ps: Vec<u64>)
        ensures
            ps@ =~= seq![self.points.program.id, self.globe.program.id],
    {
        let mut ps: Vec<u64> = Vec::new();
        ps.push(self.points.program.id);
        ps.push(self.globe.program.id);
        ps
    }

    /// Handle a pointer move: while dragging, ask for the rotation of exactly
    /// the travel since the last event; always remember the new position.
    pub fn mouse_move(&mut self, x: i64, y: i64) -> (r: Option<RotateCmd>)
        requires
            mouse_pos_ok(old(self).mouse),
            -POS_ABS_MAX <= x <= POS_ABS_MAX,
            -POS_ABS_MAX <= y <= POS_ABS_MAX,
        ensures
            final(self).mouse == spec_move_state(old(self).mouse, x, y),
            r == spec_move_cmd(old(self).mouse, x, y),
            final(self).globe == old(self).globe,
            final(self).points == old(self).points,
            final(self).mvp == old(self).mvp,
    {
        let cmd = if self.mouse.dragging {
            let dx = x - self.mouse.x;
            let dy = y - self.mouse.y;
            Some(rotation_angles(dx, dy))
        } else {
            None
        };
        self.mouse.x = x;
        self.mouse.y = y;
        cmd
    }

    /// Store the model matrix the rotation produced and order it pushed into
    /// every program.
    pub fn apply_model(&mut self, model: Mat4) -> (slots: Vec<UniformSlot>)
        ensures
            final(self).mvp.model.data == model,
            final(self).mvp.model.location == old(self).mvp.model.location,
            final(self).mvp.model.name == old(self).mvp.model.name,
            final(self).mvp.proj == old(self).mvp.proj,
            final(self).mvp.view == old(self).mvp.view,
            final(self).globe == old(self).globe,
            final(self).points == old(self).points,
            final(self).mouse == old(self).mouse,
            slots@ =~= uniform_slots(
                old(self).mvp.model.location,
                seq![old(self).points.program.id, old(self).globe.program.id],
            ),
    {
        self.mvp.model.data = model;
        let programs = self.programs();
        self.mvp.model.apply(&programs)
    }

    /// Handle a scroll: zoom the view matrix by the normalized delta and
    /// order it pushed into every program.
    pub fn mouse_wheel(&mut self, delta: i64) -> (slots: Vec<UniformSlot>)
        requires
            mat_wf(old(self).mvp.view.data.m@),
            mat_bounded(old(self).mvp.view.data.m@, MAT_ENTRY_ABS_MAX as int),
            -SCROLL_DELTA_ABS_MAX <= delta <= SCROLL_DELTA_ABS_MAX,
        ensures
            final(self).mvp.view.data.m@ == spec_zoom(old(self).mvp.view.data.m@, delta as int),
            mat_bounded(final(self).mvp.view.data.m@, MAT_PRODUCT_ABS_MAX as int),
            final(self).mvp.view.location == old(self).mvp.view.location,
            final(self).mvp.view.name == old(self).mvp.view.name,
            final(self).mvp.proj == old(self).mvp.proj,
            final(self).mvp.model == old(self).mvp.model,
            final(self).globe == old(self).globe,
            final(self).points == old(self).points,
            final(self).mouse == old(self).mouse,
            slots@ =~= uniform_slots(
                old(self).mvp.view.location,
                seq![old(self).points.program.id, old(self).globe.program.id],
            ),
    {
        self.mvp.view.data = zoom_from_scroll(&self.mvp.view.data, delta);
        let programs = self.programs();
        self.mvp.view.apply(&programs)
    }

    /// Handle a button event: the primary button starts and stops the drag;
    /// other buttons change nothing.
    pub fn mouse_input(&mut self, button: MouseButton, pressed: bool)
        ensures
            final(self).mouse == spec_input_state(old(self).mouse, button, pressed),
            final(self).globe == old(self).globe,
            final(self).points == old(self).points,
            final(self).mvp == old(self).mvp,
    {
        match button {
            MouseButton::Left => {
                self.mouse.dragging = pressed;
            },
            _ => {},
        }
    }

    /// The uniform pushes that prime a fresh scene: all three matrices into
    /// every program.
    pub fn setup_gl(&self) -> (slots: Vec<UniformSlot>)
        ensures
            slots@ =~= uniform_slots(
                self.mvp.proj.location,
                seq![self.points.program.id, self.globe.program.id],
            ) + uniform_slots(
                self.mvp.view.location,
                seq![self.points.program.id, self.globe.program.id],
            ) + uniform_slots(
                self.mvp.model.location,
                seq![self.points.program.id, self.globe.program.id],
            ),
    {
        let programs = self.programs();
        self.mvp.apply(&programs)
    }
}

/// Accumulates the window dimensions before the host starts the scene.
#[derive(Clone, Copy, PartialEq, Eq, Structural, Debug)]
pub struct VisBuilder {
    pub width: Option<i64>,
    pub height: Option<i64>,
}

impl VisBuilder {
    /// An empty builder: no dimensions chosen yet.
    pub fn new() -> (b: VisBuilder)
        ensures
            b.width is None,
            b.height is None,
    {
        VisBuilder { width: None, height: None }
    }

    /// Choose the window size, in fixed-point logical units.
    pub fn with_dimensions(self, width: i64, height: i64) -> (b: VisBuilder)
        ensures
            b.width == Some(width),
            b.height == Some(height),
    {
        VisBuilder { width: Some(width), height: Some(height) }
    }

    /// The dimensions to open the window with: what was chosen, or the
    /// default for each side left unset.
    pub fn dimensions(&self) -> (r: (i64, i64))
        ensures
            r.0 == match self.width {
                Some(w) => w,
                None => DEFAULT_DIMENSION,
            },
            r.1 == match self.height {
                Some(h) => h,
                None => DEFAULT_DIMENSION,
            },
    {
        let w = match self.width {
            Some(w) => w,
            None => DEFAULT_DIMENSION,
        };
        let h = match self.height {
            Some(h) => h,
            None => DEFAULT_DIMENSION,
        };
        (w, h)
    }
}

/// Law: over a drag — press, two moves without an intervening release, then a
/// release and another move — both dragged moves ask for a rotation, each
/// from exactly the travel since the previous event, and the move after the
/// release asks for none, while the position keeps tracking throughout.
pub proof fn lemma_drag_sequence(
    s0: MouseState,
    x1: i64,
    y1: i64,
    x2: i64,
    y2: i64,
    x3: i64,
    y3: i64,
)
    ensures
        ({
            let pressed = spec_input_state(s0, MouseButton::Left, true);
            let after_first = spec_move_state(pressed, x1, y1);
            let after_second = spec_move_state(after_first, x2, y2);
            let released = spec_input_state(after_second, MouseButton::Left, false);
            &&& spec_move_cmd(pressed, x1, y1) == Some(
                RotateCmd {
                    x_angle: spec_rotation_angle(y1 - s0.y) as i64,
                    y_angle: spec_rotation_angle(x1 - s0.x) as i64,
                },
            )
            &&& spec_move_cmd(after_first, x2, y2) == Some(
                RotateCmd {
                    x_angle: spec_rotation_angle(y2 - y1) as i64,
                    y_angle: spec_rotation_angle(x2 - x1) as i64,
                },
            )
            &&& spec_move_cmd(released, x3, y3) is None
            &&& spec_move_state(released, x3, y3).x == x3
            &&& spec_move_state(released, x3, y3).y == y3
        }),
{
}

} // verus!
