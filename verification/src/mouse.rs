//! Pointer state and camera input math.
//!
//! Pointer positions and scroll deltas are fixed-point scalars (window-logical
//! units times [`SCALE`]). Dragging rotates the model; scrolling scales the
//! view. The drag rotation itself depends on the current orientation and is
//! applied by the caller; this module turns raw input into exact rotation
//! angles and zoom transforms.

use vstd::prelude::*;

use crate::fixed::{div_round_toward_zero, div_trunc, SCALE};
use crate::matrix::{
    lemma_div_trunc_bound, lemma_mul_identity_left, mat_bounded, mat_wf, spec_mul,
    spec_uniform_scale, Mat4, MAT_ENTRY_ABS_MAX, MAT_PRODUCT_ABS_MAX,
};

verus! {

/// Rotation speed: radians per logical unit of pointer travel, as the ratio
/// `ROT_SPEED_NUM / ROT_SPEED_DEN` (0.05).
pub const ROT_SPEED_NUM: i64 = 5;

/// Denominator of the rotation speed ratio.
pub const ROT_SPEED_DEN: i64 = 100;

/// Zoom speed: scale gain per logical unit of scroll, as the ratio
/// `ZOOM_SPEED_NUM / ZOOM_SPEED_DEN` (0.03).
pub const ZOOM_SPEED_NUM: i64 = 3;

/// Denominator of the zoom speed ratio.
pub const ZOOM_SPEED_DEN: i64 = 100;

/// Logical height of one discrete scroll line, in logical units.
pub const SCROLL_LINE_HEIGHT: i64 = 40;

/// Largest pointer coordinate magnitude accepted (2^40, about 65000 logical
/// units).
pub const POS_ABS_MAX: i64 = 0x100_0000_0000;

/// Largest normalized scroll delta magnitude accepted (2^33, about 512
/// logical units).
pub const SCROLL_DELTA_ABS_MAX: i64 = 0x2_0000_0000;

/// Largest line-count scroll magnitude accepted by normalization.
pub const SCROLL_LINES_ABS_MAX: i64 = 214748364;

/// Largest pixel scroll magnitude accepted by normalization.
pub const SCROLL_PIXELS_ABS_MAX: i64 = 0x8000_0000;

/// Smallest display density scale accepted (one quarter).
pub const DPI_SCALE_MIN: i64 = 0x40_0000;

/// The last observed pointer position and whether a primary-button drag is
/// active.
#[derive(Clone, Copy, PartialEq, Eq, Structural, Debug)]
pub struct MouseState {
    pub x: i64,
    pub y: i64,
    pub dragging: bool,
}

/// The pointer buttons the interaction cares about.
#[derive(Clone, Copy, PartialEq, Eq, Structural, Debug)]
pub enum MouseButton {
    Left,
    Right,
    Other,
}

/// The two encodings hosts report scroll deltas in: a discrete line count or
/// a pixel offset (both fixed-point).
#[derive(Clone, Copy, PartialEq, Eq, Structural, Debug)]
pub enum ScrollDelta {
    Lines(i64),
    Pixels(i64),
}

/// The rotation a drag step asks for: an angle around the camera-relative X
/// axis and one around the Y axis, in fixed-point radians.
#[derive(Clone, Copy, PartialEq, Eq, Structural, Debug)]
pub struct RotateCmd {
    pub x_angle: i64,
    pub y_angle: i64,
}

/// The position of `s` is within [`POS_ABS_MAX`].
pub open spec fn mouse_pos_ok(s: MouseState) -> bool {
    &&& -POS_ABS_MAX <= s.x <= POS_ABS_MAX
    &&& -POS_ABS_MAX <= s.y <= POS_ABS_MAX
}

/// A pointer travel distance turned into a rotation angle.
pub open spec fn spec_rotation_angle(d: int) -> int {
    div_trunc(d * ROT_SPEED_NUM, ROT_SPEED_DEN as int)
}

/// A normalized scroll delta turned into a zoom scale factor.
pub open spec fn spec_zoom_factor(delta: int) -> int {
    SCALE + div_trunc(delta * ZOOM_SPEED_NUM, ZOOM_SPEED_DEN as int)
}

/// The matrix a scroll of `delta` turns `mat` into.
pub open spec fn spec_zoom(mat: Seq<i64>, delta: int) -> Seq<i64> {
    spec_mul(mat, spec_uniform_scale(spec_zoom_factor(delta)))
}

impl MouseState {
    /// The initial pointer state: origin, not dragging.
    pub fn new() -> (s: MouseState)
        ensures
            s.x == 0,
            s.y == 0,
            !s.dragging,
    {
        MouseState { x: 0, y: 0, dragging: false }
    }
}

/// The rotation angles for one drag step of `(dx, dy)`: vertical travel spins
/// around the X axis, horizontal travel around the Y axis, both at the
/// rotation speed.
pub fn rotation_angles(dx: i64, dy: i64) -> (r: RotateCmd)
    requires
        -2 * POS_ABS_MAX <= dx <= 2 * POS_ABS_MAX,
        -2 * POS_ABS_MAX <= dy <= 2 * POS_ABS_MAX,
    ensures
        r.x_angle == spec_rotation_angle(dy as int),
        r.y_angle == spec_rotation_angle(dx as int),
{
    RotateCmd {
        x_angle: div_round_toward_zero(dy * ROT_SPEED_NUM, ROT_SPEED_DEN),
        y_angle: div_round_toward_zero(dx * ROT_SPEED_NUM, ROT_SPEED_DEN),
    }
}

/// Scale the view matrix for one scroll step: right-multiply `mat` by a
/// uniform scale of `1 + delta * ZOOM_SPEED`.
pub fn zoom_from_scroll(mat: &Mat4, delta: i64) -> (r: Mat4)
    requires
        mat_wf(mat.m@),
        mat_bounded(mat.m@, MAT_ENTRY_ABS_MAX as int),
        -SCROLL_DELTA_ABS_MAX <= delta <= SCROLL_DELTA_ABS_MAX,
    ensures
        r.m@ == spec_zoom(mat.m@, delta as int),
        mat_wf(r.m@),
        mat_bounded(r.m@, MAT_PRODUCT_ABS_MAX as int),
{
    let gain = div_round_toward_zero(delta * ZOOM_SPEED_NUM, ZOOM_SPEED_DEN);
    proof {
        lemma_div_trunc_bound(
            (delta * ZOOM_SPEED_NUM) as int,
            ZOOM_SPEED_DEN as int,
            0x1000_0000,
        );
    }
    let factor = SCALE + gain;
    let scale = Mat4::uniform_scale(factor);
    mat.mul_mat4(&scale)
}

/// Reduce either scroll encoding to logical units: a line count is worth
/// [`SCROLL_LINE_HEIGHT`] units per line; a pixel offset is divided by the
/// display density scale `dpi` (fixed-point), so equal physical input zooms
/// equally on any display.
pub fn normalize_scroll(delta: ScrollDelta, dpi: i64) -> (r: i64)
    requires
        dpi >= DPI_SCALE_MIN,
        delta matches ScrollDelta::Lines(l) ==> -SCROLL_LINES_ABS_MAX <= l <= SCROLL_LINES_ABS_MAX,
        delta matches ScrollDelta::Pixels(p) ==> -SCROLL_PIXELS_ABS_MAX <= p
            <= SCROLL_PIXELS_ABS_MAX,
    ensures
        delta matches ScrollDelta::Lines(l) ==> r == l * SCROLL_LINE_HEIGHT,
        delta matches ScrollDelta::Pixels(p) ==> r == div_trunc(p * SCALE, dpi as int),
        -SCROLL_DELTA_ABS_MAX <= r <= SCROLL_DELTA_ABS_MAX,
{
    match delta {
        ScrollDelta::Lines(l) => l * SCROLL_LINE_HEIGHT,
        ScrollDelta::Pixels(p) => {
            proof {
                assert((p * SCALE) as int <= (SCROLL_DELTA_ABS_MAX as int) * (dpi as int)
                    && -((SCROLL_DELTA_ABS_MAX as int) * (dpi as int)) <= (p * SCALE) as int)
                    by (nonlinear_arith)
                    requires
                        -SCROLL_PIXELS_ABS_MAX <= p <= SCROLL_PIXELS_ABS_MAX,
                        dpi >= DPI_SCALE_MIN,
                ;
                lemma_div_trunc_bound(
                    (p * SCALE) as int,
                    dpi as int,
                    SCROLL_DELTA_ABS_MAX as int,
                );
            }
            div_round_toward_zero(p * SCALE, dpi)
        },
    }
}

/// Law: zooming from the identity matrix yields exactly the uniform-scale
/// matrix of factor `1 + delta * ZOOM_SPEED`.
pub proof fn lemma_zoom_from_identity(delta: int)
    ensures
        spec_zoom(crate::matrix::spec_identity(), delta) == spec_uniform_scale(
            spec_zoom_factor(delta),
        ),
{
    lemma_mul_identity_left(spec_uniform_scale(spec_zoom_factor(delta)));
}

} // verus!
