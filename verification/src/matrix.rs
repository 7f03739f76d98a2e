//! Fixed-point 4x4 matrices.
//!
//! Camera transforms are 4x4 matrices in column-major order, with fixed-point
//! entries (an `i64` is the real entry times [`SCALE`]). The product of two
//! matrices rescales each accumulated entry back by `SCALE`, rounding toward
//! zero.

use vstd::prelude::*;

use crate::fixed::{div_round_toward_zero, div_trunc, SCALE};
use vstd::arithmetic::div_mod::{lemma_div_by_multiple, lemma_div_is_ordered, lemma_div_pos_is_pos};

verus! {

/// Largest entry magnitude (2^30) accepted as a multiplication input.
pub const MAT_ENTRY_ABS_MAX: i64 = 0x4000_0000;

/// Largest entry magnitude (2^38) a multiplication can produce.
pub const MAT_PRODUCT_ABS_MAX: i64 = 0x40_0000_0000;

/// A 4x4 fixed-point matrix, column-major: entry (row `r`, column `c`) lives
/// at index `c * 4 + r`.
#[derive(PartialEq, Eq, Debug)]
pub struct Mat4 {
    pub m: Vec<i64>,
}

impl Clone for Mat4 {
    /// An exact copy.
    fn clone(&self) -> (r: Mat4)
        ensures
            r.m@ == self.m@,
    {
        Mat4 { m: self.m.clone() }
    }
}

/// `s` has the sixteen entries of a 4x4 matrix.
pub open spec fn mat_wf(s: Seq<i64>) -> bool {
    s.len() == 16
}

/// Every entry of `s` is within `b`.
pub open spec fn mat_bounded(s: Seq<i64>, b: int) -> bool {
    forall|i: int| 0 <= i < s.len() ==> -b <= #[trigger] s[i] <= b
}

/// Entry of `s` at row `r`, column `c`.
pub open spec fn mat_at(s: Seq<i64>, r: int, c: int) -> int {
    s[c * 4 + r] as int
}

/// Entry (`r`, `c`) of the product of `a` and `b`: the dot product of row `r`
/// of `a` with column `c` of `b`, scaled back down.
pub open spec fn mul_entry(a: Seq<i64>, b: Seq<i64>, r: int, c: int) -> int {
    div_trunc(
        mat_at(a, r, 0) * mat_at(b, 0, c) + mat_at(a, r, 1) * mat_at(b, 1, c) + mat_at(a, r, 2)
            * mat_at(b, 2, c) + mat_at(a, r, 3) * mat_at(b, 3, c),
        SCALE as int,
    )
}

/// The matrix product of `a` and `b`.
pub open spec fn spec_mul(a: Seq<i64>, b: Seq<i64>) -> Seq<i64> {
    Seq::new(16, |i: int| mul_entry(a, b, i % 4, i / 4) as i64)
}

/// The identity matrix.
pub open spec fn spec_identity() -> Seq<i64> {
    Seq::new(16, |i: int| if i == 0 || i == 5 || i == 10 || i == 15 { SCALE } else { 0 })
}

/// The matrix scaling all three axes by `f` (a fixed-point factor).
pub open spec fn spec_uniform_scale(f: int) -> Seq<i64> {
    Seq::new(
        16,
        |i: int|
            if i == 0 || i == 5 || i == 10 {
                f as i64
            } else if i == 15 {
                SCALE
            } else {
                0
            },
    )
}

/// A quotient of a bounded dividend is bounded.
pub proof fn lemma_div_trunc_bound(x: int, d: int, b: int)
    requires
        0 < d,
        0 <= b,
        -(b * d) <= x <= b * d,
    ensures
        -b <= div_trunc(x, d) <= b,
{
    if x >= 0 {
        lemma_div_is_ordered(x, b * d, d);
        lemma_div_by_multiple(b, d);
        lemma_div_pos_is_pos(x, d);
    } else {
        lemma_div_is_ordered(-x, b * d, d);
        lemma_div_by_multiple(b, d);
        lemma_div_pos_is_pos(-x, d);
    }
}

/// Dividing an exact multiple of `d` undoes the multiplication, for either
/// sign.
pub proof fn lemma_div_trunc_multiple(x: int, d: int)
    requires
        0 < d,
    ensures
        div_trunc(x * d, d) == x,
{
    if x >= 0 {
        lemma_div_by_multiple(x, d);
    } else {
        lemma_div_by_multiple(-x, d);
        assert(-(x * d) == (-x) * d) by (nonlinear_arith);
    }
}

/// One entry of a matrix product.
fn mul_entry_exec(a: &Vec<i64>, b: &Vec<i64>, r: usize, c: usize) -> (v: i64)
    requires
        mat_wf(a@),
        mat_wf(b@),
        mat_bounded(a@, MAT_ENTRY_ABS_MAX as int),
        mat_bounded(b@, MAT_ENTRY_ABS_MAX as int),
        r < 4,
        c < 4,
    ensures
        v == mul_entry(a@, b@, r as int, c as int),
        -MAT_PRODUCT_ABS_MAX <= v <= MAT_PRODUCT_ABS_MAX,
{
    let a0 = a[r];
    let a1 = a[4 + r];
    let a2 = a[8 + r];
    let a3 = a[12 + r];
    let b0 = b[c * 4];
    let b1 = b[c * 4 + 1];
    let b2 = b[c * 4 + 2];
    let b3 = b[c * 4 + 3];
    proof {
        assert(-0x1000_0000_0000_0000 <= (a0 as int) * (b0 as int) <= 0x1000_0000_0000_0000
            && -0x1000_0000_0000_0000 <= (a1 as int) * (b1 as int) <= 0x1000_0000_0000_0000
            && -0x1000_0000_0000_0000 <= (a2 as int) * (b2 as int) <= 0x1000_0000_0000_0000
            && -0x1000_0000_0000_0000 <= (a3 as int) * (b3 as int) <= 0x1000_0000_0000_0000)
            by (nonlinear_arith)
            requires
                -MAT_ENTRY_ABS_MAX <= a0 <= MAT_ENTRY_ABS_MAX,
                -MAT_ENTRY_ABS_MAX <= a1 <= MAT_ENTRY_ABS_MAX,
                -MAT_ENTRY_ABS_MAX <= a2 <= MAT_ENTRY_ABS_MAX,
                -MAT_ENTRY_ABS_MAX <= a3 <= MAT_ENTRY_ABS_MAX,
                -MAT_ENTRY_ABS_MAX <= b0 <= MAT_ENTRY_ABS_MAX,
                -MAT_ENTRY_ABS_MAX <= b1 <= MAT_ENTRY_ABS_MAX,
                -MAT_ENTRY_ABS_MAX <= b2 <= MAT_ENTRY_ABS_MAX,
                -MAT_ENTRY_ABS_MAX <= b3 <= MAT_ENTRY_ABS_MAX,
        ;
    }
    let sum: i64 = a0 * b0 + a1 * b1 + a2 * b2 + a3 * b3;
    proof {
        lemma_div_trunc_bound(sum as int, SCALE as int, MAT_PRODUCT_ABS_MAX as int);
    }
    div_round_toward_zero(sum, SCALE)
}

impl Mat4 {
    /// The identity matrix.
    pub fn identity() -> (r: Mat4)
        ensures
            r.m@ == spec_identity(),
            mat_wf(r.m@),
            mat_bounded(r.m@, MAT_ENTRY_ABS_MAX as int),
    {
        let mut m: Vec<i64> = Vec::new();
        let mut i: usize = 0;
        while i < 16
            invariant
                i <= 16,
                m@.len() == i,
                forall|j: int| 0 <= j < i ==> m@[j] == spec_identity()[j],
                forall|j: int| 0 <= j < i ==> -MAT_ENTRY_ABS_MAX <= #[trigger] m@[j] <= MAT_ENTRY_ABS_MAX,
            decreases 16 - i,
        {
            if i == 0 || i == 5 || i == 10 || i == 15 {
                m.push(SCALE);
            } else {
                m.push(0);
            }
            i = i + 1;
        }
        proof {
            assert(m@ =~= spec_identity());
        }
        Mat4 { m }
    }

    /// The matrix scaling all three axes by the fixed-point factor `f`.
    pub fn uniform_scale(f: i64) -> (r: Mat4)
        requires
            -MAT_ENTRY_ABS_MAX <= f <= MAT_ENTRY_ABS_MAX,
        ensures
            r.m@ == spec_uniform_scale(f as int),
            mat_wf(r.m@),
            mat_bounded(r.m@, MAT_ENTRY_ABS_MAX as int),
    {
        let mut m: Vec<i64> = Vec::new();
        let mut i: usize = 0;
        while i < 16
            invariant
                i <= 16,
                -MAT_ENTRY_ABS_MAX <= f <= MAT_ENTRY_ABS_MAX,
                m@.len() == i,
                forall|j: int| 0 <= j < i ==> m@[j] == spec_uniform_scale(f as int)[j],
                forall|j: int| 0 <= j < i ==> -MAT_ENTRY_ABS_MAX <= #[trigger] m@[j] <= MAT_ENTRY_ABS_MAX,
            decreases 16 - i,
        {
            if i == 0 || i == 5 || i == 10 {
                m.push(f);
            } else if i == 15 {
                m.push(SCALE);
            } else {
                m.push(0);
            }
            i = i + 1;
        }
        proof {
            assert(m@ =~= spec_uniform_scale(f as int));
        }
        Mat4 { m }
    }

    /// Multiply `self` on the right by `other`.
    pub fn mul_mat4(&self, other: &Mat4) -> (r: Mat4)
        requires
            mat_wf(self.m@),
            mat_wf(other.m@),
            mat_bounded(self.m@, MAT_ENTRY_ABS_MAX as int),
            mat_bounded(other.m@, MAT_ENTRY_ABS_MAX as int),
        ensures
            r.m@ == spec_mul(self.m@, other.m@),
            mat_wf(r.m@),
            mat_bounded(r.m@, MAT_PRODUCT_ABS_MAX as int),
    {
        let mut m: Vec<i64> = Vec::new();
        let mut i: usize = 0;
        while i < 16
            invariant
                i <= 16,
                mat_wf(self.m@),
                mat_wf(other.m@),
                mat_bounded(self.m@, MAT_ENTRY_ABS_MAX as int),
                mat_bounded(other.m@, MAT_ENTRY_ABS_MAX as int),
                m@.len() == i,
                forall|j: int| 0 <= j < i ==> m@[j] == spec_mul(self.m@, other.m@)[j],
                forall|j: int| 0 <= j < i ==> -MAT_PRODUCT_ABS_MAX <= #[trigger] m@[j] <= MAT_PRODUCT_ABS_MAX,
            decreases 16 - i,
        {
            let v = mul_entry_exec(&self.m, &other.m, i % 4, i / 4);
            m.push(v);
            i = i + 1;
        }
        proof {
            assert(m@ =~= spec_mul(self.m@, other.m@));
        }
        Mat4 { m }
    }
}

/// Multiplying by the identity on the left returns the other matrix
/// unchanged.
pub proof fn lemma_mul_identity_left(b: Seq<i64>)
    requires
        mat_wf(b),
    ensures
        spec_mul(spec_identity(), b) == b,
{
    assert forall|i: int| 0 <= i < 16 implies spec_mul(spec_identity(), b)[i] == b[i] by {
        let r = i % 4;
        let c = i / 4;
        assert(0 <= r < 4 && 0 <= c < 4);
        assert(mat_at(spec_identity(), r, 0) == if r == 0 { SCALE as int } else { 0 });
        assert(mat_at(spec_identity(), r, 1) == if r == 1 { SCALE as int } else { 0 });
        assert(mat_at(spec_identity(), r, 2) == if r == 2 { SCALE as int } else { 0 });
        assert(mat_at(spec_identity(), r, 3) == if r == 3 { SCALE as int } else { 0 });
        let x = mat_at(b, r, c);
        assert(mat_at(spec_identity(), r, 0) * mat_at(b, 0, c) + mat_at(spec_identity(), r, 1)
            * mat_at(b, 1, c) + mat_at(spec_identity(), r, 2) * mat_at(b, 2, c) + mat_at(
            spec_identity(),
            r,
            3,
        ) * mat_at(b, 3, c) == SCALE * x) by (nonlinear_arith)
            requires
                0 <= r < 4,
                mat_at(spec_identity(), r, 0) == if r == 0 { SCALE as int } else { 0 },
                mat_at(spec_identity(), r, 1) == if r == 1 { SCALE as int } else { 0 },
                mat_at(spec_identity(), r, 2) == if r == 2 { SCALE as int } else { 0 },
                mat_at(spec_identity(), r, 3) == if r == 3 { SCALE as int } else { 0 },
                x == mat_at(b, r, c),
        ;
        assert(SCALE * x == x * SCALE) by (nonlinear_arith);
        lemma_div_trunc_multiple(x, SCALE as int);
        assert(c * 4 + r == i);
    }
    assert(spec_mul(spec_identity(), b) =~= b);
}

} // verus!
