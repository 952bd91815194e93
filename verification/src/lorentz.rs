//! Lorentz transformations: the axis of a boost, and the entry layout of the
//! boost and rotation matrices acting on (ct, x, y, z).

use vstd::prelude::*;
use crate::minkowski::eta;

verus! {

/// Coordinate axis for boosts.
#[derive(Debug, Clone, Copy)]
pub enum Axis {
    X,
    Y,
    Z,
}

/// Position of an axis among the components (ct, x, y, z) of a 4-vector.
pub open spec fn axis_component(axis: Axis) -> int {
    match axis {
        Axis::X => 1,
        Axis::Y => 2,
        Axis::Z => 3,
    }
}

impl Axis {
    /// Index of this axis in the component order (ct, x, y, z).
    pub fn component(&self) -> (k: usize)
        ensures
            k == axis_component(*self),
            1 <= k <= 3,
    {
        match self {
            Axis::X => 1,
            Axis::Y => 2,
            Axis::Z => 3,
        }
    }
}

/// What stands at one position of a boost matrix with Lorentz factor γ and
/// velocity β.
#[derive(Debug, Clone, Copy, PartialEq, Eq, Structural)]
pub enum BoostEntry {
    /// γ
    Gamma,
    /// -γβ
    NegGammaBeta,
    /// 1
    One,
    /// 0
    Zero,
}

/// Layout of the boost along `axis` (component k): γ at (0, 0) and (k, k),
/// -γβ at (0, k) and (k, 0), 1 on the rest of the diagonal, 0 elsewhere.
pub open spec fn boost_layout(axis: Axis, row: int, col: int) -> BoostEntry {
    let k = axis_component(axis);
    if row == col {
        if row == 0 || row == k {
            BoostEntry::Gamma
        } else {
            BoostEntry::One
        }
    } else if (row == 0 && col == k) || (row == k && col == 0) {
        BoostEntry::NegGammaBeta
    } else {
        BoostEntry::Zero
    }
}

/// Entry (row, col) of the Lorentz boost matrix along `axis`.
pub fn boost_entry(axis: Axis, row: usize, col: usize) -> (e: BoostEntry)
    requires
        row < 4,
        col < 4,
    ensures
        e == boost_layout(axis, row as int, col as int),
{
    let k = axis.component();
    if row == col {
        if row == 0 || row == k {
            BoostEntry::Gamma
        } else {
            BoostEntry::One
        }
    } else if (row == 0 && col == k) || (row == k && col == 0) {
        BoostEntry::NegGammaBeta
    } else {
        BoostEntry::Zero
    }
}

/// What stands at one position of a spatial rotation matrix by an angle θ.
#[derive(Debug, Clone, Copy, PartialEq, Eq, Structural)]
pub enum RotationEntry {
    /// cos θ
    Cos,
    /// sin θ
    Sin,
    /// -sin θ
    NegSin,
    /// 1
    One,
    /// 0
    Zero,
}

/// Layout of the rotation in the plane of components a and b:
/// cos θ at (a, a) and (b, b), -sin θ at (a, b), sin θ at (b, a),
/// 1 on the rest of the diagonal, 0 elsewhere.
pub open spec fn rotation_layout(a: int, b: int, row: int, col: int) -> RotationEntry {
    if row == col {
        if row == a || row == b {
            RotationEntry::Cos
        } else {
            RotationEntry::One
        }
    } else if row == a && col == b {
        RotationEntry::NegSin
    } else if row == b && col == a {
        RotationEntry::Sin
    } else {
        RotationEntry::Zero
    }
}

fn rotation_entry(a: usize, b: usize, row: usize, col: usize) -> (e: RotationEntry)
    ensures
        e == rotation_layout(a as int, b as int, row as int, col as int),
{
    if row == col {
        if row == a || row == b {
            RotationEntry::Cos
        } else {
            RotationEntry::One
        }
    } else if row == a && col == b {
        RotationEntry::NegSin
    } else if row == b && col == a {
        RotationEntry::Sin
    } else {
        RotationEntry::Zero
    }
}

/// Entry (row, col) of the rotation in the xy-plane (components 1 and 2).
pub fn rotation_xy_entry(row: usize, col: usize) -> (e: RotationEntry)
    requires
        row < 4,
        col < 4,
    ensures
        e == rotation_layout(1, 2, row as int, col as int),
{
    rotation_entry(1, 2, row, col)
}

/// Entry (row, col) of the rotation in the xz-plane (components 1 and 3).
pub fn rotation_xz_entry(row: usize, col: usize) -> (e: RotationEntry)
    requires
        row < 4,
        col < 4,
    ensures
        e == rotation_layout(1, 3, row as int, col as int),
{
    rotation_entry(1, 3, row, col)
}

// ---------------------------------------------------------------------------
// Algebra of the layouts, with γ, γβ, cos θ and sin θ as symbols
// ---------------------------------------------------------------------------

/// Value of a boost entry when γ = `g` and γβ = `gb`.
pub open spec fn boost_value(e: BoostEntry, g: int, gb: int) -> int {
    match e {
        BoostEntry::Gamma => g,
        BoostEntry::NegGammaBeta => -gb,
        BoostEntry::One => 1,
        BoostEntry::Zero => 0,
    }
}

/// Λ_{row col} of the boost along `axis` when γ = `g` and γβ = `gb`.
pub open spec fn boost_matrix(axis: Axis, g: int, gb: int, row: int, col: int) -> int {
    boost_value(boost_layout(axis, row, col), g, gb)
}

/// Value of a rotation entry when cos θ = `c` and sin θ = `s`.
pub open spec fn rotation_value(e: RotationEntry, c: int, s: int) -> int {
    match e {
        RotationEntry::Cos => c,
        RotationEntry::Sin => s,
        RotationEntry::NegSin => -s,
        RotationEntry::One => 1,
        RotationEntry::Zero => 0,
    }
}

/// R_{row col} of the rotation in the plane of components a and b when
/// cos θ = `c` and sin θ = `s`.
pub open spec fn rotation_matrix(a: int, b: int, c: int, s: int, row: int, col: int) -> int {
    rotation_value(rotation_layout(a, b, row, col), c, s)
}

/// Component i of a 4-vector (ct, x, y, z).
pub open spec fn component(v: (int, int, int, int), i: int) -> int {
    if i == 0 {
        v.0
    } else if i == 1 {
        v.1
    } else if i == 2 {
        v.2
    } else {
        v.3
    }
}

/// Contraction with the Minkowski metric: u·w = u⁰w⁰ - u¹w¹ - u²w² - u³w³.
pub open spec fn minkowski_dot(u: (int, int, int, int), w: (int, int, int, int)) -> int {
    u.0 * w.0 - u.1 * w.1 - u.2 * w.2 - u.3 * w.3
}

/// Spacetime interval s² = (ct)² - x² - y² - z².
pub open spec fn interval(v: (int, int, int, int)) -> int {
    minkowski_dot(v, v)
}

/// Component `i` of Λv for the boost along `axis`.
pub open spec fn boost_row(axis: Axis, g: int, gb: int, v: (int, int, int, int), i: int) -> int {
    boost_matrix(axis, g, gb, i, 0) * v.0 + boost_matrix(axis, g, gb, i, 1) * v.1 + boost_matrix(
        axis,
        g,
        gb,
        i,
        2,
    ) * v.2 + boost_matrix(axis, g, gb, i, 3) * v.3
}

/// Λv for the boost along `axis`.
pub open spec fn boost_apply(axis: Axis, g: int, gb: int, v: (int, int, int, int)) -> (
    int,
    int,
    int,
    int,
) {
    (
        boost_row(axis, g, gb, v, 0),
        boost_row(axis, g, gb, v, 1),
        boost_row(axis, g, gb, v, 2),
        boost_row(axis, g, gb, v, 3),
    )
}

/// Column `j` of the boost matrix along `axis`.
pub open spec fn boost_column(axis: Axis, g: int, gb: int, j: int) -> (int, int, int, int) {
    (
        boost_matrix(axis, g, gb, 0, j),
        boost_matrix(axis, g, gb, 1, j),
        boost_matrix(axis, g, gb, 2, j),
        boost_matrix(axis, g, gb, 3, j),
    )
}

/// Component `i` of Rv for the rotation in the plane of components a and b.
pub open spec fn rotation_row(a: int, b: int, c: int, s: int, v: (int, int, int, int), i: int) -> int {
    rotation_matrix(a, b, c, s, i, 0) * v.0 + rotation_matrix(a, b, c, s, i, 1) * v.1
        + rotation_matrix(a, b, c, s, i, 2) * v.2 + rotation_matrix(a, b, c, s, i, 3) * v.3
}

/// Rv for the rotation in the plane of components a and b.
pub open spec fn rotation_apply(a: int, b: int, c: int, s: int, v: (int, int, int, int)) -> (
    int,
    int,
    int,
    int,
) {
    (
        rotation_row(a, b, c, s, v, 0),
        rotation_row(a, b, c, s, v, 1),
        rotation_row(a, b, c, s, v, 2),
        rotation_row(a, b, c, s, v, 3),
    )
}

/// Column `j` of the rotation matrix in the plane of components a and b.
pub open spec fn rotation_column(a: int, b: int, c: int, s: int, j: int) -> (int, int, int, int) {
    (
        rotation_matrix(a, b, c, s, 0, j),
        rotation_matrix(a, b, c, s, 1, j),
        rotation_matrix(a, b, c, s, 2, j),
        rotation_matrix(a, b, c, s, 3, j),
    )
}

/// A boost matrix is symmetric: Λ_{row col} = Λ_{col row}.
pub proof fn lemma_boost_symmetric(axis: Axis, row: int, col: int)
    ensures
        boost_layout(axis, row, col) == boost_layout(axis, col, row),
{
}

/// A boost along one axis leaves the two transverse components alone: a row j
/// other than 0 and the boost axis is the unit row.
pub proof fn lemma_boost_transverse(axis: Axis, j: int, col: int)
    requires
        j != 0,
        j != axis_component(axis),
    ensures
        boost_layout(axis, j, col) == (if col == j {
            BoostEntry::One
        } else {
            BoostEntry::Zero
        }),
{
}

proof fn lemma_scaled_difference(p: int, tt: int, xx: int)
    ensures
        p * tt - p * xx == (tt - xx) + (p - 1) * (tt - xx),
{
    assert(p * tt - p * xx == (tt - xx) + (p - 1) * (tt - xx)) by (nonlinear_arith);
}

/// (γt - γβx)² - (-γβt + γx)² = (γ² - (γβ)²)(t² - x²), in the shapes that a
/// boost row produces.
proof fn lemma_hyperbolic_pair(g: int, gb: int, t: int, x: int)
    ensures
        (g * t + (-gb) * x) * (g * t + (-gb) * x) - ((-gb) * t + g * x) * ((-gb) * t + g * x) == (g
            * g - gb * gb) * (t * t) - (g * g - gb * gb) * (x * x),
{
    let a = g * t;
    let b = gb * x;
    let c = gb * t;
    let d = g * x;
    assert((-gb) * x == -b) by (nonlinear_arith)
        requires
            b == gb * x,
    ;
    assert((-gb) * t == -c) by (nonlinear_arith)
        requires
            c == gb * t,
    ;
    assert((a - b) * (a - b) == a * a - 2 * (a * b) + b * b) by (nonlinear_arith);
    assert((d - c) * (d - c) == d * d - 2 * (d * c) + c * c) by (nonlinear_arith);
    assert(a * b == d * c) by (nonlinear_arith)
        requires
            a == g * t,
            b == gb * x,
            c == gb * t,
            d == g * x,
    ;
    assert(a * a - c * c == (g * g - gb * gb) * (t * t)) by (nonlinear_arith)
        requires
            a == g * t,
            c == gb * t,
    ;
    assert(d * d - b * b == (g * g - gb * gb) * (x * x)) by (nonlinear_arith)
        requires
            b == gb * x,
            d == g * x,
    ;
}

/// (ca - sb)² + (sa + cb)² = (c² + s²)(a² + b²), in the shapes that a rotation
/// row produces.
proof fn lemma_circular_pair(c: int, s: int, a: int, b: int)
    ensures
        (c * a + (-s) * b) * (c * a + (-s) * b) + (s * a + c * b) * (s * a + c * b) == (c * c + s
            * s) * (a * a) + (c * c + s * s) * (b * b),
{
    let p = c * a;
    let q = s * b;
    let r = s * a;
    let u = c * b;
    assert((-s) * b == -q) by (nonlinear_arith)
        requires
            q == s * b,
    ;
    assert((p - q) * (p - q) == p * p - 2 * (p * q) + q * q) by (nonlinear_arith);
    assert((r + u) * (r + u) == r * r + 2 * (r * u) + u * u) by (nonlinear_arith);
    assert(p * q == r * u) by (nonlinear_arith)
        requires
            p == c * a,
            q == s * b,
            r == s * a,
            u == c * b,
    ;
    assert(p * p + r * r == (c * c + s * s) * (a * a)) by (nonlinear_arith)
        requires
            p == c * a,
            r == s * a,
    ;
    assert(q * q + u * u == (c * c + s * s) * (b * b)) by (nonlinear_arith)
        requires
            q == s * b,
            u == c * b,
    ;
}

/// The four columns of each boost matrix, written out: along axis k, column 0
/// is (γ, -γβ at k), column k is (-γβ at 0, γ), the others are unit columns.
pub proof fn lemma_boost_columns(axis: Axis, g: int, gb: int)
    ensures
        axis is X ==> {
            &&& boost_column(axis, g, gb, 0) == (g, -gb, 0int, 0int)
            &&& boost_column(axis, g, gb, 1) == (-gb, g, 0int, 0int)
            &&& boost_column(axis, g, gb, 2) == (0int, 0int, 1int, 0int)
            &&& boost_column(axis, g, gb, 3) == (0int, 0int, 0int, 1int)
        },
        axis is Y ==> {
            &&& boost_column(axis, g, gb, 0) == (g, 0int, -gb, 0int)
            &&& boost_column(axis, g, gb, 1) == (0int, 1int, 0int, 0int)
            &&& boost_column(axis, g, gb, 2) == (-gb, 0int, g, 0int)
            &&& boost_column(axis, g, gb, 3) == (0int, 0int, 0int, 1int)
        },
        axis is Z ==> {
            &&& boost_column(axis, g, gb, 0) == (g, 0int, 0int, -gb)
            &&& boost_column(axis, g, gb, 1) == (0int, 1int, 0int, 0int)
            &&& boost_column(axis, g, gb, 2) == (0int, 0int, 1int, 0int)
            &&& boost_column(axis, g, gb, 3) == (-gb, 0int, 0int, g)
        },
{
}

/// The four columns of each rotation matrix, written out: in the plane (a, b),
/// column a is (cos θ at a, sin θ at b), column b is (-sin θ at a, cos θ at b),
/// the others are unit columns.
pub proof fn lemma_rotation_columns(a: int, b: int, c: int, s: int)
    requires
        (a == 1 && b == 2) || (a == 1 && b == 3),
    ensures
        b == 2 ==> {
            &&& rotation_column(a, b, c, s, 0) == (1int, 0int, 0int, 0int)
            &&& rotation_column(a, b, c, s, 1) == (0int, c, s, 0int)
            &&& rotation_column(a, b, c, s, 2) == (0int, -s, c, 0int)
            &&& rotation_column(a, b, c, s, 3) == (0int, 0int, 0int, 1int)
        },
        b == 3 ==> {
            &&& rotation_column(a, b, c, s, 0) == (1int, 0int, 0int, 0int)
            &&& rotation_column(a, b, c, s, 1) == (0int, c, 0int, s)
            &&& rotation_column(a, b, c, s, 2) == (0int, 0int, 1int, 0int)
            &&& rotation_column(a, b, c, s, 3) == (0int, -s, 0int, c)
        },
{
}

/// The spacetime interval under a boost: s²(Λv) = s²(v) + (γ² - (γβ)² - 1)·(t² - v_k²),
/// where k is the boost axis; an identity of polynomials in γ and γβ. Since
/// γ² - (γβ)² = γ²(1 - β²) = 1, a boost preserves the interval.
pub proof fn lemma_boost_interval(axis: Axis, g: int, gb: int, v: (int, int, int, int))
    ensures
        interval(boost_apply(axis, g, gb, v)) == interval(v) + (g * g - gb * gb - 1) * (v.0 * v.0
            - component(v, axis_component(axis)) * component(v, axis_component(axis))),
{
    let w = boost_apply(axis, g, gb, v);
    let vk = component(v, axis_component(axis));
    lemma_boost_columns(axis, g, gb);
    lemma_hyperbolic_pair(g, gb, v.0, vk);
    lemma_scaled_difference(g * g - gb * gb, v.0 * v.0, vk * vk);
    match axis {
        Axis::X => {
            assert(w.0 == g * v.0 + (-gb) * v.1);
            assert(w.1 == (-gb) * v.0 + g * v.1);
            assert(w.2 == v.2);
            assert(w.3 == v.3);
        },
        Axis::Y => {
            assert(w.0 == g * v.0 + (-gb) * v.2);
            assert(w.1 == v.1);
            assert(w.2 == (-gb) * v.0 + g * v.2);
            assert(w.3 == v.3);
        },
        Axis::Z => {
            assert(w.0 == g * v.0 + (-gb) * v.3);
            assert(w.1 == v.1);
            assert(w.2 == v.2);
            assert(w.3 == (-gb) * v.0 + g * v.3);
        },
    }
}

/// Lorentz invariance of the metric: (Λᵀ η Λ)_{ij}, the contraction of columns
/// i and j of Λ, equals (γ² - (γβ)²)·η_ij when i and j both lie in the block
/// {0, k} of the boost axis k, and η_ij otherwise; with γ² - (γβ)² = 1 this is
/// Λᵀ η Λ = η.
pub proof fn lemma_boost_preserves_metric(axis: Axis, g: int, gb: int, i: int, j: int)
    requires
        0 <= i < 4,
        0 <= j < 4,
    ensures
        minkowski_dot(boost_column(axis, g, gb, i), boost_column(axis, g, gb, j)) == (if (i == 0
            || i == axis_component(axis)) && (j == 0 || j == axis_component(axis)) {
            (g * g - gb * gb) * eta(i, j)
        } else {
            eta(i, j)
        }),
{
    let p = g * g - gb * gb;
    let e = eta(i, j);
    lemma_boost_columns(axis, g, gb);
    assert(g * g - (-gb) * (-gb) == p) by (nonlinear_arith)
        requires
            p == g * g - gb * gb,
    ;
    assert((-gb) * (-gb) - g * g == -p) by (nonlinear_arith)
        requires
            p == g * g - gb * gb,
    ;
    assert(g * (-gb) - (-gb) * g == 0) by (nonlinear_arith);
    assert((-gb) * g - g * (-gb) == 0) by (nonlinear_arith);
    assert(p * e == (if e == 1 {
        p
    } else if e == -1 {
        -p
    } else {
        0
    })) by (nonlinear_arith)
        requires
            e == 0 || e == 1 || e == -1,
    ;
    assert(i == 0 || i == 1 || i == 2 || i == 3);
    assert(j == 0 || j == 1 || j == 2 || j == 3);
    match axis {
        Axis::X => {},
        Axis::Y => {},
        Axis::Z => {},
    }
}

/// Entry (i, j) of the product Λ(γ₁, γ₁β₁)·Λ(γ₂, γ₂β₂) of two boosts along `axis`.
pub open spec fn boost_product(axis: Axis, g1: int, gb1: int, g2: int, gb2: int, i: int, j: int) -> int {
    boost_matrix(axis, g1, gb1, i, 0) * boost_matrix(axis, g2, gb2, 0, j) + boost_matrix(
        axis,
        g1,
        gb1,
        i,
        1,
    ) * boost_matrix(axis, g2, gb2, 1, j) + boost_matrix(axis, g1, gb1, i, 2) * boost_matrix(
        axis,
        g2,
        gb2,
        2,
        j,
    ) + boost_matrix(axis, g1, gb1, i, 3) * boost_matrix(axis, g2, gb2, 3, j)
}

/// The inverse boost: the boost with velocity -β has the same γ and the
/// opposite γβ, and Λ(-β)·Λ(β) is the identity except on the diagonal of the
/// block {0, k} of the boost axis k, where it is γ² - (γβ)²; with
/// γ² - (γβ)² = 1 this is Λ(-β)·Λ(β) = I.
pub proof fn lemma_boost_inverse(axis: Axis, g: int, gb: int, i: int, j: int)
    requires
        0 <= i < 4,
        0 <= j < 4,
    ensures
        boost_product(axis, g, -gb, g, gb, i, j) == (if i != j {
            0
        } else if i == 0 || i == axis_component(axis) {
            g * g - gb * gb
        } else {
            1
        }),
{
    let p = g * g - gb * gb;
    lemma_boost_columns(axis, g, gb);
    lemma_boost_columns(axis, g, -gb);
    assert(g * g + gb * (-gb) == p) by (nonlinear_arith)
        requires
            p == g * g - gb * gb,
    ;
    assert(gb * (-gb) + g * g == p) by (nonlinear_arith)
        requires
            p == g * g - gb * gb,
    ;
    assert(g * (-gb) + gb * g == 0) by (nonlinear_arith);
    assert(gb * g + g * (-gb) == 0) by (nonlinear_arith);
    lemma_boost_symmetric(axis, i, 0);
    lemma_boost_symmetric(axis, i, 1);
    lemma_boost_symmetric(axis, i, 2);
    lemma_boost_symmetric(axis, i, 3);
    assert(i == 0 || i == 1 || i == 2 || i == 3);
    assert(j == 0 || j == 1 || j == 2 || j == 3);
    match axis {
        Axis::X => {},
        Axis::Y => {},
        Axis::Z => {},
    }
}

/// The spacetime interval under a rotation in the plane of spatial components
/// a and b: s²(Rv) = s²(v) - (cos²θ + sin²θ - 1)·(v_a² + v_b²), an identity of
/// polynomials in cos θ and sin θ; so a rotation preserves the interval.
pub proof fn lemma_rotation_interval(a: int, b: int, c: int, s: int, v: (int, int, int, int))
    requires
        (a == 1 && b == 2) || (a == 1 && b == 3),
    ensures
        interval(rotation_apply(a, b, c, s, v)) == interval(v) - (c * c + s * s - 1) * (component(
            v,
            a,
        ) * component(v, a) + component(v, b) * component(v, b)),
{
    let w = rotation_apply(a, b, c, s, v);
    let va = component(v, a);
    let vb = component(v, b);
    lemma_rotation_columns(a, b, c, s);
    lemma_circular_pair(c, s, va, vb);
    assert((c * c + s * s) * (va * va) + (c * c + s * s) * (vb * vb) == va * va + vb * vb + (c * c
        + s * s - 1) * (va * va + vb * vb)) by (nonlinear_arith);
    assert(w.0 == v.0);
    assert(w.1 == c * va + (-s) * vb);
    if b == 2 {
        assert(w.2 == s * va + c * vb);
        assert(w.3 == v.3);
    } else {
        assert(w.2 == v.2);
        assert(w.3 == s * va + c * vb);
    }
}

/// Rotating by -θ is the transpose of rotating by θ: R(cos θ, -sin θ) = R(cos θ, sin θ)ᵀ.
pub proof fn lemma_rotation_reverse_is_transpose(a: int, b: int, c: int, s: int, row: int, col: int)
    requires
        a != b,
    ensures
        rotation_matrix(a, b, c, -s, row, col) == rotation_matrix(a, b, c, s, col, row),
{
}

/// Invariance of the metric under a rotation: (Rᵀ η R)_{ij}, the contraction of
/// columns i and j of R, equals (cos²θ + sin²θ)·η_ij when i and j both lie in
/// the rotation plane {a, b}, and η_ij otherwise; with cos²θ + sin²θ = 1 this
/// is Rᵀ η R = η.
pub proof fn lemma_rotation_preserves_metric(a: int, b: int, c: int, s: int, i: int, j: int)
    requires
        (a == 1 && b == 2) || (a == 1 && b == 3),
        0 <= i < 4,
        0 <= j < 4,
    ensures
        minkowski_dot(rotation_column(a, b, c, s, i), rotation_column(a, b, c, s, j)) == (if (i
            == a || i == b) && (j == a || j == b) {
            (c * c + s * s) * eta(i, j)
        } else {
            eta(i, j)
        }),
{
    let q = c * c + s * s;
    let e = eta(i, j);
    lemma_rotation_columns(a, b, c, s);
    assert(-(c * c) - s * s == -q) by (nonlinear_arith)
        requires
            q == c * c + s * s,
    ;
    assert(-((-s) * (-s)) - c * c == -q) by (nonlinear_arith)
        requires
            q == c * c + s * s,
    ;
    assert(-(c * (-s)) - s * c == 0) by (nonlinear_arith);
    assert(-((-s) * c) - c * s == 0) by (nonlinear_arith);
    assert(q * e == (if e == 1 {
        q
    } else if e == -1 {
        -q
    } else {
        0
    })) by (nonlinear_arith)
        requires
            e == 0 || e == 1 || e == -1,
    ;
    assert(i == 0 || i == 1 || i == 2 || i == 3);
    assert(j == 0 || j == 1 || j == 2 || j == 3);
}

} // verus!
