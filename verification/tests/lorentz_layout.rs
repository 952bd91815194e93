use spacetime_rs::lorentz::{
    boost_entry, rotation_xy_entry, rotation_xz_entry, Axis, BoostEntry, RotationEntry,
};

fn boost_table(axis: Axis) -> Vec<Vec<BoostEntry>> {
    (0..4).map(|r| (0..4).map(|c| boost_entry(axis, r, c)).collect()).collect()
}

#[test]
fn axis_components_follow_ct_x_y_z_order() {
    assert_eq!(Axis::X.component(), 1);
    assert_eq!(Axis::Y.component(), 2);
    assert_eq!(Axis::Z.component(), 3);
}

#[test]
fn boost_along_x_layout() {
    let expected = vec![
        vec![BoostEntry::Gamma, BoostEntry::NegGammaBeta, BoostEntry::Zero, BoostEntry::Zero],
        vec![BoostEntry::NegGammaBeta, BoostEntry::Gamma, BoostEntry::Zero, BoostEntry::Zero],
        vec![BoostEntry::Zero, BoostEntry::Zero, BoostEntry::One, BoostEntry::Zero],
        vec![BoostEntry::Zero, BoostEntry::Zero, BoostEntry::Zero, BoostEntry::One],
    ];
    assert_eq!(boost_table(Axis::X), expected);
}

#[test]
fn boost_along_y_layout() {
    let expected = vec![
        vec![BoostEntry::Gamma, BoostEntry::Zero, BoostEntry::NegGammaBeta, BoostEntry::Zero],
        vec![BoostEntry::Zero, BoostEntry::One, BoostEntry::Zero, BoostEntry::Zero],
        vec![BoostEntry::NegGammaBeta, BoostEntry::Zero, BoostEntry::Gamma, BoostEntry::Zero],
        vec![BoostEntry::Zero, BoostEntry::Zero, BoostEntry::Zero, BoostEntry::One],
    ];
    assert_eq!(boost_table(Axis::Y), expected);
}

#[test]
fn boost_along_z_layout() {
    let expected = vec![
        vec![BoostEntry::Gamma, BoostEntry::Zero, BoostEntry::Zero, BoostEntry::NegGammaBeta],
        vec![BoostEntry::Zero, BoostEntry::One, BoostEntry::Zero, BoostEntry::Zero],
        vec![BoostEntry::Zero, BoostEntry::Zero, BoostEntry::One, BoostEntry::Zero],
        vec![BoostEntry::NegGammaBeta, BoostEntry::Zero, BoostEntry::Zero, BoostEntry::Gamma],
    ];
    assert_eq!(boost_table(Axis::Z), expected);
}

#[test]
fn boost_layouts_are_symmetric() {
    for axis in [Axis::X, Axis::Y, Axis::Z] {
        for r in 0..4 {
            for c in 0..4 {
                assert_eq!(boost_entry(axis, r, c), boost_entry(axis, c, r));
            }
        }
    }
}

#[test]
fn boost_leaves_transverse_rows_as_unit_rows() {
    // Along x, the y and z rows are unit rows.
    for j in [2usize, 3] {
        for c in 0..4 {
            let expected = if c == j { BoostEntry::One } else { BoostEntry::Zero };
            assert_eq!(boost_entry(Axis::X, j, c), expected);
        }
    }
}

#[test]
fn boost_with_numbers_preserves_interval_when_gamma_identity_holds() {
    // γ = 5/3, γβ = 4/3 for β = 0.8; scaled by 3: g = 5, gb = 4, g² - gb² = 9.
    // The layout applied to (ct, x, y, z) = (10, 6, 2, 1) with integer symbols:
    let (g, gb) = (5i64, 4i64);
    let v = [10i64, 6, 2, 1];
    let value = |e: BoostEntry| match e {
        BoostEntry::Gamma => g,
        BoostEntry::NegGammaBeta => -gb,
        BoostEntry::One => 1,
        BoostEntry::Zero => 0,
    };
    let w: Vec<i64> = (0..4)
        .map(|r| (0..4).map(|c| value(boost_entry(Axis::X, r, c)) * v[c]).sum())
        .collect();
    assert_eq!(w, vec![26, -10, 2, 1]);
    let interval = |u: &[i64]| u[0] * u[0] - u[1] * u[1] - u[2] * u[2] - u[3] * u[3];
    // s²(Λv) = s²(v) + (g² - gb² - 1)(t² - x²) = 59 + 8 * 64
    assert_eq!(interval(&v), 59);
    assert_eq!(interval(&w), 59 + 8 * 64);
}

#[test]
fn rotation_xy_layout() {
    let expected = vec![
        vec![RotationEntry::One, RotationEntry::Zero, RotationEntry::Zero, RotationEntry::Zero],
        vec![RotationEntry::Zero, RotationEntry::Cos, RotationEntry::NegSin, RotationEntry::Zero],
        vec![RotationEntry::Zero, RotationEntry::Sin, RotationEntry::Cos, RotationEntry::Zero],
        vec![RotationEntry::Zero, RotationEntry::Zero, RotationEntry::Zero, RotationEntry::One],
    ];
    let got: Vec<Vec<RotationEntry>> =
        (0..4).map(|r| (0..4).map(|c| rotation_xy_entry(r, c)).collect()).collect();
    assert_eq!(got, expected);
}

#[test]
fn rotation_xz_layout() {
    let expected = vec![
        vec![RotationEntry::One, RotationEntry::Zero, RotationEntry::Zero, RotationEntry::Zero],
        vec![RotationEntry::Zero, RotationEntry::Cos, RotationEntry::Zero, RotationEntry::NegSin],
        vec![RotationEntry::Zero, RotationEntry::Zero, RotationEntry::One, RotationEntry::Zero],
        vec![RotationEntry::Zero, RotationEntry::Sin, RotationEntry::Zero, RotationEntry::Cos],
    ];
    let got: Vec<Vec<RotationEntry>> =
        (0..4).map(|r| (0..4).map(|c| rotation_xz_entry(r, c)).collect()).collect();
    assert_eq!(got, expected);
}

#[test]
fn boost_layout_scales_metric_block_by_gamma_identity() {
    // Λᵀ η Λ with γ → 5, γβ → 4: the (0, k) block of η is scaled by 5² - 4² = 9.
    let (g, gb) = (5i64, 4i64);
    let eta = |m: usize, n: usize| -> i64 {
        if m != n {
            0
        } else if m == 0 {
            1
        } else {
            -1
        }
    };
    for axis in [Axis::X, Axis::Y, Axis::Z] {
        let k = axis.component();
        let lam = |r: usize, c: usize| match boost_entry(axis, r, c) {
            BoostEntry::Gamma => g,
            BoostEntry::NegGammaBeta => -gb,
            BoostEntry::One => 1,
            BoostEntry::Zero => 0,
        };
        for i in 0..4 {
            for j in 0..4 {
                let got: i64 = (0..4).map(|m| lam(m, i) * eta(m, m) * lam(m, j)).sum();
                let in_block = (i == 0 || i == k) && (j == 0 || j == k);
                let expected = if in_block { 9 * eta(i, j) } else { eta(i, j) };
                assert_eq!(got, expected);
            }
        }
    }
}

#[test]
fn rotation_layout_with_pythagorean_symbols() {
    // cos θ → 3, sin θ → 4 (so cos² + sin² → 25) on (ct, x, y, z) = (10, 5, 3, 2).
    let (c, s) = (3i64, 4i64);
    let v = [10i64, 5, 3, 2];
    let value = |e: RotationEntry| match e {
        RotationEntry::Cos => c,
        RotationEntry::Sin => s,
        RotationEntry::NegSin => -s,
        RotationEntry::One => 1,
        RotationEntry::Zero => 0,
    };
    let w: Vec<i64> = (0..4)
        .map(|r| (0..4).map(|q| value(rotation_xy_entry(r, q)) * v[q]).sum())
        .collect();
    assert_eq!(w, vec![10, 3, 29, 2]);
    let interval = |u: &[i64]| u[0] * u[0] - u[1] * u[1] - u[2] * u[2] - u[3] * u[3];
    // s²(Rv) = s²(v) - (25 - 1)(5² + 3²)
    assert_eq!(interval(&v), 62);
    assert_eq!(interval(&w), 62 - 24 * 34);
}

#[test]
fn boost_layout_with_opposite_gamma_beta_inverts() {
    // Λ(γ → 5, γβ → -4)·Λ(γ → 5, γβ → 4): identity off the boost block, 5² - 4² = 9 on its diagonal.
    let value = |e: BoostEntry, g: i64, gb: i64| match e {
        BoostEntry::Gamma => g,
        BoostEntry::NegGammaBeta => -gb,
        BoostEntry::One => 1,
        BoostEntry::Zero => 0,
    };
    for axis in [Axis::X, Axis::Y, Axis::Z] {
        let k = axis.component();
        for i in 0..4 {
            for j in 0..4 {
                let got: i64 = (0..4)
                    .map(|m| value(boost_entry(axis, i, m), 5, -4) * value(boost_entry(axis, m, j), 5, 4))
                    .sum();
                let expected = if i != j {
                    0
                } else if i == 0 || i == k {
                    9
                } else {
                    1
                };
                assert_eq!(got, expected);
            }
        }
    }
}

#[test]
fn rotation_layout_reversed_is_transpose_and_keeps_metric() {
    // With cos θ → 3, sin θ → 4: R(3, -4) = R(3, 4)ᵀ, and Rᵀ η R scales the plane block by 25.
    let value = |e: RotationEntry, c: i64, s: i64| match e {
        RotationEntry::Cos => c,
        RotationEntry::Sin => s,
        RotationEntry::NegSin => -s,
        RotationEntry::One => 1,
        RotationEntry::Zero => 0,
    };
    let eta = |m: usize| -> i64 { if m == 0 { 1 } else { -1 } };
    let layouts: [(fn(usize, usize) -> RotationEntry, usize, usize); 2] =
        [(rotation_xy_entry, 1, 2), (rotation_xz_entry, 1, 3)];
    for (layout, a, b) in layouts {
        for i in 0..4 {
            for j in 0..4 {
                assert_eq!(value(layout(i, j), 3, -4), value(layout(j, i), 3, 4));
                let got: i64 = (0..4)
                    .map(|m| value(layout(m, i), 3, 4) * eta(m) * value(layout(m, j), 3, 4))
                    .sum();
                let eta_ij = if i == j { eta(i) } else { 0 };
                let in_plane = (i == a || i == b) && (j == a || j == b);
                let expected = if in_plane { 25 * eta_ij } else { eta_ij };
                assert_eq!(got, expected);
            }
        }
    }
}
