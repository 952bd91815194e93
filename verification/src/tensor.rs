//! Tensor formulation: which Christoffel symbol Γ^μ_{νλ} of the Schwarzschild
//! metric, in coordinates (t, r, θ, φ), stands at each index triple.

use vstd::prelude::*;

verus! {

/// The non-zero Christoffel symbols of the Schwarzschild metric, each named by
/// its upper index and its (unordered) lower indices; `Zero` for all others.
#[derive(Debug, Clone, Copy, PartialEq, Eq, Structural)]
pub enum ChristoffelTerm {
    /// Γ^t_{tr} = Γ^t_{rt} = r_s / (2r²f)
    TimeTimeRadial,
    /// Γ^r_{tt} = r_s f / (2r²)
    RadialTimeTime,
    /// Γ^r_{rr} = -r_s / (2r²f)
    RadialRadialRadial,
    /// Γ^r_{θθ} = -(r - r_s)
    RadialThetaTheta,
    /// Γ^r_{φφ} = -(r - r_s) sin²θ
    RadialPhiPhi,
    /// Γ^θ_{rθ} = Γ^θ_{θr} = 1/r
    ThetaRadialTheta,
    /// Γ^θ_{φφ} = -sin θ cos θ
    ThetaPhiPhi,
    /// Γ^φ_{rφ} = Γ^φ_{φr} = 1/r
    PhiRadialPhi,
    /// Γ^φ_{θφ} = Γ^φ_{φθ} = cos θ / sin θ
    PhiThetaPhi,
    /// Every other component: 0.
    Zero,
}

/// True when {nu, lam} = {p, q} as unordered pairs.
pub open spec fn lower_pair(nu: int, lam: int, p: int, q: int) -> bool {
    (nu == p && lam == q) || (nu == q && lam == p)
}

/// The Christoffel symbol at Γ^mu_{nu lam}, indices ordered (t, r, θ, φ) = (0, 1, 2, 3).
pub open spec fn christoffel_layout(mu: int, nu: int, lam: int) -> ChristoffelTerm {
    if mu == 0 && lower_pair(nu, lam, 0, 1) {
        ChristoffelTerm::TimeTimeRadial
    } else if mu == 1 && nu == 0 && lam == 0 {
        ChristoffelTerm::RadialTimeTime
    } else if mu == 1 && nu == 1 && lam == 1 {
        ChristoffelTerm::RadialRadialRadial
    } else if mu == 1 && nu == 2 && lam == 2 {
        ChristoffelTerm::RadialThetaTheta
    } else if mu == 1 && nu == 3 && lam == 3 {
        ChristoffelTerm::RadialPhiPhi
    } else if mu == 2 && lower_pair(nu, lam, 1, 2) {
        ChristoffelTerm::ThetaRadialTheta
    } else if mu == 2 && nu == 3 && lam == 3 {
        ChristoffelTerm::ThetaPhiPhi
    } else if mu == 3 && lower_pair(nu, lam, 1, 3) {
        ChristoffelTerm::PhiRadialPhi
    } else if mu == 3 && lower_pair(nu, lam, 2, 3) {
        ChristoffelTerm::PhiThetaPhi
    } else {
        ChristoffelTerm::Zero
    }
}

/// The Christoffel symbol Γ^mu_{nu lam} of the Schwarzschild metric.
pub fn christoffel_term(mu: usize, nu: usize, lam: usize) -> (term: ChristoffelTerm)
    requires
        mu < 4,
        nu < 4,
        lam < 4,
    ensures
        term == christoffel_layout(mu as int, nu as int, lam as int),
{
    let pair_tr = (nu == 0 && lam == 1) || (nu == 1 && lam == 0);
    let pair_r_theta = (nu == 1 && lam == 2) || (nu == 2 && lam == 1);
    let pair_r_phi = (nu == 1 && lam == 3) || (nu == 3 && lam == 1);
    let pair_theta_phi = (nu == 2 && lam == 3) || (nu == 3 && lam == 2);
    if mu == 0 && pair_tr {
        ChristoffelTerm::TimeTimeRadial
    } else if mu == 1 && nu == 0 && lam == 0 {
        ChristoffelTerm::RadialTimeTime
    } else if mu == 1 && nu == 1 && lam == 1 {
        ChristoffelTerm::RadialRadialRadial
    } else if mu == 1 && nu == 2 && lam == 2 {
        ChristoffelTerm::RadialThetaTheta
    } else if mu == 1 && nu == 3 && lam == 3 {
        ChristoffelTerm::RadialPhiPhi
    } else if mu == 2 && pair_r_theta {
        ChristoffelTerm::ThetaRadialTheta
    } else if mu == 2 && nu == 3 && lam == 3 {
        ChristoffelTerm::ThetaPhiPhi
    } else if mu == 3 && pair_r_phi {
        ChristoffelTerm::PhiRadialPhi
    } else if mu == 3 && pair_theta_phi {
        ChristoffelTerm::PhiThetaPhi
    } else {
        ChristoffelTerm::Zero
    }
}

/// The Christoffel symbols are symmetric in their lower indices:
/// Γ^μ_{νλ} = Γ^μ_{λν}.
pub proof fn lemma_christoffel_symmetric(mu: int, nu: int, lam: int)
    ensures
        christoffel_layout(mu, nu, lam) == christoffel_layout(mu, lam, nu),
{
}

/// The thirteen non-zero Christoffel symbols of the Schwarzschild metric, listed
/// position by position; every other index triple in range holds `Zero`.
pub proof fn lemma_christoffel_table(mu: int, nu: int, lam: int)
    requires
        0 <= mu < 4,
        0 <= nu < 4,
        0 <= lam < 4,
    ensures
        christoffel_layout(0, 0, 1) == ChristoffelTerm::TimeTimeRadial,
        christoffel_layout(0, 1, 0) == ChristoffelTerm::TimeTimeRadial,
        christoffel_layout(1, 0, 0) == ChristoffelTerm::RadialTimeTime,
        christoffel_layout(1, 1, 1) == ChristoffelTerm::RadialRadialRadial,
        christoffel_layout(1, 2, 2) == ChristoffelTerm::RadialThetaTheta,
        christoffel_layout(1, 3, 3) == ChristoffelTerm::RadialPhiPhi,
        christoffel_layout(2, 1, 2) == ChristoffelTerm::ThetaRadialTheta,
        christoffel_layout(2, 2, 1) == ChristoffelTerm::ThetaRadialTheta,
        christoffel_layout(2, 3, 3) == ChristoffelTerm::ThetaPhiPhi,
        christoffel_layout(3, 1, 3) == ChristoffelTerm::PhiRadialPhi,
        christoffel_layout(3, 3, 1) == ChristoffelTerm::PhiRadialPhi,
        christoffel_layout(3, 2, 3) == ChristoffelTerm::PhiThetaPhi,
        christoffel_layout(3, 3, 2) == ChristoffelTerm::PhiThetaPhi,
        christoffel_layout(mu, nu, lam) != ChristoffelTerm::Zero <==> {
            ||| (mu, nu, lam) == (0int, 0int, 1int)
            ||| (mu, nu, lam) == (0int, 1int, 0int)
            ||| (mu, nu, lam) == (1int, 0int, 0int)
            ||| (mu, nu, lam) == (1int, 1int, 1int)
            ||| (mu, nu, lam) == (1int, 2int, 2int)
            ||| (mu, nu, lam) == (1int, 3int, 3int)
            ||| (mu, nu, lam) == (2int, 1int, 2int)
            ||| (mu, nu, lam) == (2int, 2int, 1int)
            ||| (mu, nu, lam) == (2int, 3int, 3int)
            ||| (mu, nu, lam) == (3int, 1int, 3int)
            ||| (mu, nu, lam) == (3int, 3int, 1int)
            ||| (mu, nu, lam) == (3int, 2int, 3int)
            ||| (mu, nu, lam) == (3int, 3int, 2int)
        },
{
}

} // verus!
