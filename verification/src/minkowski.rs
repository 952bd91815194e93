//! The Minkowski metric η_μν in the signature convention (+, -, -, -).

use vstd::prelude::*;

verus! {

/// η_μν for the signature (+, -, -, -): 1 at (0, 0), -1 on the rest of the
/// diagonal, 0 off the diagonal.
pub open spec fn eta(mu: int, nu: int) -> int {
    if mu != nu {
        0
    } else if mu == 0 {
        1
    } else {
        -1
    }
}

/// Component η_μν of the Minkowski metric tensor.
pub fn minkowski_metric_entry(mu: usize, nu: usize) -> (e: i8)
    requires
        mu < 4,
        nu < 4,
    ensures
        e == eta(mu as int, nu as int),
{
    if mu != nu {
        0
    } else if mu == 0 {
        1
    } else {
        -1
    }
}

/// The metric is diagonal and symmetric: η_μν = η_νμ, and η_μν = 0 for μ ≠ ν.
pub proof fn lemma_eta_symmetric_diagonal(mu: int, nu: int)
    ensures
        eta(mu, nu) == eta(nu, mu),
        mu != nu ==> eta(mu, nu) == 0,
{
}

/// The diagonal written out: η = diag(1, -1, -1, -1) (off the diagonal it is 0,
/// by `lemma_eta_symmetric_diagonal`).
pub proof fn lemma_eta_diagonal()
    ensures
        eta(0, 0) == 1,
        eta(1, 1) == -1,
        eta(2, 2) == -1,
        eta(3, 3) == -1,
{
}

} // verus!
