# spacetime_rs

Special and general relativity: spacetime geometry, Lorentz transformations,
relativistic kinematics, energy-momentum, tensors, geodesics, gravitational
redshift and cosmology.

Layout:

- `src/` — the verified library (Verus). It holds the exact, index-level
  structure of the spacetime objects and the laws they obey:
  - `minkowski`: the metric signature η = diag(+1, -1, -1, -1);
  - `lorentz`: the boost axis, the layout of boost matrices (γ, -γβ, 1, 0) and
    of the xy/xz rotation matrices (cos θ, ±sin θ, 1, 0), with proofs that a
    boost is symmetric, leaves transverse components alone, preserves the
    interval, satisfies Λᵀ η Λ = η and is undone by the boost with opposite
    velocity, and that a rotation preserves the interval, satisfies
    Rᵀ η R = η and is undone by its transpose — each as an identity of polynomials in
    γ, γβ (resp. cos θ, sin θ) that reduces to invariance once γ² − (γβ)² = 1 (resp. cos² θ + sin² θ = 1);
  - `tensor`: which Schwarzschild Christoffel symbol stands at each index
    triple, with its symmetry in the lower indices.
- `app/` — the numeric functions, all on `f64`, which fill those layouts with
  numbers (through `nalgebra` matrices) and carry the `serde` derives.
- `tests/` — tests of the verified library.
