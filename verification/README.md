# hyperlimit

Exact geometry predicates with certified outcomes, verified with Verus.

Coordinates are exact rationals (`exact::Scalar`). Every sign a predicate
depends on is evaluated exactly with `hyperreal`, and every result is a
`PredicateOutcome` that reports the decided value together with how it was
certified. Each public function states in its contract the exact value it
returns, as a spec function over the rational coordinates.

## Layout

- `src/exact.rs`: rational scalars, the rational model (`Rat`), and the
  trusted boundary to `hyperreal` arithmetic.
- `src/predicate.rs`, `src/classify.rs`, `src/resolve.rs`: outcomes, policies,
  provenance and the result enums.
- `src/geometry/`: points, structural facts, orientation determinants,
  planes (`plane.rs`) and the common-denominator algebra behind the laws
  (`cleared.rs`).
- `src/predicates/`: intervals, orientation, boxes, segments, triangles and
  tetrahedra, distances and spheres.

Laws that relate several predicates (symmetries, agreement of prepared and
fact-aware classifiers with the plain ones, the explicit oriented plane
against `orient3d`) are public proof functions named `law_*` next to the
predicates they speak of.
