# prodef

Probability density functions (constant, uniform, log-uniform, cosine,
normal, lognormal, their products, multivariate normal, Kent and particle
densities) with domains, truncation and sampling.

The library in `src/` holds everything about the densities that is not
floating-point arithmetic, with proved contracts and laws. It is generic over the
scalar type `T`; its contracts speak of `T`'s order and of small integer
constants in `T`, and hold wherever `T` follows its comparison
specification (the integer types do; floating point, with NaN, is not
specified to).

- `domain`: unbounded, hypercube, ball and sphere domains; containment and
  clamping on hypercubes, with the laws that clamping lands inside the
  domain, keeps samples already inside, and is idempotent.
- `univariate`: the univariate densities, their parameter checks and the
  invariants the checks establish (ordered bounds, positive scale).
- `multivariate`: products of univariate densities and their domains.
- `sampling`: the decisions of rejection sampling (accept, retry, clamp,
  give up) and of Metropolis-Hastings steps, with laws about whole runs.
- `particle`: choosing a particle from running weight sums.
- `pytypes`: named, dynamically dimensioned forms of the densities.
- `order`: how the scalar type is ordered.

`app/` holds the floating-point side: density values, moments, random
draws, the multivariate normal's linear algebra (nalgebra), the Kent and
particle densities, and serialised forms (serde). `tests/` exercises the
library.
