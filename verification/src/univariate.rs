//! Univariate densities: their parameters, the domains they are defined on,
//! and the checks that decide which parameters are valid.

use vstd::prelude::*;
use vstd::std_specs::convert::FromSpec;
use vstd::std_specs::convert::TryFromSpec;
use crate::domain::{Domain, DomainModel};
use crate::order::{comparable, converts, equatable, totally_ordered, num, constant, eq, le, lt, ge, gt};
use crate::domain::{bound_valid, clamp_one, within};

verus! {

/// A one-dimensional hypercube domain whose single dimension has the bounds `b`.
pub open spec fn interval<T>(b: (Option<T>, Option<T>)) -> DomainModel<T> {
    DomainModel::Hypercube(seq![b])
}

/// The bounds of a domain known to be a one-dimensional hypercube.
pub open spec fn interval_of<T>(d: DomainModel<T>) -> (Option<T>, Option<T>) {
    d->Hypercube_0[0]
}

/// A domain that is a one-dimensional hypercube.
pub open spec fn is_interval<T>(d: DomainModel<T>) -> bool {
    d is Hypercube && d->Hypercube_0.len() == 1
}

/// A domain that is a one-dimensional hypercube bounded on both sides.
pub open spec fn is_closed_interval<T>(d: DomainModel<T>) -> bool {
    is_interval(d) && interval_of(d).0 is Some && interval_of(d).1 is Some
}

/// A one-dimensional hypercube is the interval of its single bounds pair.
proof fn lemma_interval<T>(d: DomainModel<T>)
    requires
        is_interval(d),
    ensures
        d == interval(interval_of(d)),
{
    assert(d->Hypercube_0 =~= seq![interval_of(d)]);
}

/// A one-dimensional domain with the given bounds.
fn make_interval<T: Copy + PartialOrd + From<i8>>(lower: Option<T>, upper: Option<T>) -> (r: Domain<T>)
    ensures
        r@ == interval((lower, upper)),
{
    let mut v: Vec<(Option<T>, Option<T>)> = Vec::new();
    v.push((lower, upper));
    proof {
        assert(v@ =~= seq![(lower, upper)]);
    }
    Domain::new_mdomain(v)
}

/// The bounds of a one-dimensional hypercube domain.
fn bounds_of<T: Copy>(d: &Domain<T>) -> (r: (Option<T>, Option<T>))
    requires
        is_interval(d@),
    ensures
        r == interval_of(d@),
{
    match d {
        Domain::MDomain(b) => b[0],
        _ => (None, None),
    }
}

/// A constant (point mass) PDF.
#[derive(Debug)]
pub struct ConstantDensity<T>(Domain<T>);

impl<T> ConstantDensity<T> {
    #[verifier::type_invariant]
    spec fn wf(self) -> bool {
        is_closed_interval(self.0@) && interval_of(self.0@).0 == interval_of(self.0@).1
    }
}

impl<T> View for ConstantDensity<T> {
    /// The constant value.
    type V = T;

    closed spec fn view(&self) -> T {
        interval_of(self.0@).0->0
    }
}

impl<T: Copy + PartialOrd + From<i8>> ConstantDensity<T> {
    /// Creates a new [`ConstantDensity`] at `constant`.
    pub fn new(constant: T) -> (r: Self)
        ensures
            r@ == constant,
    {
        ConstantDensity(make_interval(Some(constant), Some(constant)))
    }

    /// Returns the constant value.
    pub fn constant(&self) -> (r: T)
        ensures
            r == self@,
    {
        proof {
            use_type_invariant(self);
        }
        bounds_of(&self.0).0.unwrap()
    }

    /// Returns the domain `[c, c]`.
    pub fn domain(&self) -> (r: Domain<T>)
        ensures
            r@ == interval((Some(self@), Some(self@))),
    {
        proof {
            use_type_invariant(self);
            lemma_interval(self.0@);
        }
        self.0.clone()
    }
}

impl<T: Copy> Clone for ConstantDensity<T> {
    fn clone(&self) -> (r: Self)
        ensures
            r@ == self@,
    {
        proof {
            use_type_invariant(self);
        }
        ConstantDensity(self.0.clone())
    }
}

/// A uniform PDF on `[minimum, maximum]`, with `minimum < maximum`.
#[derive(Debug)]
pub struct UniformDensity<T: PartialOrd + From<i8>>(Domain<T>);

impl<T: PartialOrd + From<i8>> UniformDensity<T> {
    #[verifier::type_invariant]
    spec fn wf(self) -> bool {
        &&& is_closed_interval(self.0@)
        &&& comparable::<T>() ==> !ge(interval_of(self.0@).0->0, interval_of(self.0@).1->0)
    }
}

impl<T: PartialOrd + From<i8>> View for UniformDensity<T> {
    /// The bounds `(minimum, maximum)`.
    type V = (T, T);

    closed spec fn view(&self) -> (T, T) {
        (interval_of(self.0@).0->0, interval_of(self.0@).1->0)
    }
}

impl<T: Copy + PartialOrd + From<i8>> UniformDensity<T> {
    /// Creates a new [`UniformDensity`] on `[a, b]`; `None` unless `a < b`.
    pub fn new(a: T, b: T) -> (r: Option<Self>)
        ensures
            comparable::<T>() ==> (r is Some <==> !ge(a, b)),
            r matches Some(d) ==> d@ == (a, b),
    {
        if a >= b {
            None
        } else {
            Some(UniformDensity(make_interval(Some(a), Some(b))))
        }
    }

    /// Returns the upper bound of the domain.
    pub fn maximum(&self) -> (r: T)
        ensures
            r == self@.1,
    {
        proof {
            use_type_invariant(self);
        }
        bounds_of(&self.0).1.unwrap()
    }

    /// Returns the lower bound of the domain.
    pub fn minimum(&self) -> (r: T)
        ensures
            r == self@.0,
    {
        proof {
            use_type_invariant(self);
        }
        bounds_of(&self.0).0.unwrap()
    }

    /// Returns the domain `[minimum, maximum]`.
    pub fn domain(&self) -> (r: Domain<T>)
        ensures
            r@ == interval((Some(self@.0), Some(self@.1))),
            totally_ordered::<T>() ==> lt(self@.0, self@.1),
    {
        proof {
            use_type_invariant(self);
            lemma_interval(self.0@);
        }
        self.0.clone()
    }
}

impl<T: Copy + PartialOrd + From<i8>> Clone for UniformDensity<T> {
    fn clone(&self) -> (r: Self)
        ensures
            r@ == self@,
    {
        proof {
            use_type_invariant(self);
        }
        UniformDensity(self.0.clone())
    }
}

/// A log-uniform PDF on `[minimum, maximum]`, with `0 < minimum < maximum`.
#[derive(Debug)]
pub struct LogUniformDensity<T: PartialOrd + From<i8>>(Domain<T>);

impl<T: PartialOrd + From<i8>> LogUniformDensity<T> {
    #[verifier::type_invariant]
    spec fn wf(self) -> bool {
        &&& is_closed_interval(self.0@)
        &&& comparable::<T>() ==> !ge(interval_of(self.0@).0->0, interval_of(self.0@).1->0)
        &&& comparable::<T>() && converts::<T>() ==> !le(interval_of(self.0@).0->0, num(0i8))
            && !le(interval_of(self.0@).1->0, num(0i8))
    }
}

impl<T: PartialOrd + From<i8>> View for LogUniformDensity<T> {
    /// The bounds `(minimum, maximum)`.
    type V = (T, T);

    closed spec fn view(&self) -> (T, T) {
        (interval_of(self.0@).0->0, interval_of(self.0@).1->0)
    }
}

impl<T: Copy + PartialOrd + From<i8>> LogUniformDensity<T> {
    /// Creates a new [`LogUniformDensity`] on `[a, b]`; `None` if `a >= b`,
    /// `a <= 0` or `b <= 0`.
    pub fn new(a: T, b: T) -> (r: Option<Self>)
        ensures
            comparable::<T>() && converts::<T>() ==> (r is Some <==> !(ge(a, b) || le(a, num(0i8))
                || le(b, num(0i8)))),
            r matches Some(d) ==> d@ == (a, b),
    {
        let zero: T = constant(0i8);
        if a >= b || a <= zero || b <= zero {
            None
        } else {
            Some(LogUniformDensity(make_interval(Some(a), Some(b))))
        }
    }

    /// Returns the upper bound of the domain.
    pub fn maximum(&self) -> (r: T)
        ensures
            r == self@.1,
    {
        proof {
            use_type_invariant(self);
        }
        bounds_of(&self.0).1.unwrap()
    }

    /// Returns the lower bound of the domain, which is positive.
    pub fn minimum(&self) -> (r: T)
        ensures
            r == self@.0,
            totally_ordered::<T>() && converts::<T>() ==> lt(num(0i8), r),
    {
        proof {
            use_type_invariant(self);
        }
        bounds_of(&self.0).0.unwrap()
    }

    /// Returns the domain `[minimum, maximum]`.
    pub fn domain(&self) -> (r: Domain<T>)
        ensures
            r@ == interval((Some(self@.0), Some(self@.1))),
            totally_ordered::<T>() ==> lt(self@.0, self@.1),
    {
        proof {
            use_type_invariant(self);
            lemma_interval(self.0@);
        }
        self.0.clone()
    }
}

impl<T: Copy + PartialOrd + From<i8>> Clone for LogUniformDensity<T> {
    fn clone(&self) -> (r: Self)
        ensures
            r@ == self@,
    {
        proof {
            use_type_invariant(self);
        }
        LogUniformDensity(self.0.clone())
    }
}

/// A cosine PDF on `[minimum, maximum]`, inside `(-pi/2, pi/2)`, with
/// `minimum < maximum`.
#[derive(Debug)]
pub struct CosineDensity<T: PartialOrd + From<i8>>(Domain<T>);

impl<T: PartialOrd + From<i8>> CosineDensity<T> {
    #[verifier::type_invariant]
    spec fn wf(self) -> bool {
        &&& is_closed_interval(self.0@)
        &&& comparable::<T>() ==> gt(interval_of(self.0@).1->0, interval_of(self.0@).0->0)
    }
}

impl<T: PartialOrd + From<i8>> View for CosineDensity<T> {
    /// The bounds `(minimum, maximum)`.
    type V = (T, T);

    closed spec fn view(&self) -> (T, T) {
        (interval_of(self.0@).0->0, interval_of(self.0@).1->0)
    }
}

impl<T: Copy + PartialOrd + From<i8>> CosineDensity<T> {
    /// Creates a new [`CosineDensity`] on `[minimum, maximum]`.
    ///
    /// `lower_limit` and `upper_limit` are `-pi/2` and `pi/2` in `T`;
    /// `sin_minimum` and `sin_maximum` are the sines of the two bounds.
    /// Returns `None` unless `lower_limit < minimum < maximum < upper_limit`
    /// and the two sines differ (degenerate ranges are rejected).
    pub fn new(
        minimum: T,
        maximum: T,
        lower_limit: T,
        upper_limit: T,
        sin_minimum: T,
        sin_maximum: T,
    ) -> (r: Option<Self>)
        ensures
            comparable::<T>() && equatable::<T>() ==> (r is Some <==> (gt(minimum, lower_limit)
                && lt(maximum, upper_limit) && gt(maximum, minimum) && !eq(
                sin_maximum,
                sin_minimum,
            ))),
            r matches Some(d) ==> d@ == (minimum, maximum),
    {
        let above = minimum > lower_limit;
        let below = maximum < upper_limit;
        let ordered = maximum > minimum;
        let distinct = sin_maximum != sin_minimum;
        if above && below && ordered && distinct {
            Some(CosineDensity(make_interval(Some(minimum), Some(maximum))))
        } else {
            None
        }
    }

    /// Returns the upper bound of the domain.
    pub fn maximum(&self) -> (r: T)
        ensures
            r == self@.1,
    {
        proof {
            use_type_invariant(self);
        }
        bounds_of(&self.0).1.unwrap()
    }

    /// Returns the lower bound of the domain.
    pub fn minimum(&self) -> (r: T)
        ensures
            r == self@.0,
    {
        proof {
            use_type_invariant(self);
        }
        bounds_of(&self.0).0.unwrap()
    }

    /// Returns the domain `[minimum, maximum]`.
    pub fn domain(&self) -> (r: Domain<T>)
        ensures
            r@ == interval((Some(self@.0), Some(self@.1))),
            totally_ordered::<T>() ==> lt(self@.0, self@.1),
    {
        proof {
            use_type_invariant(self);
            lemma_interval(self.0@);
        }
        self.0.clone()
    }
}

impl<T: Copy + PartialOrd + From<i8>> Clone for CosineDensity<T> {
    fn clone(&self) -> (r: Self)
        ensures
            r@ == self@,
    {
        proof {
            use_type_invariant(self);
        }
        CosineDensity(self.0.clone())
    }
}

/// A univariate normal PDF with a positive standard deviation, optionally
/// truncated to `[lower, upper]` (with `lower < upper` where both are given).
#[derive(Debug)]
pub struct NormalDensity<T: PartialOrd + From<i8>>(T, T, Domain<T>);

impl<T: PartialOrd + From<i8>> NormalDensity<T> {
    #[verifier::type_invariant]
    spec fn wf(self) -> bool {
        &&& is_interval(self.2@)
        &&& comparable::<T>() ==> !(interval_of(self.2@).0 is Some && interval_of(self.2@).1 is Some
            && ge(interval_of(self.2@).0->0, interval_of(self.2@).1->0))
        &&& comparable::<T>() && converts::<T>() ==> !le(self.1, num(0i8))
    }
}

impl<T: PartialOrd + From<i8>> View for NormalDensity<T> {
    /// `(mean, standard deviation, lower bound, upper bound)`.
    type V = (T, T, Option<T>, Option<T>);

    closed spec fn view(&self) -> (T, T, Option<T>, Option<T>) {
        (self.0, self.1, interval_of(self.2@).0, interval_of(self.2@).1)
    }
}

/// The center that [`NormalDensity::mean`] reports: the nominal mean `mu`
/// when it lies within the bounds; otherwise the bound on its side.
pub open spec fn normal_center<T: PartialOrd>(mu: T, lower: Option<T>, upper: Option<T>) -> T {
    match (lower, upper) {
        (Some(min), Some(max)) => if le(min, mu) && le(mu, max) {
            mu
        } else if lt(mu, min) {
            min
        } else {
            max
        },
        (Some(min), None) => if lt(mu, min) {
            min
        } else {
            mu
        },
        (None, Some(max)) => if gt(mu, max) {
            max
        } else {
            mu
        },
        (None, None) => mu,
    }
}

impl<T: Copy + PartialOrd + From<i8>> NormalDensity<T> {
    /// Creates a new [`NormalDensity`] with the given mean and standard
    /// deviation, truncated to the optional bounds.
    ///
    /// Returns `None` if `std_dev <= 0`, or if both bounds are given and
    /// `lower_bound >= upper_bound`.
    pub fn new(mean: T, std_dev: T, lower_bound: Option<T>, upper_bound: Option<T>) -> (r: Option<
        Self,
    >)
        ensures
            comparable::<T>() && converts::<T>() ==> (r is Some <==> (!le(std_dev, num(0i8)) && !(
            lower_bound is Some && upper_bound is Some && ge(
                lower_bound->0,
                upper_bound->0,
            )))),
            r matches Some(d) ==> d@ == (mean, std_dev, lower_bound, upper_bound),
    {
        let zero: T = constant(0i8);
        if std_dev <= zero {
            return None;
        }
        if let (Some(lower), Some(upper)) = (lower_bound, upper_bound) {
            if lower >= upper {
                return None;
            }
        }
        Some(NormalDensity(mean, std_dev, make_interval(lower_bound, upper_bound)))
    }

    /// Returns the upper bound of the domain, if any.
    pub fn maximum(&self) -> (r: Option<T>)
        ensures
            r == self@.3,
    {
        proof {
            use_type_invariant(self);
        }
        bounds_of(&self.2).1
    }

    /// Returns the lower bound of the domain, if any.
    pub fn minimum(&self) -> (r: Option<T>)
        ensures
            r == self@.2,
    {
        proof {
            use_type_invariant(self);
        }
        bounds_of(&self.2).0
    }

    /// Returns the mean parameter (the location of the untruncated normal).
    pub fn mu(&self) -> (r: T)
        ensures
            r == self@.0,
    {
        self.0
    }

    /// Returns the standard deviation parameter, which is positive.
    pub fn sigma(&self) -> (r: T)
        ensures
            r == self@.1,
            totally_ordered::<T>() && converts::<T>() ==> lt(num(0i8), r),
    {
        proof {
            use_type_invariant(self);
        }
        self.1
    }

    /// Returns the distribution's center: the mean parameter when it lies
    /// within the domain, otherwise the bound on its side (a domain-aware
    /// stand-in for the mean of the truncated distribution).
    pub fn mean(&self) -> (r: T)
        ensures
            comparable::<T>() ==> r == normal_center(self@.0, self@.2, self@.3),
    {
        let mu = self.0;
        let lower_bound = self.minimum();
        let upper_bound = self.maximum();
        if let (Some(min), Some(max)) = (lower_bound, upper_bound) {
            if min <= mu && mu <= max {
                return mu;
            }
            if mu < min {
                return min;
            } else {
                return max;
            }
        }
        if let Some(min) = lower_bound {
            if mu < min {
                return min;
            }
        }
        if let Some(max) = upper_bound {
            if mu > max {
                return max;
            }
        }
        mu
    }

    /// Returns the domain `[lower, upper]` (each side possibly unbounded).
    pub fn domain(&self) -> (r: Domain<T>)
        ensures
            r@ == interval((self@.2, self@.3)),
            totally_ordered::<T>() ==> bound_valid((self@.2, self@.3)),
            totally_ordered::<T>() && self@.2 is Some && self@.3 is Some ==> lt(
                self@.2->0,
                self@.3->0,
            ),
    {
        proof {
            use_type_invariant(self);
            lemma_interval(self.2@);
        }
        self.2.clone()
    }
}

impl<T: Copy + PartialOrd + From<i8>> Clone for NormalDensity<T> {
    fn clone(&self) -> (r: Self)
        ensures
            r@ == self@,
    {
        proof {
            use_type_invariant(self);
        }
        NormalDensity(self.0, self.1, self.2.clone())
    }
}

/// The center of a normal density is its mean parameter clamped to the
/// domain, and so lies within the domain (for consistent bounds and a totally
/// ordered `T`).
pub proof fn lemma_normal_center_is_clamped<T: PartialOrd>(
    mu: T,
    lower: Option<T>,
    upper: Option<T>,
)
    requires
        totally_ordered::<T>(),
        bound_valid((lower, upper)),
    ensures
        normal_center(mu, lower, upper) == clamp_one((lower, upper), mu),
        within((lower, upper), normal_center(mu, lower, upper)),
{
}

/// A lognormal PDF with a positive `sigma`, truncated to
/// `[minimum, maximum]` with `0 <= minimum < maximum`.
#[derive(Debug)]
pub struct LognormalDensity<T: PartialOrd + From<i8>>(T, T, Domain<T>);

impl<T: PartialOrd + From<i8>> LognormalDensity<T> {
    #[verifier::type_invariant]
    spec fn wf(self) -> bool {
        &&& is_closed_interval(self.2@)
        &&& comparable::<T>() ==> !ge(interval_of(self.2@).0->0, interval_of(self.2@).1->0)
        &&& comparable::<T>() && converts::<T>() ==> !le(self.1, num(0i8)) && !lt(
            interval_of(self.2@).0->0,
            num(0i8),
        )
    }
}

impl<T: PartialOrd + From<i8>> View for LognormalDensity<T> {
    /// `(mu, sigma, minimum, maximum)`.
    type V = (T, T, T, T);

    closed spec fn view(&self) -> (T, T, T, T) {
        (self.0, self.1, interval_of(self.2@).0->0, interval_of(self.2@).1->0)
    }
}

impl<T: Copy + PartialOrd + From<i8>> LognormalDensity<T> {
    /// Creates a new [`LognormalDensity`].
    ///
    /// Returns `None` if `sigma <= 0`, `lower_bound >= upper_bound` or
    /// `lower_bound < 0`.
    pub fn new(mu: T, sigma: T, lower_bound: T, upper_bound: T) -> (r: Option<Self>)
        ensures
            comparable::<T>() && converts::<T>() ==> (r is Some <==> (!le(sigma, num(0i8)) && !(ge(
                lower_bound,
                upper_bound,
            ) || lt(lower_bound, num(0i8))))),
            r matches Some(d) ==> d@ == (mu, sigma, lower_bound, upper_bound),
    {
        let zero: T = constant(0i8);
        if sigma <= zero {
            return None;
        }
        if lower_bound >= upper_bound || lower_bound < zero {
            return None;
        }
        Some(LognormalDensity(mu, sigma, make_interval(Some(lower_bound), Some(upper_bound))))
    }

    /// Returns the upper bound of the domain.
    pub fn maximum(&self) -> (r: T)
        ensures
            r == self@.3,
    {
        proof {
            use_type_invariant(self);
        }
        bounds_of(&self.2).1.unwrap()
    }

    /// Returns the lower bound of the domain, which is not negative.
    pub fn minimum(&self) -> (r: T)
        ensures
            r == self@.2,
            totally_ordered::<T>() && converts::<T>() ==> le(num(0i8), r),
    {
        proof {
            use_type_invariant(self);
        }
        bounds_of(&self.2).0.unwrap()
    }

    /// Returns the mean of the underlying normal distribution (`mu`).
    pub fn mu(&self) -> (r: T)
        ensures
            r == self@.0,
    {
        self.0
    }

    /// Returns the standard deviation of the underlying normal distribution
    /// (`sigma`), which is positive.
    pub fn sigma(&self) -> (r: T)
        ensures
            r == self@.1,
            totally_ordered::<T>() && converts::<T>() ==> lt(num(0i8), r),
    {
        proof {
            use_type_invariant(self);
        }
        self.1
    }

    /// Returns the domain `[minimum, maximum]`.
    pub fn domain(&self) -> (r: Domain<T>)
        ensures
            r@ == interval((Some(self@.2), Some(self@.3))),
            totally_ordered::<T>() ==> lt(self@.2, self@.3),
    {
        proof {
            use_type_invariant(self);
            lemma_interval(self.2@);
        }
        self.2.clone()
    }
}

impl<T: Copy + PartialOrd + From<i8>> Clone for LognormalDensity<T> {
    fn clone(&self) -> (r: Self)
        ensures
            r@ == self@,
    {
        proof {
            use_type_invariant(self);
        }
        LognormalDensity(self.0, self.1, self.2.clone())
    }
}

/// A univariate PDF of any of the supported kinds.
#[derive(Debug)]
pub enum UnivariateDensity<T: PartialOrd + From<i8>> {
    /// A constant PDF.
    Constant(ConstantDensity<T>),
    /// A cosine PDF.
    Cosine(CosineDensity<T>),
    /// A lognormal PDF.
    Lognormal(LognormalDensity<T>),
    /// A log-uniform PDF.
    Loguniform(LogUniformDensity<T>),
    /// A normal PDF.
    Normal(NormalDensity<T>),
    /// A uniform PDF.
    Uniform(UniformDensity<T>),
}

impl<T: PartialOrd + From<i8>> UnivariateDensity<T> {
    /// The (lower, upper) bounds of the density's domain.
    pub open spec fn bounds(self) -> (Option<T>, Option<T>) {
        match self {
            UnivariateDensity::Constant(pdf) => (Some(pdf@), Some(pdf@)),
            UnivariateDensity::Cosine(pdf) => (Some(pdf@.0), Some(pdf@.1)),
            UnivariateDensity::Lognormal(pdf) => (Some(pdf@.2), Some(pdf@.3)),
            UnivariateDensity::Loguniform(pdf) => (Some(pdf@.0), Some(pdf@.1)),
            UnivariateDensity::Normal(pdf) => (pdf@.2, pdf@.3),
            UnivariateDensity::Uniform(pdf) => (Some(pdf@.0), Some(pdf@.1)),
        }
    }

    /// Two univariate densities of the same kind with the same parameters.
    pub open spec fn same(self, other: Self) -> bool {
        match (self, other) {
            (UnivariateDensity::Constant(a), UnivariateDensity::Constant(b)) => a@ == b@,
            (UnivariateDensity::Cosine(a), UnivariateDensity::Cosine(b)) => a@ == b@,
            (UnivariateDensity::Lognormal(a), UnivariateDensity::Lognormal(b)) => a@ == b@,
            (UnivariateDensity::Loguniform(a), UnivariateDensity::Loguniform(b)) => a@ == b@,
            (UnivariateDensity::Normal(a), UnivariateDensity::Normal(b)) => a@ == b@,
            (UnivariateDensity::Uniform(a), UnivariateDensity::Uniform(b)) => a@ == b@,
            _ => false,
        }
    }
}

impl<T: Copy + PartialOrd + From<i8>> UnivariateDensity<T> {
    /// Returns the inner [`ConstantDensity`] if this is a `UnivariateDensity::Constant`, `None` otherwise.
    pub fn as_constant(&self) -> (r: Option<&ConstantDensity<T>>)
        ensures
            r is Some <==> self is Constant,
            r matches Some(pdf) ==> *pdf == self->Constant_0,
    {
        match self {
            UnivariateDensity::Constant(pdf) => Some(pdf),
            _ => None,
        }
    }

    /// Returns the inner [`CosineDensity`] if this is a `UnivariateDensity::Cosine`, `None` otherwise.
    pub fn as_cosine(&self) -> (r: Option<&CosineDensity<T>>)
        ensures
            r is Some <==> self is Cosine,
            r matches Some(pdf) ==> *pdf == self->Cosine_0,
    {
        match self {
            UnivariateDensity::Cosine(pdf) => Some(pdf),
            _ => None,
        }
    }

    /// Returns the inner [`LogUniformDensity`] if this is a `UnivariateDensity::Loguniform`, `None` otherwise.
    pub fn as_loguniform(&self) -> (r: Option<&LogUniformDensity<T>>)
        ensures
            r is Some <==> self is Loguniform,
            r matches Some(pdf) ==> *pdf == self->Loguniform_0,
    {
        match self {
            UnivariateDensity::Loguniform(pdf) => Some(pdf),
            _ => None,
        }
    }

    /// Returns the inner [`NormalDensity`] if this is a `UnivariateDensity::Normal`, `None` otherwise.
    pub fn as_normal(&self) -> (r: Option<&NormalDensity<T>>)
        ensures
            r is Some <==> self is Normal,
            r matches Some(pdf) ==> *pdf == self->Normal_0,
    {
        match self {
            UnivariateDensity::Normal(pdf) => Some(pdf),
            _ => None,
        }
    }

    /// Returns the inner [`UniformDensity`] if this is a `UnivariateDensity::Uniform`, `None` otherwise.
    pub fn as_uniform(&self) -> (r: Option<&UniformDensity<T>>)
        ensures
            r is Some <==> self is Uniform,
            r matches Some(pdf) ==> *pdf == self->Uniform_0,
    {
        match self {
            UnivariateDensity::Uniform(pdf) => Some(pdf),
            _ => None,
        }
    }

    /// Returns the domain of the density: the one-dimensional hypercube of
    /// its bounds.
    pub fn domain(&self) -> (r: Domain<T>)
        ensures
            r@ == interval(self.bounds()),
            totally_ordered::<T>() ==> bound_valid(self.bounds()),
            self matches UnivariateDensity::Constant(pdf) ==> r@ == interval((Some(pdf@), Some(pdf@))),
            self matches UnivariateDensity::Cosine(pdf) ==> r@ == interval((Some(pdf@.0), Some(pdf@.1))),
            self matches UnivariateDensity::Lognormal(pdf) ==> r@ == interval(
                (Some(pdf@.2), Some(pdf@.3)),
            ),
            self matches UnivariateDensity::Loguniform(pdf) ==> r@ == interval(
                (Some(pdf@.0), Some(pdf@.1)),
            ),
            self matches UnivariateDensity::Normal(pdf) ==> r@ == interval((pdf@.2, pdf@.3)),
            self matches UnivariateDensity::Uniform(pdf) ==> r@ == interval((Some(pdf@.0), Some(pdf@.1))),
            totally_ordered::<T>() && !(self is Constant) && self.bounds().0 is Some
                && self.bounds().1 is Some ==> lt(self.bounds().0->0, self.bounds().1->0),
    {
        match self {
            UnivariateDensity::Constant(pdf) => pdf.domain(),
            UnivariateDensity::Cosine(pdf) => pdf.domain(),
            UnivariateDensity::Lognormal(pdf) => pdf.domain(),
            UnivariateDensity::Loguniform(pdf) => pdf.domain(),
            UnivariateDensity::Normal(pdf) => pdf.domain(),
            UnivariateDensity::Uniform(pdf) => pdf.domain(),
        }
    }
}

impl<T: Copy + PartialOrd + From<i8>> Clone for UnivariateDensity<T> {
    fn clone(&self) -> (r: Self)
        ensures
            r.same(*self),
            r.bounds() == self.bounds(),
            self matches UnivariateDensity::Constant(a) ==> (r matches UnivariateDensity::Constant(
                b,
            ) && b@ == a@),
            self matches UnivariateDensity::Cosine(a) ==> (r matches UnivariateDensity::Cosine(b)
                && b@ == a@),
            self matches UnivariateDensity::Lognormal(a) ==> (r matches UnivariateDensity::Lognormal(
                b,
            ) && b@ == a@),
            self matches UnivariateDensity::Loguniform(a) ==> (
            r matches UnivariateDensity::Loguniform(b) && b@ == a@),
            self matches UnivariateDensity::Normal(a) ==> (r matches UnivariateDensity::Normal(b)
                && b@ == a@),
            self matches UnivariateDensity::Uniform(a) ==> (r matches UnivariateDensity::Uniform(b)
                && b@ == a@),
    {
        match self {
            UnivariateDensity::Constant(pdf) => UnivariateDensity::Constant(pdf.clone()),
            UnivariateDensity::Cosine(pdf) => UnivariateDensity::Cosine(pdf.clone()),
            UnivariateDensity::Lognormal(pdf) => UnivariateDensity::Lognormal(pdf.clone()),
            UnivariateDensity::Loguniform(pdf) => UnivariateDensity::Loguniform(pdf.clone()),
            UnivariateDensity::Normal(pdf) => UnivariateDensity::Normal(pdf.clone()),
            UnivariateDensity::Uniform(pdf) => UnivariateDensity::Uniform(pdf.clone()),
        }
    }
}

impl<T: PartialOrd + From<i8>> From<ConstantDensity<T>> for UnivariateDensity<T> {
    fn from(value: ConstantDensity<T>) -> (r: Self) {
        UnivariateDensity::Constant(value)
    }
}

impl<T: PartialOrd + From<i8>> vstd::std_specs::convert::FromSpecImpl<ConstantDensity<T>> for UnivariateDensity<T> {
    open spec fn obeys_from_spec() -> bool {
        true
    }

    open spec fn from_spec(value: ConstantDensity<T>) -> Self {
        UnivariateDensity::Constant(value)
    }
}

impl<T: PartialOrd + From<i8>> From<CosineDensity<T>> for UnivariateDensity<T> {
    fn from(value: CosineDensity<T>) -> (r: Self) {
        UnivariateDensity::Cosine(value)
    }
}

impl<T: PartialOrd + From<i8>> vstd::std_specs::convert::FromSpecImpl<CosineDensity<T>> for UnivariateDensity<T> {
    open spec fn obeys_from_spec() -> bool {
        true
    }

    open spec fn from_spec(value: CosineDensity<T>) -> Self {
        UnivariateDensity::Cosine(value)
    }
}

impl<T: PartialOrd + From<i8>> From<LognormalDensity<T>> for UnivariateDensity<T> {
    fn from(value: LognormalDensity<T>) -> (r: Self) {
        UnivariateDensity::Lognormal(value)
    }
}

impl<T: PartialOrd + From<i8>> vstd::std_specs::convert::FromSpecImpl<LognormalDensity<T>> for UnivariateDensity<T> {
    open spec fn obeys_from_spec() -> bool {
        true
    }

    open spec fn from_spec(value: LognormalDensity<T>) -> Self {
        UnivariateDensity::Lognormal(value)
    }
}

impl<T: PartialOrd + From<i8>> From<LogUniformDensity<T>> for UnivariateDensity<T> {
    fn from(value: LogUniformDensity<T>) -> (r: Self) {
        UnivariateDensity::Loguniform(value)
    }
}

impl<T: PartialOrd + From<i8>> vstd::std_specs::convert::FromSpecImpl<LogUniformDensity<T>> for UnivariateDensity<T> {
    open spec fn obeys_from_spec() -> bool {
        true
    }

    open spec fn from_spec(value: LogUniformDensity<T>) -> Self {
        UnivariateDensity::Loguniform(value)
    }
}

impl<T: PartialOrd + From<i8>> From<NormalDensity<T>> for UnivariateDensity<T> {
    fn from(value: NormalDensity<T>) -> (r: Self) {
        UnivariateDensity::Normal(value)
    }
}

impl<T: PartialOrd + From<i8>> vstd::std_specs::convert::FromSpecImpl<NormalDensity<T>> for UnivariateDensity<T> {
    open spec fn obeys_from_spec() -> bool {
        true
    }

    open spec fn from_spec(value: NormalDensity<T>) -> Self {
        UnivariateDensity::Normal(value)
    }
}

impl<T: PartialOrd + From<i8>> From<UniformDensity<T>> for UnivariateDensity<T> {
    fn from(value: UniformDensity<T>) -> (r: Self) {
        UnivariateDensity::Uniform(value)
    }
}

impl<T: PartialOrd + From<i8>> vstd::std_specs::convert::FromSpecImpl<UniformDensity<T>> for UnivariateDensity<T> {
    open spec fn obeys_from_spec() -> bool {
        true
    }

    open spec fn from_spec(value: UniformDensity<T>) -> Self {
        UnivariateDensity::Uniform(value)
    }
}

impl<T: PartialOrd + From<i8>> TryFrom<UnivariateDensity<T>> for ConstantDensity<T> {
    type Error = ();

    fn try_from(value: UnivariateDensity<T>) -> (r: Result<Self, ()>) {
        match value {
            UnivariateDensity::Constant(pdf) => Ok(pdf),
            _ => Err(()),
        }
    }
}

impl<T: PartialOrd + From<i8>> vstd::std_specs::convert::TryFromSpecImpl<UnivariateDensity<T>> for ConstantDensity<T> {
    open spec fn obeys_try_from_spec() -> bool {
        true
    }

    open spec fn try_from_spec(value: UnivariateDensity<T>) -> Result<Self, ()> {
        match value {
            UnivariateDensity::Constant(pdf) => Ok(pdf),
            _ => Err(()),
        }
    }
}

impl<T: PartialOrd + From<i8>> TryFrom<UnivariateDensity<T>> for CosineDensity<T> {
    type Error = ();

    fn try_from(value: UnivariateDensity<T>) -> (r: Result<Self, ()>) {
        match value {
            UnivariateDensity::Cosine(pdf) => Ok(pdf),
            _ => Err(()),
        }
    }
}

impl<T: PartialOrd + From<i8>> vstd::std_specs::convert::TryFromSpecImpl<UnivariateDensity<T>> for CosineDensity<T> {
    open spec fn obeys_try_from_spec() -> bool {
        true
    }

    open spec fn try_from_spec(value: UnivariateDensity<T>) -> Result<Self, ()> {
        match value {
            UnivariateDensity::Cosine(pdf) => Ok(pdf),
            _ => Err(()),
        }
    }
}

impl<T: PartialOrd + From<i8>> TryFrom<UnivariateDensity<T>> for LognormalDensity<T> {
    type Error = ();

    fn try_from(value: UnivariateDensity<T>) -> (r: Result<Self, ()>) {
        match value {
            UnivariateDensity::Lognormal(pdf) => Ok(pdf),
            _ => Err(()),
        }
    }
}

impl<T: PartialOrd + From<i8>> vstd::std_specs::convert::TryFromSpecImpl<UnivariateDensity<T>> for LognormalDensity<T> {
    open spec fn obeys_try_from_spec() -> bool {
        true
    }

    open spec fn try_from_spec(value: UnivariateDensity<T>) -> Result<Self, ()> {
        match value {
            UnivariateDensity::Lognormal(pdf) => Ok(pdf),
            _ => Err(()),
        }
    }
}

impl<T: PartialOrd + From<i8>> TryFrom<UnivariateDensity<T>> for LogUniformDensity<T> {
    type Error = ();

    fn try_from(value: UnivariateDensity<T>) -> (r: Result<Self, ()>) {
        match value {
            UnivariateDensity::Loguniform(pdf) => Ok(pdf),
            _ => Err(()),
        }
    }
}

impl<T: PartialOrd + From<i8>> vstd::std_specs::convert::TryFromSpecImpl<UnivariateDensity<T>> for LogUniformDensity<T> {
    open spec fn obeys_try_from_spec() -> bool {
        true
    }

    open spec fn try_from_spec(value: UnivariateDensity<T>) -> Result<Self, ()> {
        match value {
            UnivariateDensity::Loguniform(pdf) => Ok(pdf),
            _ => Err(()),
        }
    }
}

impl<T: PartialOrd + From<i8>> TryFrom<UnivariateDensity<T>> for NormalDensity<T> {
    type Error = ();

    fn try_from(value: UnivariateDensity<T>) -> (r: Result<Self, ()>) {
        match value {
            UnivariateDensity::Normal(pdf) => Ok(pdf),
            _ => Err(()),
        }
    }
}

impl<T: PartialOrd + From<i8>> vstd::std_specs::convert::TryFromSpecImpl<UnivariateDensity<T>> for NormalDensity<T> {
    open spec fn obeys_try_from_spec() -> bool {
        true
    }

    open spec fn try_from_spec(value: UnivariateDensity<T>) -> Result<Self, ()> {
        match value {
            UnivariateDensity::Normal(pdf) => Ok(pdf),
            _ => Err(()),
        }
    }
}

impl<T: PartialOrd + From<i8>> TryFrom<UnivariateDensity<T>> for UniformDensity<T> {
    type Error = ();

    fn try_from(value: UnivariateDensity<T>) -> (r: Result<Self, ()>) {
        match value {
            UnivariateDensity::Uniform(pdf) => Ok(pdf),
            _ => Err(()),
        }
    }
}

impl<T: PartialOrd + From<i8>> vstd::std_specs::convert::TryFromSpecImpl<UnivariateDensity<T>> for UniformDensity<T> {
    open spec fn obeys_try_from_spec() -> bool {
        true
    }

    open spec fn try_from_spec(value: UnivariateDensity<T>) -> Result<Self, ()> {
        match value {
            UnivariateDensity::Uniform(pdf) => Ok(pdf),
            _ => Err(()),
        }
    }
}

/// Wrapping a density into a [`UnivariateDensity`] and taking it back out as
/// the same kind gives it back unchanged; taking a [`UnivariateDensity`] out
/// as a kind succeeds exactly when it is of that kind.
pub proof fn lemma_conversion_round_trip<T: PartialOrd + From<i8>>(
    constant: ConstantDensity<T>,
    cosine: CosineDensity<T>,
    lognormal: LognormalDensity<T>,
    loguniform: LogUniformDensity<T>,
    normal: NormalDensity<T>,
    uniform: UniformDensity<T>,
    density: UnivariateDensity<T>,
)
    ensures
        ConstantDensity::<T>::try_from_spec(UnivariateDensity::<T>::from_spec(constant)) == Ok::<
            ConstantDensity<T>,
            (),
        >(constant),
        CosineDensity::<T>::try_from_spec(UnivariateDensity::<T>::from_spec(cosine)) == Ok::<
            CosineDensity<T>,
            (),
        >(cosine),
        LognormalDensity::<T>::try_from_spec(UnivariateDensity::<T>::from_spec(lognormal)) == Ok::<
            LognormalDensity<T>,
            (),
        >(lognormal),
        LogUniformDensity::<T>::try_from_spec(UnivariateDensity::<T>::from_spec(loguniform))
            == Ok::<LogUniformDensity<T>, ()>(loguniform),
        NormalDensity::<T>::try_from_spec(UnivariateDensity::<T>::from_spec(normal)) == Ok::<
            NormalDensity<T>,
            (),
        >(normal),
        UniformDensity::<T>::try_from_spec(UnivariateDensity::<T>::from_spec(uniform)) == Ok::<
            UniformDensity<T>,
            (),
        >(uniform),
        ConstantDensity::<T>::try_from_spec(density) is Ok <==> density is Constant,
        CosineDensity::<T>::try_from_spec(density) is Ok <==> density is Cosine,
        LognormalDensity::<T>::try_from_spec(density) is Ok <==> density is Lognormal,
        LogUniformDensity::<T>::try_from_spec(density) is Ok <==> density is Loguniform,
        NormalDensity::<T>::try_from_spec(density) is Ok <==> density is Normal,
        UniformDensity::<T>::try_from_spec(density) is Ok <==> density is Uniform,
{
}

/// Each kind of univariate density reports, as its bounds, the bounds of its
/// own domain: a constant `c` the point `[c, c]`; a cosine, log-uniform or
/// uniform density `[minimum, maximum]`; a lognormal `[minimum, maximum]` of
/// its truncation; a normal its optional truncation bounds.
pub proof fn lemma_bounds_of_each_kind<T: PartialOrd + From<i8>>(density: UnivariateDensity<T>)
    ensures
        density matches UnivariateDensity::Constant(pdf) ==> density.bounds() == (
            Some(pdf@),
            Some(pdf@),
        ),
        density matches UnivariateDensity::Cosine(pdf) ==> density.bounds() == (
            Some(pdf@.0),
            Some(pdf@.1),
        ),
        density matches UnivariateDensity::Lognormal(pdf) ==> density.bounds() == (
            Some(pdf@.2),
            Some(pdf@.3),
        ),
        density matches UnivariateDensity::Loguniform(pdf) ==> density.bounds() == (
            Some(pdf@.0),
            Some(pdf@.1),
        ),
        density matches UnivariateDensity::Normal(pdf) ==> density.bounds() == (pdf@.2, pdf@.3),
        density matches UnivariateDensity::Uniform(pdf) ==> density.bounds() == (
            Some(pdf@.0),
            Some(pdf@.1),
        ),
        !(density is Normal) ==> density.bounds().0 is Some && density.bounds().1 is Some,
{
}

/// Two univariate densities that are the same are of the same kind with
/// equal parameters, and so have the same bounds; every density is the same
/// as itself, and sameness is symmetric.
pub proof fn lemma_same_keeps_parameters<T: PartialOrd + From<i8>>(
    a: UnivariateDensity<T>,
    b: UnivariateDensity<T>,
)
    ensures
        a.same(a),
        a.same(b) == b.same(a),
        a.same(b) ==> a.bounds() == b.bounds(),
        a.same(b) ==> (a matches UnivariateDensity::Normal(x) ==> (b matches UnivariateDensity::Normal(
            y,
        ) && x@ == y@)),
        a.same(b) ==> (a matches UnivariateDensity::Lognormal(x) ==> (
        b matches UnivariateDensity::Lognormal(y) && x@ == y@)),
        a.same(b) ==> (a matches UnivariateDensity::Constant(x) ==> (
        b matches UnivariateDensity::Constant(y) && x@ == y@)),
        a.same(b) ==> (a matches UnivariateDensity::Cosine(x) ==> (b matches UnivariateDensity::Cosine(
            y,
        ) && x@ == y@)),
        a.same(b) ==> (a matches UnivariateDensity::Loguniform(x) ==> (
        b matches UnivariateDensity::Loguniform(y) && x@ == y@)),
        a.same(b) ==> (a matches UnivariateDensity::Uniform(x) ==> (
        b matches UnivariateDensity::Uniform(y) && x@ == y@)),
{
}

} // verus!
