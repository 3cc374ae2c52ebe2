//! Function domains: the valid input regions of the densities.

use vstd::prelude::*;
use crate::order::{comparable, totally_ordered, le, lt, ge, gt, converts, num, constant};

verus! {

/// A function domain specifying the valid inputs of a density.
///
/// - `UDomain(d)`: all of the `d`-dimensional space;
/// - `MDomain(bounds)`: a hypercube, one (lower, upper) pair per dimension,
///   both inclusive, `None` meaning unbounded in that direction;
/// - `SDomain(d)`: the `d`-dimensional unit ball centered at the origin;
/// - `ShDomain(d)`: the unit sphere (shell) centered at the origin.
#[derive(Debug)]
pub enum Domain<T> {
    UDomain(usize),
    MDomain(Vec<(Option<T>, Option<T>)>),
    SDomain(usize),
    ShDomain(usize),
}

/// The mathematical model of a [`Domain`].
pub enum DomainModel<T> {
    Unbounded(nat),
    Hypercube(Seq<(Option<T>, Option<T>)>),
    Ball(nat),
    Shell(nat),
}

impl<T> View for Domain<T> {
    type V = DomainModel<T>;

    open spec fn view(&self) -> DomainModel<T> {
        match self {
            Domain::UDomain(d) => DomainModel::Unbounded(*d as nat),
            Domain::MDomain(b) => DomainModel::Hypercube(b@),
            Domain::SDomain(d) => DomainModel::Ball(*d as nat),
            Domain::ShDomain(d) => DomainModel::Shell(*d as nat),
        }
    }
}

impl<T> DomainModel<T> {
    /// The number of dimensions.
    pub open spec fn dim(self) -> nat {
        match self {
            DomainModel::Unbounded(d) => d,
            DomainModel::Hypercube(b) => b.len(),
            DomainModel::Ball(d) => d,
            DomainModel::Shell(d) => d,
        }
    }

    /// The domain is the unit ball or the unit sphere.
    pub open spec fn is_spherical(self) -> bool {
        self is Ball || self is Shell
    }

    /// The lower bound of dimension `i`; on a spherical domain `-1`.
    pub open spec fn min_spec(self, i: int) -> Option<T> where T: From<i8> {
        match self {
            DomainModel::Unbounded(_) => None,
            DomainModel::Hypercube(b) => b[i].0,
            _ => Some(num::<T>(-1i8)),
        }
    }

    /// The upper bound of dimension `i`; on a spherical domain `1`.
    pub open spec fn max_spec(self, i: int) -> Option<T> where T: From<i8> {
        match self {
            DomainModel::Unbounded(_) => None,
            DomainModel::Hypercube(b) => b[i].1,
            _ => Some(num::<T>(1i8)),
        }
    }
}

/// Copies the bounds of a hypercube.
fn copy_bounds<T: Copy>(bounds: &Vec<(Option<T>, Option<T>)>) -> (r: Vec<(Option<T>, Option<T>)>)
    ensures
        r@ == bounds@,
{
    let mut out: Vec<(Option<T>, Option<T>)> = Vec::new();
    let mut i: usize = 0;
    while i < bounds.len()
        invariant
            i <= bounds@.len(),
            out@ == bounds@.subrange(0, i as int),
        decreases bounds.len() - i,
    {
        out.push(bounds[i]);
        i = i + 1;
        assert(out@ =~= bounds@.subrange(0, i as int));
    }
    assert(out@ =~= bounds@);
    out
}

impl<T: Copy> Clone for Domain<T> {
    fn clone(&self) -> (r: Self)
        ensures
            r@ == self@,
    {
        match self {
            Domain::UDomain(d) => Domain::UDomain(*d),
            Domain::MDomain(b) => {
                Domain::MDomain(copy_bounds(b))
            },
            Domain::SDomain(d) => Domain::SDomain(*d),
            Domain::ShDomain(d) => Domain::ShDomain(*d),
        }
    }
}

impl<T: Copy + PartialOrd + From<i8>> Domain<T> {
    /// Creates a hypercube domain from one (lower, upper) pair per dimension.
    pub fn new_mdomain(domains: Vec<(Option<T>, Option<T>)>) -> (r: Self)
        ensures
            r@ == DomainModel::Hypercube(domains@),
    {
        Domain::MDomain(domains)
    }

    /// Creates the unbounded domain of `dim` dimensions.
    pub fn new_udomain(dim: usize) -> (r: Self)
        ensures
            r@ == DomainModel::<T>::Unbounded(dim as nat),
    {
        Domain::UDomain(dim)
    }

    /// Creates the unit ball of `dim` dimensions centered at the origin.
    pub fn new_sdomain(dim: usize) -> (r: Self)
        ensures
            r@ == DomainModel::<T>::Ball(dim as nat),
    {
        Domain::SDomain(dim)
    }

    /// Creates the unit sphere (shell) of `dim` dimensions centered at the origin.
    pub fn new_shdomain(dim: usize) -> (r: Self)
        ensures
            r@ == DomainModel::<T>::Shell(dim as nat),
    {
        Domain::ShDomain(dim)
    }

    /// Returns the number of dimensions of the domain.
    pub fn shape_generic(&self) -> (r: usize)
        ensures
            r == self@.dim(),
    {
        match self {
            Domain::UDomain(d) => *d,
            Domain::MDomain(b) => b.len(),
            Domain::SDomain(d) => *d,
            Domain::ShDomain(d) => *d,
        }
    }

    /// Returns whether the domain has `dim` dimensions.
    pub fn has_dim(&self, dim: usize) -> (r: bool)
        ensures
            r == (self@.dim() == dim),
    {
        self.shape_generic() == dim
    }

    /// Returns whether a covariance matrix with `rows` rows, a mean with
    /// `mean_len` entries and this domain describe the same number of
    /// dimensions.
    pub fn agrees_with_normal(&self, rows: usize, mean_len: usize) -> (r: bool)
        ensures
            r == (rows == mean_len && rows == self@.dim()),
    {
        rows == mean_len && self.has_dim(rows)
    }

    /// Returns the bounds of a one-dimensional domain: `None` if it is
    /// unbounded, `(-1, 1)` for the unit ball or sphere.
    pub fn inner(&self) -> (r: Option<(Option<T>, Option<T>)>)
        requires
            self@.dim() == 1,
        ensures
            self@ is Unbounded ==> r is None,
            !(self@ is Unbounded) ==> r is Some,
            self@ is Hypercube ==> r == Some(self@->Hypercube_0[0]),
            self@.is_spherical() ==> (r.unwrap().0 is Some && r.unwrap().1 is Some),
            self@.is_spherical() && converts::<T>() ==> r == Some(
                (Some(num::<T>(-1i8)), Some(num::<T>(1i8))),
            ),
    {
        match self {
            Domain::UDomain(_) => None,
            Domain::MDomain(b) => Some(b[0]),
            Domain::SDomain(_) => Some((Some(constant(-1i8)), Some(constant(1i8)))),
            Domain::ShDomain(_) => Some((Some(constant(-1i8)), Some(constant(1i8)))),
        }
    }

    /// Returns the upper bound of every dimension (`None` where unbounded).
    pub fn maximum_values(&self) -> (r: Vec<Option<T>>)
        ensures
            r@.len() == self@.dim(),
            self@.is_spherical() && converts::<T>() ==> forall|i: int|
                0 <= i < self@.dim() ==> #[trigger] r@[i] == Some(num::<T>(1i8)),
            !self@.is_spherical() || converts::<T>() ==> forall|i: int|
                0 <= i < self@.dim() ==> #[trigger] r@[i] == self@.max_spec(i),
            self@.is_spherical() ==> forall|i: int| 0 <= i < self@.dim() ==> #[trigger] r@[i] is Some,
    {
        self.bound_values(false)
    }

    /// Returns the lower bound of every dimension (`None` where unbounded).
    pub fn minimum_values(&self) -> (r: Vec<Option<T>>)
        ensures
            r@.len() == self@.dim(),
            self@.is_spherical() && converts::<T>() ==> forall|i: int|
                0 <= i < self@.dim() ==> #[trigger] r@[i] == Some(num::<T>(-1i8)),
            !self@.is_spherical() || converts::<T>() ==> forall|i: int|
                0 <= i < self@.dim() ==> #[trigger] r@[i] == self@.min_spec(i),
            self@.is_spherical() ==> forall|i: int| 0 <= i < self@.dim() ==> #[trigger] r@[i] is Some,
    {
        self.bound_values(true)
    }

    /// The lower (`lower`) or upper bound of every dimension.
    fn bound_values(&self, lower: bool) -> (r: Vec<Option<T>>)
        ensures
            r@.len() == self@.dim(),
            self@.is_spherical() && converts::<T>() ==> forall|i: int|
                0 <= i < self@.dim() ==> #[trigger] r@[i] == Some(num::<T>(if lower {
                    -1i8
                } else {
                    1i8
                })),
            !self@.is_spherical() || converts::<T>() ==> forall|i: int|
                0 <= i < self@.dim() ==> #[trigger] r@[i] == (if lower {
                    self@.min_spec(i)
                } else {
                    self@.max_spec(i)
                }),
            self@.is_spherical() ==> forall|i: int| 0 <= i < self@.dim() ==> #[trigger] r@[i] is Some,
    {
        let n = self.shape_generic();
        let mut out: Vec<Option<T>> = Vec::new();
        let mut i: usize = 0;
        while i < n
            invariant
                n == self@.dim(),
                i <= n,
                out@.len() == i,
                !self@.is_spherical() || converts::<T>() ==> forall|j: int|
                    0 <= j < i ==> #[trigger] out@[j] == (if lower {
                        self@.min_spec(j)
                    } else {
                        self@.max_spec(j)
                    }),
                self@.is_spherical() ==> forall|j: int| 0 <= j < i ==> #[trigger] out@[j] is Some,
                self@.is_spherical() && converts::<T>() ==> forall|j: int|
                    0 <= j < i ==> #[trigger] out@[j] == Some(num::<T>(if lower {
                        -1i8
                    } else {
                        1i8
                    })),
            decreases n - i,
        {
            let v = match self {
                Domain::UDomain(_) => None,
                Domain::MDomain(b) => {
                    if lower {
                        b[i].0
                    } else {
                        b[i].1
                    }
                },
                _ => {
                    if lower {
                        Some(constant(-1i8))
                    } else {
                        Some(constant(1i8))
                    }
                },
            };
            out.push(v);
            i = i + 1;
        }
        out
    }
}

/// A value lies within one dimension's bounds (both inclusive).
pub open spec fn within<T: PartialOrd>(b: (Option<T>, Option<T>), v: T) -> bool {
    &&& (b.0 matches Some(min) ==> ge(v, min))
    &&& (b.1 matches Some(max) ==> le(v, max))
}

/// A dimension's bounds are consistent: where both exist, the lower one is
/// not above the upper one.
pub open spec fn bound_valid<T: PartialOrd>(b: (Option<T>, Option<T>)) -> bool {
    match b {
        (Some(min), Some(max)) => le(min, max),
        _ => true,
    }
}

/// Every dimension of a hypercube has consistent bounds.
pub open spec fn bounds_valid<T: PartialOrd>(bounds: Seq<(Option<T>, Option<T>)>) -> bool {
    forall|i: int| 0 <= i < bounds.len() ==> bound_valid(#[trigger] bounds[i])
}

/// A sample lies within a hypercube: each coordinate within its dimension's
/// bounds, coordinates and bounds paired up to the shorter of the two.
pub open spec fn box_contains<T: PartialOrd>(
    bounds: Seq<(Option<T>, Option<T>)>,
    sample: Seq<T>,
) -> bool {
    forall|i: int| 0 <= i < bounds.len() && i < sample.len() ==> within(#[trigger] bounds[i], sample[i])
}

/// One coordinate moved onto its dimension's bounds: below the lower bound
/// it becomes the lower bound, above the upper bound the upper bound, and it
/// stays as it is otherwise.
pub open spec fn clamp_one<T: PartialOrd>(b: (Option<T>, Option<T>), v: T) -> T {
    if b.0 matches Some(min) && lt(v, min) {
        b.0->0
    } else if b.1 matches Some(max) && gt(v, max) {
        b.1->0
    } else {
        v
    }
}

/// A sample moved onto a hypercube, coordinate by coordinate.
pub open spec fn box_clamp<T: PartialOrd>(
    bounds: Seq<(Option<T>, Option<T>)>,
    sample: Seq<T>,
) -> Seq<T> {
    Seq::new(bounds.len(), |i: int| clamp_one(bounds[i], sample[i]))
}

/// Returns `true` if `sample` lies within the hypercube `bounds` (bounds are
/// inclusive, an absent bound does not restrict).
pub fn bounds_contain<T: PartialOrd>(bounds: &Vec<(Option<T>, Option<T>)>, sample: &Vec<T>) -> (r:
    bool)
    ensures
        comparable::<T>() ==> (r == box_contains(bounds@, sample@)),
{
    let n = if bounds.len() < sample.len() {
        bounds.len()
    } else {
        sample.len()
    };
    let mut i: usize = 0;
    while i < n
        invariant
            n <= bounds.len(),
            n <= sample.len(),
            n == bounds.len() || n == sample.len(),
            i <= n,
            comparable::<T>() ==> forall|j: int| 0 <= j < i ==> within(#[trigger] bounds@[j], sample@[j]),
        decreases n - i,
    {
        let value = &sample[i];
        let ok = match &bounds[i] {
            (Some(min), Some(max)) => value >= min && value <= max,
            (Some(min), None) => value >= min,
            (None, Some(max)) => value <= max,
            (None, None) => true,
        };
        if !ok {
            return false;
        }
        i = i + 1;
    }
    true
}


/// Moves `sample` onto the hypercube `bounds`: each coordinate below its
/// lower bound becomes that bound, each above its upper bound becomes that
/// bound, the others stay as they are (an absent bound does not restrict).
pub fn bounds_clamp<T: PartialOrd + Copy>(
    bounds: &Vec<(Option<T>, Option<T>)>,
    sample: &Vec<T>,
) -> (r: Vec<T>)
    requires
        sample@.len() == bounds@.len(),
    ensures
        r@.len() == bounds@.len(),
        comparable::<T>() ==> r@ == box_clamp(bounds@, sample@),
{
    let mut out: Vec<T> = Vec::new();
    let mut i: usize = 0;
    while i < bounds.len()
        invariant
            sample@.len() == bounds@.len(),
            i <= bounds@.len(),
            out@.len() == i,
            comparable::<T>() ==> forall|j: int| 0 <= j < i ==> #[trigger] out@[j] == clamp_one(bounds@[j], sample@[j]),
        decreases bounds.len() - i,
    {
        let value = sample[i];
        let (opt_min, opt_max) = bounds[i];
        let mut next = value;
        let mut done = false;
        if let Some(min) = opt_min {
            if value < min {
                next = min;
                done = true;
            }
        }
        if !done {
            if let Some(max) = opt_max {
                if value > max {
                    next = max;
                }
            }
        }
        out.push(next);
        i = i + 1;
    }
    proof {
        if comparable::<T>() {
            assert(out@ =~= box_clamp(bounds@, sample@));
        }
    }
    out
}

/// Clamping moves every sample into the hypercube, provided its bounds are
/// consistent and `T` is totally ordered.
pub proof fn lemma_clamp_is_contained<T: PartialOrd>(
    bounds: Seq<(Option<T>, Option<T>)>,
    sample: Seq<T>,
)
    requires
        totally_ordered::<T>(),
        bounds_valid(bounds),
        sample.len() == bounds.len(),
    ensures
        box_contains(bounds, box_clamp(bounds, sample)),
{
    assert forall|i: int| 0 <= i < bounds.len() implies within(
        #[trigger] bounds[i],
        box_clamp(bounds, sample)[i],
    ) by {
        assert(bound_valid(bounds[i]));
    }
}

/// A sample that already lies within the hypercube is not moved by clamping.
pub proof fn lemma_clamp_keeps_contained<T: PartialOrd>(
    bounds: Seq<(Option<T>, Option<T>)>,
    sample: Seq<T>,
)
    requires
        comparable::<T>(),
        sample.len() == bounds.len(),
        box_contains(bounds, sample),
    ensures
        box_clamp(bounds, sample) == sample,
{
    assert forall|i: int| 0 <= i < bounds.len() implies #[trigger] box_clamp(bounds, sample)[i]
        == sample[i] by {
        assert(within(bounds[i], sample[i]));
    }
    assert(box_clamp(bounds, sample) =~= sample);
}

/// Clamping twice is clamping once.
pub proof fn lemma_clamp_idempotent<T: PartialOrd>(
    bounds: Seq<(Option<T>, Option<T>)>,
    sample: Seq<T>,
)
    requires
        totally_ordered::<T>(),
        bounds_valid(bounds),
        sample.len() == bounds.len(),
    ensures
        box_clamp(bounds, box_clamp(bounds, sample)) == box_clamp(bounds, sample),
{
    lemma_clamp_is_contained(bounds, sample);
    lemma_clamp_keeps_contained(bounds, box_clamp(bounds, sample));
}

/// On the unit ball and the unit sphere every dimension is bounded below by
/// `-1` and above by `1`, whatever the dimension.
pub proof fn lemma_spherical_bounds<T: From<i8>>(d: DomainModel<T>, i: int)
    requires
        d.is_spherical(),
        0 <= i < d.dim(),
    ensures
        d.min_spec(i) == Some(num::<T>(-1i8)),
        d.max_spec(i) == Some(num::<T>(1i8)),
{
}

/// On the unit ball and the unit sphere over the integers, the lower bound of
/// every dimension lies strictly below its upper bound.
pub proof fn lemma_spherical_bounds_ordered(d: DomainModel<i64>, i: int)
    requires
        d.is_spherical(),
        0 <= i < d.dim(),
    ensures
        d.min_spec(i) matches Some(lower) && d.max_spec(i) matches Some(upper) && lt(lower, upper),
        d.min_spec(i)->0 == -1 && d.max_spec(i)->0 == 1,
{
}

/// An unbounded domain, a ball or a sphere of `d` dimensions has `d`
/// dimensions, a hypercube one per bounds pair; only balls and spheres are
/// spherical.
pub proof fn lemma_dimensions<T>(d: nat, bounds: Seq<(Option<T>, Option<T>)>)
    ensures
        DomainModel::<T>::Unbounded(d).dim() == d,
        DomainModel::<T>::Ball(d).dim() == d,
        DomainModel::<T>::Shell(d).dim() == d,
        DomainModel::Hypercube(bounds).dim() == bounds.len(),
        DomainModel::<T>::Ball(d).is_spherical() && DomainModel::<T>::Shell(d).is_spherical(),
        !DomainModel::<T>::Unbounded(d).is_spherical() && !DomainModel::Hypercube(
            bounds,
        ).is_spherical(),
{
}

} // verus!
