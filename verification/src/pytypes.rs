//! The named, dynamically dimensioned forms of the densities that the
//! Python interface works with.

use vstd::prelude::*;
use vstd::std_specs::convert::FromSpecImpl;
use crate::multivariate::MultivariateDensity;
use crate::sampling::SamplingMode;
use crate::domain::{Domain, DomainModel};
use crate::univariate::{
    ConstantDensity, CosineDensity, LogUniformDensity, NormalDensity, UniformDensity,
    UnivariateDensity,
};
use crate::order::{comparable, converts, equatable, totally_ordered, num, eq, le, lt, ge, gt};

verus! {

/// The character of decimal digit `d`.
pub open spec fn digit_char(d: nat) -> char {
    (48 + d) as char
}

/// The decimal representation of `n`, without leading zeros.
pub open spec fn decimal(n: nat) -> Seq<char>
    decreases n,
{
    if n < 10 {
        seq![digit_char(n)]
    } else {
        decimal(n / 10) + seq![digit_char(n % 10)]
    }
}

/// The name of dimension `i`: `dim_` followed by `i` in decimal.
pub open spec fn dimension_name(i: nat) -> Seq<char> {
    seq!['d', 'i', 'm', '_'] + decimal(i)
}

/// The string of decimal digit `d`.
fn digit_str(d: usize) -> (r: &'static str)
    requires
        d < 10,
    ensures
        r@ == seq![digit_char(d as nat)],
{
    match d {
        0 => {
            proof {
                reveal_strlit("0");
            }
            "0"
        },
        1 => {
            proof {
                reveal_strlit("1");
            }
            "1"
        },
        2 => {
            proof {
                reveal_strlit("2");
            }
            "2"
        },
        3 => {
            proof {
                reveal_strlit("3");
            }
            "3"
        },
        4 => {
            proof {
                reveal_strlit("4");
            }
            "4"
        },
        5 => {
            proof {
                reveal_strlit("5");
            }
            "5"
        },
        6 => {
            proof {
                reveal_strlit("6");
            }
            "6"
        },
        7 => {
            proof {
                reveal_strlit("7");
            }
            "7"
        },
        8 => {
            proof {
                reveal_strlit("8");
            }
            "8"
        },
        _ => {
            proof {
                reveal_strlit("9");
            }
            "9"
        },
    }
}

/// Appends `n` in decimal to `s`.
fn push_decimal(s: &mut String, n: usize)
    ensures
        final(s)@ == old(s)@ + decimal(n as nat),
    decreases n,
{
    if n >= 10 {
        push_decimal(s, n / 10);
    }
    let d = digit_str(n % 10);
    s.append(d);
    proof {
        assert(final(s)@ =~= old(s)@ + decimal(n as nat));
    }
}

/// Returns the name of dimension `i`: `dim_` followed by `i` in decimal.
pub fn dimension_label(i: usize) -> (r: String)
    ensures
        r@ == dimension_name(i as nat),
{
    proof {
        reveal_strlit("dim_");
    }
    let mut s = String::from_str("dim_");
    push_decimal(&mut s, i);
    s
}

/// The reason a density could not be built: its parameters do not describe
/// a valid domain.
#[derive(Debug, Clone, Copy, PartialEq, Eq, Structural)]
pub struct InvalidDomain;

impl InvalidDomain {
    /// Returns the error message.
    pub fn message(&self) -> (r: &'static str)
        ensures
            r@ == "invalid domain"@,
    {
        "invalid domain"
    }
}

/// The type name of a univariate density's kind.
pub open spec fn kind_name<T: PartialOrd + From<i8>>(density: UnivariateDensity<T>) -> Seq<char> {
    match density {
        UnivariateDensity::Constant(_) => "constant"@,
        UnivariateDensity::Cosine(_) => "cosine"@,
        UnivariateDensity::Lognormal(_) => "lognormal"@,
        UnivariateDensity::Loguniform(_) => "loguniform"@,
        UnivariateDensity::Normal(_) => "normal"@,
        UnivariateDensity::Uniform(_) => "uniform"@,
    }
}

/// Returns the type name of a univariate density's kind.
fn kind_str<T: PartialOrd + From<i8>>(density: &UnivariateDensity<T>) -> (r: &'static str)
    ensures
        r@ == kind_name(*density),
{
    match density {
        UnivariateDensity::Constant(_) => "constant",
        UnivariateDensity::Cosine(_) => "cosine",
        UnivariateDensity::Lognormal(_) => "lognormal",
        UnivariateDensity::Loguniform(_) => "loguniform",
        UnivariateDensity::Normal(_) => "normal",
        UnivariateDensity::Uniform(_) => "uniform",
    }
}

/// A sampling strategy, as the Python interface hands it over.
#[derive(Debug, Clone, Copy)]
pub struct PySamplingMode(SamplingMode);

impl PySamplingMode {
    /// The wrapped sampling mode.
    pub closed spec fn spec_mode(self) -> SamplingMode {
        self.0
    }

    /// Sample once, and return the sample if it is valid, or nothing if it is not.
    pub fn single_attempt() -> (r: Self)
        ensures
            r.spec_mode() == SamplingMode::SingleAttempt,
    {
        PySamplingMode(SamplingMode::SingleAttempt)
    }

    /// Sample until a valid sample is found, or the maximum number of attempts is reached.
    pub fn until_valid(max_attempts: usize) -> (r: Self)
        ensures
            r.spec_mode() == (SamplingMode::UntilValid { max_attempts }),
    {
        PySamplingMode(SamplingMode::UntilValid { max_attempts })
    }

    /// Sample until a valid sample is found, or the maximum number of
    /// attempts is reached, then clamp the sample to the domain.
    pub fn until_valid_or_clamp(max_attempts: usize) -> (r: Self)
        ensures
            r.spec_mode() == (SamplingMode::UntilValidOrClamp { max_attempts }),
    {
        PySamplingMode(SamplingMode::UntilValidOrClamp { max_attempts })
    }

    /// Sample until a valid sample is found, with no maximum number of attempts.
    pub fn until_valid_no_limit() -> (r: Self)
        ensures
            r.spec_mode() == SamplingMode::UntilValidNoLimit,
    {
        PySamplingMode(SamplingMode::UntilValidNoLimit)
    }

    /// Returns the wrapped sampling mode.
    pub fn mode(&self) -> (r: SamplingMode)
        ensures
            r == self.spec_mode(),
    {
        self.0
    }

    /// Returns the type name of the sampling mode.
    pub fn typename(&self) -> (r: &'static str)
        ensures
            self.spec_mode() is SingleAttempt ==> r@ == "single_attempt"@,
            self.spec_mode() is UntilValid ==> r@ == "until_valid"@,
            self.spec_mode() is UntilValidOrClamp ==> r@ == "until_valid_or_clamp"@,
            self.spec_mode() is UntilValidNoLimit ==> r@ == "until_valid_no_limit"@,
    {
        self.0.typename()
    }
}

/// A named univariate density.
#[derive(Debug)]
pub struct PyUnivariate<T: PartialOrd + From<i8>> {
    name: String,
    density: UnivariateDensity<T>,
}

impl<T: PartialOrd + From<i8>> PyUnivariate<T> {
    /// The parameter name.
    pub closed spec fn spec_name(self) -> Seq<char> {
        self.name@
    }

    /// The density.
    pub closed spec fn spec_density(self) -> UnivariateDensity<T> {
        self.density
    }
}

impl<T: Copy + PartialOrd + From<i8>> PyUnivariate<T> {
    /// Returns a reference to the underlying [`UnivariateDensity`].
    pub fn inner(&self) -> (r: &UnivariateDensity<T>)
        ensures
            *r == self.spec_density(),
    {
        &self.density
    }

    /// Returns a reference to the underlying [`UnivariateDensity`].
    pub fn density(&self) -> (r: &UnivariateDensity<T>)
        ensures
            *r == self.spec_density(),
    {
        &self.density
    }

    /// Returns the parameter name.
    pub fn name(&self) -> (r: &str)
        ensures
            r@ == self.spec_name(),
    {
        self.name.as_str()
    }

    /// Creates a new [`PyUnivariate`] with a given name and density.
    pub fn new(name: String, density: UnivariateDensity<T>) -> (r: Self)
        ensures
            r.spec_name() == name@,
            r.spec_density() == density,
    {
        PyUnivariate { name, density }
    }

    /// Creates a named constant density.
    pub fn constant(name: String, value: T) -> (r: Result<Self, InvalidDomain>)
        ensures
            r is Ok,
            r matches Ok(u) ==> {
                &&& u.spec_name() == name@
                &&& u.spec_density() matches UnivariateDensity::Constant(pdf)
                &&& pdf@ == value
            },
    {
        Ok(PyUnivariate { name, density: UnivariateDensity::Constant(ConstantDensity::new(value)) })
    }

    /// Creates a named cosine density on `[minimum, maximum]`; see
    /// [`CosineDensity::new`] for the limits and sines it is checked with.
    pub fn cosine(
        name: String,
        minimum: T,
        maximum: T,
        lower_limit: T,
        upper_limit: T,
        sin_minimum: T,
        sin_maximum: T,
    ) -> (r: Result<Self, InvalidDomain>)
        ensures
            comparable::<T>() && equatable::<T>() ==> (r is Ok <==> (gt(minimum, lower_limit) && lt(
                maximum,
                upper_limit,
            ) && gt(maximum, minimum) && !eq(sin_maximum, sin_minimum))),
            r matches Ok(u) ==> {
                &&& u.spec_name() == name@
                &&& u.spec_density() matches UnivariateDensity::Cosine(pdf)
                &&& pdf@ == (minimum, maximum)
            },
    {
        match CosineDensity::new(minimum, maximum, lower_limit, upper_limit, sin_minimum, sin_maximum) {
            Some(value) => Ok(PyUnivariate { name, density: UnivariateDensity::Cosine(value) }),
            None => Err(InvalidDomain),
        }
    }

    /// Creates a named normal density; fails where [`NormalDensity::new`] does.
    pub fn normal(
        name: String,
        mean: T,
        std_dev: T,
        opt_minimum: Option<T>,
        opt_maximum: Option<T>,
    ) -> (r: Result<Self, InvalidDomain>)
        ensures
            comparable::<T>() && converts::<T>() ==> (r is Ok <==> (!le(std_dev, num(0i8)) && !(
            opt_minimum is Some && opt_maximum is Some && ge(
                opt_minimum->0,
                opt_maximum->0,
            )))),
            r matches Ok(u) ==> {
                &&& u.spec_name() == name@
                &&& u.spec_density() matches UnivariateDensity::Normal(pdf)
                &&& pdf@ == (mean, std_dev, opt_minimum, opt_maximum)
            },
    {
        match NormalDensity::new(mean, std_dev, opt_minimum, opt_maximum) {
            Some(value) => Ok(PyUnivariate { name, density: UnivariateDensity::Normal(value) }),
            None => Err(InvalidDomain),
        }
    }

    /// Creates a named log-uniform density; fails where
    /// [`LogUniformDensity::new`] does.
    pub fn loguniform(name: String, minimum: T, maximum: T) -> (r: Result<Self, InvalidDomain>)
        ensures
            comparable::<T>() && converts::<T>() ==> (r is Ok <==> !(ge(minimum, maximum) || le(
                minimum,
                num(0i8),
            ) || le(maximum, num(0i8)))),
            r matches Ok(u) ==> {
                &&& u.spec_name() == name@
                &&& u.spec_density() matches UnivariateDensity::Loguniform(pdf)
                &&& pdf@ == (minimum, maximum)
            },
    {
        match LogUniformDensity::new(minimum, maximum) {
            Some(value) => Ok(PyUnivariate { name, density: UnivariateDensity::Loguniform(value) }),
            None => Err(InvalidDomain),
        }
    }

    /// Creates a named uniform density; fails unless `minimum < maximum`.
    pub fn uniform(name: String, minimum: T, maximum: T) -> (r: Result<Self, InvalidDomain>)
        ensures
            comparable::<T>() ==> (r is Ok <==> !ge(minimum, maximum)),
            r matches Ok(u) ==> {
                &&& u.spec_name() == name@
                &&& u.spec_density() matches UnivariateDensity::Uniform(pdf)
                &&& pdf@ == (minimum, maximum)
            },
    {
        match UniformDensity::new(minimum, maximum) {
            Some(value) => Ok(PyUnivariate { name, density: UnivariateDensity::Uniform(value) }),
            None => Err(InvalidDomain),
        }
    }

    /// Returns the (lower, upper) bounds of the density's domain.
    pub fn domain(&self) -> (r: (Option<T>, Option<T>))
        ensures
            r == self.spec_density().bounds(),
    {
        match &self.density {
            UnivariateDensity::Constant(constant) => (Some(constant.constant()), Some(constant.constant())),
            UnivariateDensity::Cosine(cosine) => (Some(cosine.minimum()), Some(cosine.maximum())),
            UnivariateDensity::Lognormal(log_normal) => (Some(log_normal.minimum()), Some(log_normal.maximum())),
            UnivariateDensity::Loguniform(log_uniform) => (Some(log_uniform.minimum()), Some(log_uniform.maximum())),
            UnivariateDensity::Normal(normal) => (normal.minimum(), normal.maximum()),
            UnivariateDensity::Uniform(uniform) => (Some(uniform.minimum()), Some(uniform.maximum())),
        }
    }

    /// Returns the type name of the univariate density.
    pub fn typename(&self) -> (r: &'static str)
        ensures
            r@ == kind_name(self.spec_density()),
    {
        kind_str(&self.density)
    }
}

impl<T: Copy + PartialOrd + From<i8>> Clone for PyUnivariate<T> {
    fn clone(&self) -> (r: Self)
        ensures
            r.spec_name() == self.spec_name(),
            r.spec_density().same(self.spec_density()),
    {
        PyUnivariate { name: self.name.clone(), density: self.density.clone() }
    }
}

impl<T: PartialOrd + From<i8>> From<UnivariateDensity<T>> for PyUnivariate<T> {
    /// Names the density after its kind.
    fn from(density: UnivariateDensity<T>) -> (r: Self)
        ensures
            r.spec_name() == kind_name(density),
            r.spec_density() == density,
    {
        let name = kind_str(&density).to_owned();
        PyUnivariate { name, density }
    }
}

/// The name `from` gives is a new `String`, which no spec value stands for;
/// `from`'s own contract states its contents.
impl<T: PartialOrd + From<i8>> FromSpecImpl<UnivariateDensity<T>> for PyUnivariate<T> {
    open spec fn obeys_from_spec() -> bool {
        false
    }

    open spec fn from_spec(density: UnivariateDensity<T>) -> Self {
        arbitrary()
    }
}

/// A multivariate density made of named univariate densities, one per dimension.
#[derive(Debug)]
pub struct PyMultivariate<T: PartialOrd + From<i8>> {
    uvpdfs: Vec<PyUnivariate<T>>,
}

impl<T: PartialOrd + From<i8>> View for PyMultivariate<T> {
    /// The named univariate densities.
    type V = Seq<PyUnivariate<T>>;

    closed spec fn view(&self) -> Seq<PyUnivariate<T>> {
        self.uvpdfs@
    }
}

impl<T: Copy + PartialOrd + From<i8>> PyMultivariate<T> {
    /// Creates a new [`PyMultivariate`] from named univariate densities.
    pub fn new(uvpdfs: Vec<PyUnivariate<T>>) -> (r: Self)
        ensures
            r@ == uvpdfs@,
    {
        PyMultivariate { uvpdfs }
    }

    /// Creates the [`MultivariateDensity`] whose marginals are these densities.
    pub fn as_multivariate_density(&self) -> (r: MultivariateDensity<T>)
        ensures
            r@.len() == self@.len(),
            forall|i: int| 0 <= i < self@.len() ==> #[trigger] r@[i].same(self@[i].spec_density()),
    {
        let mut marginals: Vec<UnivariateDensity<T>> = Vec::new();
        let mut i: usize = 0;
        while i < self.uvpdfs.len()
            invariant
                i <= self@.len(),
                marginals@.len() == i,
                forall|j: int| 0 <= j < i ==> #[trigger] marginals@[j].same(self@[j].spec_density()),
            decreases self.uvpdfs.len() - i,
        {
            marginals.push(self.uvpdfs[i].density().clone());
            i = i + 1;
        }
        MultivariateDensity::new(marginals)
    }

    /// Returns the named univariate densities.
    pub fn uvpdfs(&self) -> (r: &Vec<PyUnivariate<T>>)
        ensures
            r@ == self@,
    {
        &self.uvpdfs
    }

    /// Returns the names of the univariate densities.
    pub fn names(&self) -> (r: Vec<String>)
        ensures
            r@.len() == self@.len(),
            forall|i: int| 0 <= i < self@.len() ==> #[trigger] r@[i]@ == self@[i].spec_name(),
    {
        let mut out: Vec<String> = Vec::new();
        let mut i: usize = 0;
        while i < self.uvpdfs.len()
            invariant
                i <= self@.len(),
                out@.len() == i,
                forall|j: int| 0 <= j < i ==> #[trigger] out@[j]@ == self@[j].spec_name(),
            decreases self.uvpdfs.len() - i,
        {
            out.push(self.uvpdfs[i].name().to_owned());
            i = i + 1;
        }
        out
    }

    /// Returns the type names of the univariate densities.
    pub fn typenames(&self) -> (r: Vec<String>)
        ensures
            r@.len() == self@.len(),
            forall|i: int| 0 <= i < self@.len() ==> #[trigger] r@[i]@ == kind_name(
                self@[i].spec_density(),
            ),
    {
        let mut out: Vec<String> = Vec::new();
        let mut i: usize = 0;
        while i < self.uvpdfs.len()
            invariant
                i <= self@.len(),
                out@.len() == i,
                forall|j: int| 0 <= j < i ==> #[trigger] out@[j]@ == kind_name(self@[j].spec_density()),
            decreases self.uvpdfs.len() - i,
        {
            out.push(self.uvpdfs[i].typename().to_owned());
            i = i + 1;
        }
        out
    }
}

/// A particle (non-parametric) density as plain vectors: one vector per
/// particle, optional weights, and one name per dimension.
#[derive(Debug)]
pub struct PyParticleDensity<T> {
    names: Vec<String>,
    particles: Vec<Vec<T>>,
    weights: Option<Vec<T>>,
}

impl<T> PyParticleDensity<T> {
    /// The names of the dimensions.
    pub closed spec fn spec_names(self) -> Seq<Seq<char>> {
        self.names@.map_values(|n: String| n@)
    }

    /// The particles.
    pub closed spec fn spec_particles(self) -> Seq<Vec<T>> {
        self.particles@
    }

    /// The particle weights, if any.
    pub closed spec fn spec_weights(self) -> Option<Vec<T>> {
        self.weights
    }
}

/// The names `dim_0`, `dim_1`, ... of `n` dimensions.
fn dimension_labels(n: usize) -> (r: Vec<String>)
    ensures
        r@.len() == n,
        forall|i: int| 0 <= i < n ==> #[trigger] r@[i]@ == dimension_name(i as nat),
{
    let mut out: Vec<String> = Vec::new();
    let mut i: usize = 0;
    while i < n
        invariant
            i <= n,
            out@.len() == i,
            forall|j: int| 0 <= j < i ==> #[trigger] out@[j]@ == dimension_name(j as nat),
        decreases n - i,
    {
        out.push(dimension_label(i));
        i = i + 1;
    }
    out
}

impl<T: Copy> PyParticleDensity<T> {
    /// Creates a new [`PyParticleDensity`] from particles of `n_dims`
    /// coordinates each, and optional weights; the dimensions are named
    /// `dim_0`, `dim_1`, ...
    pub fn new(particles: Vec<Vec<T>>, n_dims: usize, weights: Option<Vec<T>>) -> (r: Self)
        ensures
            r.spec_particles() == particles@,
            r.spec_weights() == weights,
            r.spec_names().len() == n_dims,
            forall|i: int| 0 <= i < n_dims ==> #[trigger] r.spec_names()[i] == dimension_name(i as nat),
    {
        let names = dimension_labels(n_dims);
        PyParticleDensity { names, particles, weights }
    }

    /// Returns the particles.
    pub fn particles(&self) -> (r: &Vec<Vec<T>>)
        ensures
            r@ == self.spec_particles(),
    {
        &self.particles
    }

    /// Returns the particle weights, if any.
    pub fn weights(&self) -> (r: &Option<Vec<T>>)
        ensures
            *r == self.spec_weights(),
    {
        &self.weights
    }

    /// Returns the number of particles.
    pub fn count(&self) -> (r: usize)
        ensures
            r == self.spec_particles().len(),
    {
        self.particles.len()
    }

    /// Returns the dimension of each particle: the length of the first one,
    /// or 0 when there are none.
    pub fn dimension(&self) -> (r: usize)
        ensures
            self.spec_particles().len() == 0 ==> r == 0,
            self.spec_particles().len() > 0 ==> r == self.spec_particles()[0]@.len(),
    {
        if self.particles.len() > 0 {
            self.particles[0].len()
        } else {
            0
        }
    }

    /// Returns whether the particles are weighted.
    pub fn is_weighted(&self) -> (r: bool)
        ensures
            r == self.spec_weights() is Some,
    {
        self.weights.is_some()
    }

    /// Returns the names of the dimensions.
    pub fn names(&self) -> (r: Vec<String>)
        ensures
            r@.map_values(|n: String| n@) == self.spec_names(),
    {
        let mut out: Vec<String> = Vec::new();
        let mut i: usize = 0;
        while i < self.names.len()
            invariant
                i <= self.names@.len(),
                out@.len() == i,
                forall|j: int| 0 <= j < i ==> #[trigger] out@[j]@ == self.names@[j]@,
            decreases self.names.len() - i,
        {
            out.push(self.names[i].clone());
            i = i + 1;
        }
        assert(out@.map_values(|n: String| n@) =~= self.spec_names());
        out
    }
}

/// A bounds pair that the multinormal interface accepts: it could be read,
/// and where both bounds are present the upper one is not below the lower
/// one (an absent bound leaves that direction unbounded).
pub open spec fn accepted_pair<T: PartialOrd>(pair: Option<(Option<T>, Option<T>)>) -> bool {
    match pair {
        Some((Some(lower), Some(upper))) => !lt(upper, lower),
        Some(_) => true,
        None => false,
    }
}

/// Whether both bounds are present and the upper one lies below the lower one.
fn bounds_reversed<T: PartialOrd + Copy>(lower: Option<T>, upper: Option<T>) -> (r: bool)
    ensures
        comparable::<T>() ==> r == (lower is Some && upper is Some && lt(upper->0, lower->0)),
{
    match (lower, upper) {
        (Some(min), Some(max)) => max < min,
        _ => false,
    }
}

/// Builds the domain of a multinormal density of dimension `dim` from the
/// bounds pairs handed over by the Python interface: without pairs, all of
/// the `dim`-dimensional space; otherwise the hypercube of the pairs.
///
/// Returns `Err` exactly when a pair is missing (could not be read), or has
/// both bounds with the upper one below the lower one; an absent bound leaves
/// its direction unbounded.
pub fn multinormal_domain<T: PartialOrd + Copy>(
    pairs: Option<Vec<Option<(Option<T>, Option<T>)>>>,
    dim: usize,
) -> (r: Result<Domain<T>, InvalidDomain>)
    ensures
        pairs is None ==> (r matches Ok(d) && d@ == DomainModel::<T>::Unbounded(dim as nat)),
        pairs matches Some(v) ==> (comparable::<T>() ==> (r is Ok <==> forall|i: int|
            0 <= i < v@.len() ==> #[trigger] accepted_pair(v@[i]))),
        pairs matches Some(v) ==> (r matches Ok(d) ==> d@ == DomainModel::Hypercube(
            v@.map_values(|pair: Option<(Option<T>, Option<T>)>| pair->0),
        )),
{
    match pairs {
        None => Ok(Domain::UDomain(dim)),
        Some(v) => {
            let mut bounds: Vec<(Option<T>, Option<T>)> = Vec::new();
            let mut i: usize = 0;
            while i < v.len()
                invariant
                    pairs == Some(v),
                    i <= v@.len(),
                    bounds@ == v@.subrange(0, i as int).map_values(
                        |pair: Option<(Option<T>, Option<T>)>| pair->0,
                    ),
                    comparable::<T>() ==> forall|j: int| 0 <= j < i ==> #[trigger] accepted_pair(v@[j]),
                decreases v.len() - i,
            {
                match v[i] {
                    None => {
                        assert(!accepted_pair(v@[i as int]));
                        assert(pairs->0@ == v@);
                        return Err(InvalidDomain);
                    },
                    Some((lower, upper)) => {
                        if bounds_reversed(lower, upper) {
                            assert(comparable::<T>() ==> !accepted_pair(v@[i as int]));
                            return Err(InvalidDomain);
                        }
                        bounds.push((lower, upper));
                    },
                }
                i = i + 1;
                assert(bounds@ =~= v@.subrange(0, i as int).map_values(
                    |pair: Option<(Option<T>, Option<T>)>| pair->0,
                ));
            }
            assert(v@.subrange(0, i as int) =~= v@);
            Ok(Domain::MDomain(bounds))
        },
    }
}

/// Each kind of univariate density is named after its kind (`constant`,
/// `cosine`, `lognormal`, `loguniform`, `normal`, `uniform`), and densities
/// of different kinds never share a name.
pub proof fn lemma_kind_names<T: PartialOrd + From<i8>>(a: UnivariateDensity<T>, b: UnivariateDensity<T>)
    ensures
        a is Constant ==> kind_name(a) == "constant"@,
        a is Cosine ==> kind_name(a) == "cosine"@,
        a is Lognormal ==> kind_name(a) == "lognormal"@,
        a is Loguniform ==> kind_name(a) == "loguniform"@,
        a is Normal ==> kind_name(a) == "normal"@,
        a is Uniform ==> kind_name(a) == "uniform"@,
        kind_name(a) == kind_name(b) <==> (
            (a is Constant && b is Constant) || (a is Cosine && b is Cosine) || (a is Lognormal
                && b is Lognormal) || (a is Loguniform && b is Loguniform) || (a is Normal
                && b is Normal) || (a is Uniform && b is Uniform)),
{
    reveal_strlit("constant");
    reveal_strlit("cosine");
    reveal_strlit("lognormal");
    reveal_strlit("loguniform");
    reveal_strlit("normal");
    reveal_strlit("uniform");
    let names = seq!["constant"@, "cosine"@, "lognormal"@, "loguniform"@, "normal"@, "uniform"@];
    assert forall|i: int, j: int| 0 <= i < j < 6 implies names[i] != names[j] by {
        if names[i] =~= names[j] {
            assert(names[i].len() == names[j].len());
            assert(names[i][0] == names[j][0]);
            assert(names[i][3] == names[j][3]);
        }
    }
}

/// The multinormal interface refuses a bounds pair that could not be read,
/// accepts any pair with at most one bound (an absent bound leaves its
/// direction unbounded), and accepts a pair with both bounds exactly when the
/// upper one is not below the lower one.
pub proof fn lemma_accepted_pairs<T: PartialOrd>(lower: T, upper: T)
    ensures
        !accepted_pair::<T>(None),
        accepted_pair::<T>(Some((None, None))),
        accepted_pair(Some((Some(lower), None))),
        accepted_pair(Some((None, Some(upper)))),
        accepted_pair(Some((Some(lower), Some(upper)))) <==> !lt(upper, lower),
        totally_ordered::<T>() ==> (accepted_pair(Some((Some(lower), Some(upper)))) <==> le(
            lower,
            upper,
        )),
{
}

/// The number that a string of decimal digits stands for.
pub open spec fn digits_value(digits: Seq<char>) -> int
    decreases digits.len(),
{
    if digits.len() == 0 {
        0
    } else {
        digits_value(digits.drop_last()) * 10 + (digits.last() as int - 48)
    }
}

/// The decimal representation of `n` consists of digits, starts with a
/// nonzero digit unless `n` is zero, and reads back as `n`; so the names of
/// different dimensions differ.
pub proof fn lemma_decimal_reads_back(n: nat)
    ensures
        digits_value(decimal(n)) == n,
        decimal(n).len() > 0,
        forall|k: int| 0 <= k < decimal(n).len() ==> '0' <= #[trigger] decimal(n)[k] <= '9',
        n > 0 ==> decimal(n)[0] != '0',
    decreases n,
{
    assert(digit_char(n % 10) as int == 48 + n % 10);
    if n >= 10 {
        lemma_decimal_reads_back(n / 10);
        let d = decimal(n);
        assert(d.drop_last() =~= decimal(n / 10));
        assert(d.last() == digit_char(n % 10));
        assert((n / 10) * 10 + n % 10 == n) by (nonlinear_arith);
        assert forall|k: int| 0 <= k < d.len() implies '0' <= #[trigger] d[k] <= '9' by {
            if k < d.len() - 1 {
                assert(d[k] == decimal(n / 10)[k]);
            }
        }
        assert(digits_value(d) == digits_value(decimal(n / 10)) * 10 + (n % 10));
    } else {
        let d = decimal(n);
        assert(d.drop_last() =~= Seq::<char>::empty());
        assert(digits_value(d.drop_last()) == 0);
        assert(n % 10 == n);
    }
}

/// Different dimensions have different names.
pub proof fn lemma_dimension_names_differ(i: nat, j: nat)
    requires
        i != j,
    ensures
        dimension_name(i) != dimension_name(j),
{
    lemma_decimal_reads_back(i);
    lemma_decimal_reads_back(j);
    if dimension_name(i) == dimension_name(j) {
        assert(dimension_name(i).subrange(4, dimension_name(i).len() as int) =~= decimal(i));
        assert(dimension_name(j).subrange(4, dimension_name(j).len() as int) =~= decimal(j));
    }
}

} // verus!
