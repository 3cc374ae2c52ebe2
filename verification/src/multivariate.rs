//! A multivariate density that is the product of independent univariate
//! densities, one per dimension.

use vstd::prelude::*;
use crate::domain::{Domain, DomainModel, box_contains, within, bound_valid, bounds_valid};
use crate::order::totally_ordered;
use crate::univariate::{UnivariateDensity, interval};

verus! {

/// A `D`-dimensional distribution whose dimensions are independent, each with
/// its own univariate distribution (a product distribution).
#[derive(Debug)]
pub struct MultivariateDensity<T: PartialOrd + From<i8>>(Vec<UnivariateDensity<T>>);

impl<T: PartialOrd + From<i8>> View for MultivariateDensity<T> {
    /// The marginal densities, one per dimension.
    type V = Seq<UnivariateDensity<T>>;

    closed spec fn view(&self) -> Seq<UnivariateDensity<T>> {
        self.0@
    }
}

/// The hypercube of the marginals' bounds.
pub open spec fn product_domain<T: PartialOrd + From<i8>>(
    marginals: Seq<UnivariateDensity<T>>,
) -> DomainModel<T> {
    DomainModel::Hypercube(marginals.map_values(|pdf: UnivariateDensity<T>| pdf.bounds()))
}

impl<T: Copy + PartialOrd + From<i8>> MultivariateDensity<T> {
    /// Creates a new [`MultivariateDensity`] from its marginal densities.
    pub fn new(domains: Vec<UnivariateDensity<T>>) -> (r: Self)
        ensures
            r@ == domains@,
    {
        MultivariateDensity(domains)
    }

    /// Returns the marginal densities.
    pub fn marginals(&self) -> (r: &Vec<UnivariateDensity<T>>)
        ensures
            r@ == self@,
    {
        &self.0
    }

    /// Returns the domain: the hypercube whose bounds in each dimension are
    /// those of that dimension's marginal.
    pub fn domain(&self) -> (r: Domain<T>)
        ensures
            r@ == product_domain(self@),
            totally_ordered::<T>() ==> bounds_valid(r@->Hypercube_0),
    {
        let mut bounds: Vec<(Option<T>, Option<T>)> = Vec::new();
        let mut i: usize = 0;
        while i < self.0.len()
            invariant
                i <= self.0@.len(),
                bounds@ == self.0@.subrange(0, i as int).map_values(
                    |pdf: UnivariateDensity<T>| pdf.bounds(),
                ),
                totally_ordered::<T>() ==> forall|j: int|
                    0 <= j < i ==> bound_valid(#[trigger] self.0@[j].bounds()),
            decreases self.0.len() - i,
        {
            let marginal = self.0[i].domain();
            let pair = marginal.inner().unwrap();
            bounds.push(pair);
            i = i + 1;
            assert(bounds@ =~= self.0@.subrange(0, i as int).map_values(
                |pdf: UnivariateDensity<T>| pdf.bounds(),
            ));
        }
        assert(self.0@.subrange(0, i as int) =~= self.0@);
        proof {
            if totally_ordered::<T>() {
                assert forall|j: int| 0 <= j < bounds@.len() implies bound_valid(
                    #[trigger] bounds@[j],
                ) by {
                    assert(bounds@[j] == self.0@[j].bounds());
                }
            }
        }
        Domain::new_mdomain(bounds)
    }
}

impl<T: Copy + PartialOrd + From<i8>> Clone for MultivariateDensity<T> {
    /// A copy with the same marginals, kind and parameters each.
    fn clone(&self) -> (r: Self)
        ensures
            r@.len() == self@.len(),
            forall|i: int| 0 <= i < self@.len() ==> #[trigger] r@[i].same(self@[i]),
    {
        let mut marginals: Vec<UnivariateDensity<T>> = Vec::new();
        let mut i: usize = 0;
        while i < self.0.len()
            invariant
                i <= self.0@.len(),
                marginals@.len() == i,
                forall|j: int| 0 <= j < i ==> #[trigger] marginals@[j].same(self.0@[j]),
            decreases self.0.len() - i,
        {
            marginals.push(self.0[i].clone());
            i = i + 1;
        }
        MultivariateDensity(marginals)
    }
}

/// A sample lies in the domain of a product density exactly when each of its
/// coordinates lies in the domain of that dimension's marginal.
pub proof fn lemma_product_domain_contains<T: PartialOrd + From<i8>>(
    marginals: Seq<UnivariateDensity<T>>,
    sample: Seq<T>,
)
    requires
        sample.len() == marginals.len(),
    ensures
        box_contains(product_domain(marginals)->Hypercube_0, sample) <==> forall|i: int|
            0 <= i < marginals.len() ==> box_contains(
                interval(#[trigger] marginals[i].bounds())->Hypercube_0,
                seq![sample[i]],
            ),
{
    let bounds = product_domain(marginals)->Hypercube_0;
    if box_contains(bounds, sample) {
        assert forall|i: int| 0 <= i < marginals.len() implies box_contains(
            interval(#[trigger] marginals[i].bounds())->Hypercube_0,
            seq![sample[i]],
        ) by {
            assert(within(bounds[i], sample[i]));
        }
    }
    if forall|i: int| 0 <= i < marginals.len() ==> box_contains(
        interval(#[trigger] marginals[i].bounds())->Hypercube_0,
        seq![sample[i]],
    ) {
        assert forall|i: int| 0 <= i < bounds.len() && i < sample.len() implies within(
            #[trigger] bounds[i],
            sample[i],
        ) by {
            let one = interval(marginals[i].bounds())->Hypercube_0;
            assert(box_contains(one, seq![sample[i]]));
            assert(within(one[0], seq![sample[i]][0]));
            assert(bounds[i] == marginals[i].bounds());
        }
    }
}

/// Combines one draw per marginal into a joint draw: every coordinate when
/// each marginal produced one, nothing when any of them failed.
pub fn joint_draw<T: Copy>(draws: &Vec<Option<T>>) -> (r: Option<Vec<T>>)
    ensures
        r is Some <==> forall|i: int| 0 <= i < draws@.len() ==> #[trigger] draws@[i] is Some,
        r matches Some(v) ==> v@.len() == draws@.len() && forall|i: int|
            0 <= i < draws@.len() ==> #[trigger] v@[i] == draws@[i]->0,
{
    let mut out: Vec<T> = Vec::new();
    let mut i: usize = 0;
    while i < draws.len()
        invariant
            i <= draws@.len(),
            out@.len() == i,
            forall|j: int| 0 <= j < i ==> #[trigger] draws@[j] is Some,
            forall|j: int| 0 <= j < i ==> #[trigger] out@[j] == draws@[j]->0,
        decreases draws.len() - i,
    {
        match draws[i] {
            Some(x) => out.push(x),
            None => {
                return None;
            },
        }
        i = i + 1;
    }
    Some(out)
}

impl<T: PartialOrd + From<i8>> TryFrom<MultivariateDensity<T>> for UnivariateDensity<T> {
    type Error = ();

    /// Takes the single marginal out of a one-dimensional product density;
    /// fails for any other number of dimensions.
    fn try_from(value: MultivariateDensity<T>) -> (r: Result<Self, ()>) {
        let mut marginals = value.0;
        if marginals.len() == 1 {
            match marginals.pop() {
                Some(marginal) => Ok(marginal),
                None => Err(()),
            }
        } else {
            Err(())
        }
    }
}

impl<T: PartialOrd + From<i8>> vstd::std_specs::convert::TryFromSpecImpl<MultivariateDensity<T>>
    for UnivariateDensity<T> {
    open spec fn obeys_try_from_spec() -> bool {
        true
    }

    open spec fn try_from_spec(value: MultivariateDensity<T>) -> Result<Self, ()> {
        if value@.len() == 1 {
            Ok(value@[0])
        } else {
            Err(())
        }
    }
}

} // verus!
