//! How the scalar type `T` of the densities is ordered, and which small
//! integer constants it holds.

use vstd::prelude::*;
use vstd::std_specs::cmp::PartialOrdSpec;
use vstd::std_specs::cmp::PartialOrdIs;
use vstd::std_specs::cmp::PartialEqSpec;
use vstd::std_specs::convert::FromSpec;
use core::cmp::Ordering;

verus! {

/// The comparison operators of `T` follow its comparison specification
/// (true of the integer types; not specified for floating point, where NaN
/// compares with nothing).
pub open spec fn comparable<T: PartialOrd>() -> bool {
    T::obeys_partial_cmp_spec()
}

/// `T` is totally ordered: any two values compare, every value equals
/// itself, and swapping two values reverses their comparison.
pub open spec fn totally_ordered<T: PartialOrd>() -> bool {
    &&& T::obeys_partial_cmp_spec()
    &&& forall|x: T, y: T| #[trigger] x.partial_cmp_spec(&y) is Some
    &&& forall|x: T| #[trigger] x.partial_cmp_spec(&x) == Some(Ordering::Equal)
    &&& forall|x: T, y: T|
        (#[trigger] x.partial_cmp_spec(&y) == Some(Ordering::Less)) == (y.partial_cmp_spec(&x)
            == Some(Ordering::Greater))
    &&& forall|x: T, y: T|
        (#[trigger] x.partial_cmp_spec(&y) == Some(Ordering::Equal)) == (y.partial_cmp_spec(&x)
            == Some(Ordering::Equal))
}

/// `x <= y`.
pub open spec fn le<T: PartialOrd>(x: T, y: T) -> bool {
    x.is_le(&y)
}

/// `x < y`.
pub open spec fn lt<T: PartialOrd>(x: T, y: T) -> bool {
    x.is_lt(&y)
}

/// `x >= y`.
pub open spec fn ge<T: PartialOrd>(x: T, y: T) -> bool {
    x.is_ge(&y)
}

/// `x > y`.
pub open spec fn gt<T: PartialOrd>(x: T, y: T) -> bool {
    x.is_gt(&y)
}

/// Conversions from `i8` into `T` follow their specification.
pub open spec fn converts<T: From<i8>>() -> bool {
    T::obeys_from_spec()
}

/// The value `k` in `T`.
pub open spec fn num<T: From<i8>>(k: i8) -> T {
    T::from_spec(k)
}

/// The value `k` in `T`, converted at run time.
pub fn constant<T: From<i8>>(k: i8) -> (r: T)
    ensures
        converts::<T>() ==> r == num::<T>(k),
{
    T::from(k)
}

} // verus!

verus! {

/// Equality tests on `T` follow its equality specification.
pub open spec fn equatable<T: PartialEq>() -> bool {
    T::obeys_eq_spec()
}

/// `x == y` in the sense of `T`'s equality.
pub open spec fn eq<T: PartialEq>(x: T, y: T) -> bool {
    x.eq_spec(&y)
}

} // verus!
