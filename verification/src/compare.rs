//! Equality and ordering of outcomes.
//!
//! Two outcomes are equal when they are of the same variant and their
//! payloads are equal. Outcomes of different variants are ordered as the
//! variants are declared: every `Success` comes before every `Failure`, and
//! every `Failure` before every `Both`. Outcomes of the same variant are
//! ordered by their payloads, the success value first.

use crate::outcome::Resultish;
use crate::outcome::Resultish::{Both, Failure, Success};
use core::cmp::Ordering;
use vstd::laws_cmp::{
    obeys_cmp, obeys_cmp_ord, obeys_cmp_partial_ord, obeys_partial_cmp_spec_properties,
};
use vstd::laws_eq::{obeys_concrete_eq, obeys_eq, obeys_eq_spec_properties};
use vstd::prelude::*;
use vstd::std_specs::cmp::{PartialEqSpec, PartialOrdSpec};

verus! {

impl<T: PartialEq, E: PartialEq> vstd::std_specs::cmp::PartialEqSpecImpl for Resultish<T, E> {
    /// `==` on outcomes is as stated wherever `==` on both payloads is.
    open spec fn obeys_eq_spec() -> bool {
        T::obeys_eq_spec() && E::obeys_eq_spec()
    }

    /// Same variant, and equal payloads.
    open spec fn eq_spec(&self, other: &Resultish<T, E>) -> bool {
        match (self, other) {
            (Success(a), Success(b)) => a.eq_spec(b),
            (Failure(a), Failure(b)) => a.eq_spec(b),
            (Both(a, c), Both(b, d)) => a.eq_spec(b) && c.eq_spec(d),
            _ => false,
        }
    }
}

impl<T: PartialEq, E: PartialEq> PartialEq for Resultish<T, E> {
    /// Compares the variants, then the payloads. For payload types whose `==`
    /// is what their `eq_spec` says, the result is `self.eq_spec(other)`.
    fn eq(&self, other: &Resultish<T, E>) -> (r: bool) {
        match (self, other) {
            (Success(a), Success(b)) => a == b,
            (Failure(a), Failure(b)) => a == b,
            (Both(a, c), Both(b, d)) => a == b && c == d,
            _ => false,
        }
    }
}

impl<T: Eq, E: Eq> Eq for Resultish<T, E> {

}

impl<T: PartialOrd, E: PartialOrd> vstd::std_specs::cmp::PartialOrdSpecImpl for Resultish<T, E> {
    /// Comparison of outcomes is as stated wherever comparison of both
    /// payloads is.
    open spec fn obeys_partial_cmp_spec() -> bool {
        T::obeys_partial_cmp_spec() && E::obeys_partial_cmp_spec()
    }

    /// By variant first; within a variant by the payloads, in a `Both` by
    /// the success value and, where those compare as equal, by the error
    /// value.
    open spec fn partial_cmp_spec(&self, other: &Resultish<T, E>) -> Option<Ordering> {
        match (self, other) {
            (Success(a), Success(b)) => a.partial_cmp_spec(b),
            (Success(_), _) => Some(Ordering::Less),
            (Failure(_), Success(_)) => Some(Ordering::Greater),
            (Failure(a), Failure(b)) => a.partial_cmp_spec(b),
            (Failure(_), Both(_, _)) => Some(Ordering::Less),
            (Both(a, c), Both(b, d)) => match a.partial_cmp_spec(b) {
                Some(Ordering::Equal) => c.partial_cmp_spec(d),
                unequal => unequal,
            },
            (Both(_, _), _) => Some(Ordering::Greater),
        }
    }
}

impl<T: PartialOrd, E: PartialOrd> PartialOrd for Resultish<T, E> {
    /// Compares the variants, then the payloads, the success value first.
    /// For payload types whose comparison is what their `partial_cmp_spec`
    /// says, the result is `self.partial_cmp_spec(other)`.
    fn partial_cmp(&self, other: &Resultish<T, E>) -> (r: Option<Ordering>) {
        match (self, other) {
            (Success(a), Success(b)) => a.partial_cmp(b),
            (Success(_), _) => Some(Ordering::Less),
            (Failure(_), Success(_)) => Some(Ordering::Greater),
            (Failure(a), Failure(b)) => a.partial_cmp(b),
            (Failure(_), Both(_, _)) => Some(Ordering::Less),
            (Both(a, c), Both(b, d)) => match a.partial_cmp(b) {
                Some(Ordering::Equal) => c.partial_cmp(d),
                unequal => unequal,
            },
            (Both(_, _), _) => Some(Ordering::Greater),
        }
    }
}

/// Whether the comparison of `A` is a total order that agrees with its
/// equality: any two values compare, they compare as equal exactly when they
/// are equal, and "less" and "greater" mirror each other and are transitive.
pub open spec fn is_total_order<A: PartialOrd>() -> bool {
    &&& obeys_cmp_partial_ord::<A>()
    &&& obeys_partial_cmp_spec_properties::<A>()
    &&& forall|x: A, y: A| #[trigger] x.partial_cmp_spec(&y) is Some
}

/// A type whose `Ord` follows the laws of comparison is totally ordered.
pub proof fn lawful_ord_is_total<A: Ord>()
    requires
        obeys_cmp::<A>(),
    ensures
        is_total_order::<A>(),
{
    reveal(obeys_cmp_ord);
}

/// Where `==` on the payloads is equality of values, `==` on outcomes is
/// equality of values too.
pub proof fn eq_is_equality_of_values<T: PartialEq, E: PartialEq>()
    requires
        obeys_concrete_eq::<T>(),
        obeys_concrete_eq::<E>(),
    ensures
        obeys_concrete_eq::<Resultish<T, E>>(),
{
    reveal(obeys_concrete_eq);
}

/// Where `==` on the payloads is symmetric and transitive, so is `==` on
/// outcomes.
pub proof fn eq_is_symmetric_and_transitive<T: PartialEq, E: PartialEq>()
    requires
        obeys_eq::<T>(),
        obeys_eq::<E>(),
    ensures
        obeys_eq::<Resultish<T, E>>(),
{
    reveal(obeys_eq_spec_properties);
}

/// Outcomes of different variants are ordered by variant, whatever they
/// hold: `Success` before `Failure` before `Both`.
pub proof fn variants_are_ordered<T: PartialOrd, E: PartialOrd>(
    s: T,
    f: E,
    bt: T,
    be: E,
)
    ensures
        Success::<T, E>(s).partial_cmp_spec(&Failure(f)) == Some(Ordering::Less),
        Failure::<T, E>(f).partial_cmp_spec(&Both(bt, be)) == Some(Ordering::Less),
        Success::<T, E>(s).partial_cmp_spec(&Both(bt, be)) == Some(Ordering::Less),
        Failure::<T, E>(f).partial_cmp_spec(&Success(s)) == Some(Ordering::Greater),
        Both(bt, be).partial_cmp_spec(&Failure(f)) == Some(Ordering::Greater),
        Both(bt, be).partial_cmp_spec(&Success(s)) == Some(Ordering::Greater),
{
}

/// Outcomes of the same variant are ordered by their payloads, and in a
/// `Both` the success value decides before the error value.
pub proof fn payloads_decide_within_variant<T: PartialOrd, E: PartialOrd>(
    t1: T,
    t2: T,
    e1: E,
    e2: E,
)
    ensures
        Success::<T, E>(t1).partial_cmp_spec(&Success(t2)) == t1.partial_cmp_spec(&t2),
        Failure::<T, E>(e1).partial_cmp_spec(&Failure(e2)) == e1.partial_cmp_spec(&e2),
        t1.partial_cmp_spec(&t2) == Some(Ordering::Equal) ==> Both(t1, e1).partial_cmp_spec(
            &Both(t2, e2),
        ) == e1.partial_cmp_spec(&e2),
        t1.partial_cmp_spec(&t2) != Some(Ordering::Equal) ==> Both(t1, e1).partial_cmp_spec(
            &Both(t2, e2),
        ) == t1.partial_cmp_spec(&t2),
{
}

/// Where both payload types are totally ordered, so are the outcomes.
pub proof fn order_is_total<T: PartialOrd, E: PartialOrd>()
    requires
        is_total_order::<T>(),
        is_total_order::<E>(),
    ensures
        is_total_order::<Resultish<T, E>>(),
{
    reveal(obeys_cmp_partial_ord);
    reveal(obeys_partial_cmp_spec_properties);
    reveal(obeys_eq_spec_properties);
}

} // verus!
