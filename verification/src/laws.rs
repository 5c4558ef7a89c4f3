//! What holds of every outcome, proved from the definitions in
//! [`crate::outcome`] and [`crate::convert`].

use crate::outcome::Resultish;
use crate::outcome::Resultish::{Both, Failure, Success};
use vstd::prelude::*;
use vstd::std_specs::convert::FromSpec;

verus! {

/// A `Success` has a success value and no error value.
pub proof fn success_has_ok_only<T, E>(t: T)
    ensures
        Success::<T, E>(t).has_ok(),
        !Success::<T, E>(t).has_err(),
{
}

/// A `Failure` has an error value and no success value.
pub proof fn failure_has_err_only<T, E>(e: E)
    ensures
        !Failure::<T, E>(e).has_ok(),
        Failure::<T, E>(e).has_err(),
{
}

/// A `Both` has a success value and an error value.
pub proof fn both_has_ok_and_err<T, E>(t: T, e: E)
    ensures
        Both(t, e).has_ok(),
        Both(t, e).has_err(),
{
}

/// Every outcome has a success value or an error value, and it has both
/// exactly when it is a `Both`.
pub proof fn some_payload_is_present<T, E>(x: Resultish<T, E>)
    ensures
        x.has_ok() || x.has_err(),
        x.has_ok() && x.has_err() <==> x is Both,
{
}

/// An outcome made from a `Result` resolves back to that `Result` under
/// either policy.
pub proof fn from_result_round_trip<T, E>(v: Result<T, E>)
    ensures
        Resultish::<T, E>::from_spec(v).spec_lenient() == v,
        Resultish::<T, E>::from_spec(v).spec_strict() == v,
        !(Resultish::<T, E>::from_spec(v) is Both),
{
}

/// An outcome that is not a `Both` is the one made from its resolution.
pub proof fn resolve_round_trip<T, E>(x: Resultish<T, E>)
    requires
        !(x is Both),
    ensures
        Resultish::<T, E>::from_spec(x.spec_lenient()) == x,
        Resultish::<T, E>::from_spec(x.spec_strict()) == x,
{
}

/// On a `Both` the lenient resolution is its success value and the strict
/// resolution is its error value.
pub proof fn policies_on_both<T, E>(t: T, e: E)
    ensures
        Both(t, e).spec_lenient() == Ok::<T, E>(t),
        Both(t, e).spec_strict() == Err::<T, E>(e),
{
}

/// The two policies agree on `Success` and on `Failure`, and disagree on
/// every `Both`.
pub proof fn policies_disagree_on_both_only<T, E>(x: Resultish<T, E>)
    ensures
        x.spec_lenient() == x.spec_strict() <==> !(x is Both),
{
}

/// The pair of optional payloads of each variant.
pub proof fn tuple_of_each_variant<T, E>(t: T, e: E)
    ensures
        Success::<T, E>(t).spec_tuple() == (Some(t), None::<E>),
        Failure::<T, E>(e).spec_tuple() == (None::<T>, Some(e)),
        Both(t, e).spec_tuple() == (Some(t), Some(e)),
{
}

/// Splitting an outcome into its optional payloads loses nothing: outcomes
/// with the same pair are the same outcome.
pub proof fn tuple_is_lossless<T, E>(x: Resultish<T, E>, y: Resultish<T, E>)
    requires
        x.spec_tuple() == y.spec_tuple(),
    ensures
        x == y,
{
}

/// Mapping the success value with a function that returns its argument
/// gives the outcome back.
pub proof fn map_identity<T, E>(x: Resultish<T, E>, id: spec_fn(T) -> T)
    requires
        forall|t: T| #[trigger] id(t) == t,
    ensures
        x.spec_map(id) == x,
{
}

/// Mapping the success value with `f` and then with `g` is mapping it with
/// their composition.
pub proof fn map_composition<T, U, V, E>(
    x: Resultish<T, E>,
    f: spec_fn(T) -> U,
    g: spec_fn(U) -> V,
    gf: spec_fn(T) -> V,
)
    requires
        forall|t: T| #[trigger] gf(t) == g(f(t)),
    ensures
        x.spec_map(f).spec_map(g) == x.spec_map(gf),
{
}

/// Mapping the error value with a function that returns its argument gives
/// the outcome back.
pub proof fn map_err_identity<T, E>(x: Resultish<T, E>, id: spec_fn(E) -> E)
    requires
        forall|e: E| #[trigger] id(e) == e,
    ensures
        x.spec_map_err(id) == x,
{
}

/// Mapping the error value with `f` and then with `g` is mapping it with
/// their composition.
pub proof fn map_err_composition<T, E, F, G>(
    x: Resultish<T, E>,
    f: spec_fn(E) -> F,
    g: spec_fn(F) -> G,
    gf: spec_fn(E) -> G,
)
    requires
        forall|e: E| #[trigger] gf(e) == g(f(e)),
    ensures
        x.spec_map_err(f).spec_map_err(g) == x.spec_map_err(gf),
{
}

/// Mapping the success value and mapping the error value do not interfere:
/// they can be done in either order.
pub proof fn map_and_map_err_commute<T, U, E, F>(
    x: Resultish<T, E>,
    f: spec_fn(T) -> U,
    g: spec_fn(E) -> F,
)
    ensures
        x.spec_map(f).spec_map_err(g) == x.spec_map_err(g).spec_map(f),
{
}

} // verus!
