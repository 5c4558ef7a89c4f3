//! Construction of an outcome from an ordinary two-way [`Result`].

use crate::outcome::Resultish;
use vstd::prelude::*;

verus! {

impl<T, E> vstd::std_specs::convert::FromSpecImpl<Result<T, E>> for Resultish<T, E> {
    open spec fn obeys_from_spec() -> bool {
        true
    }

    /// `Ok` becomes `Success` and `Err` becomes `Failure`; `Both` is never
    /// produced.
    open spec fn from_spec(value: Result<T, E>) -> Self {
        match value {
            Ok(t) => Resultish::Success(t),
            Err(e) => Resultish::Failure(e),
        }
    }
}

impl<T, E> From<Result<T, E>> for Resultish<T, E> {
    /// Converts a [`Result`] into the outcome with the same payload.
    fn from(value: Result<T, E>) -> (r: Self)
        ensures
            match value {
                Ok(t) => r == Resultish::<T, E>::Success(t),
                Err(e) => r == Resultish::<T, E>::Failure(e),
            },
            r.spec_lenient() == value,
            r.spec_strict() == value,
    {
        match value {
            Ok(t) => Resultish::Success(t),
            Err(e) => Resultish::Failure(e),
        }
    }
}

} // verus!
