//! The outcome type, its mathematical model and its operations.
//!
//! An outcome is modelled by its two optional payloads, [`Resultish::ok_part`]
//! and [`Resultish::err_part`], of which at least one is present. Every
//! contract below is stated over that pair or over the variants themselves.

use vstd::prelude::*;
use vstd::std_specs::result::{err, ok};
use Resultish::{Both, Failure, Success};

verus! {

/// The outcome of a computation: a success value, an error value, or both.
///
/// Variants are declared, and therefore ordered, as `Success`, `Failure`,
/// `Both`.
#[derive(Debug, Hash, Ord)]
#[must_use]
pub enum Resultish<T, E> {
    /// Contains only a success value.
    Success(T),
    /// Contains only an error value.
    Failure(E),
    /// Contains a success value and an error value.
    Both(T, E),
}

/// Whether the executable function `op` computes the mathematical function
/// `f`: whatever `op` returns on an argument `a` is `f(a)`.
pub open spec fn computes<A, B, F: FnOnce(A) -> B>(op: F, f: spec_fn(A) -> B) -> bool {
    forall|a: A, b: B| #[trigger] op.ensures((a,), b) ==> b == f(a)
}

impl<T, E> Resultish<T, E> {
    /// The success value, where there is one.
    pub open spec fn ok_part(self) -> Option<T> {
        match self {
            Success(t) => Some(t),
            Failure(_) => None,
            Both(t, _) => Some(t),
        }
    }

    /// The error value, where there is one.
    pub open spec fn err_part(self) -> Option<E> {
        match self {
            Success(_) => None,
            Failure(e) => Some(e),
            Both(_, e) => Some(e),
        }
    }

    /// Whether a success value is present.
    pub open spec fn spec_has_ok(&self) -> bool {
        self is Success || self is Both
    }

    /// Whether an error value is present.
    pub open spec fn spec_has_err(&self) -> bool {
        self is Failure || self is Both
    }

    /// The outcome split into its optional success and error values.
    pub open spec fn spec_tuple(self) -> (Option<T>, Option<E>) {
        (self.ok_part(), self.err_part())
    }

    /// The lenient resolution: a mixed outcome counts as a success.
    pub open spec fn spec_lenient(self) -> Result<T, E> {
        match self {
            Success(t) => Ok(t),
            Failure(e) => Err(e),
            Both(t, _) => Ok(t),
        }
    }

    /// The strict resolution: a mixed outcome counts as a failure.
    pub open spec fn spec_strict(self) -> Result<T, E> {
        match self {
            Success(t) => Ok(t),
            Failure(e) => Err(e),
            Both(_, e) => Err(e),
        }
    }

    /// The same outcome with `f` applied to the success value, where there
    /// is one.
    pub open spec fn spec_map<U>(self, f: spec_fn(T) -> U) -> Resultish<U, E> {
        match self {
            Success(t) => Success(f(t)),
            Failure(e) => Failure(e),
            Both(t, e) => Both(f(t), e),
        }
    }

    /// The same outcome with `f` applied to the error value, where there is
    /// one.
    pub open spec fn spec_map_err<F>(self, f: spec_fn(E) -> F) -> Resultish<T, F> {
        match self {
            Success(t) => Success(t),
            Failure(e) => Failure(f(e)),
            Both(t, e) => Both(t, f(e)),
        }
    }

    /// The outcome seen through shared references to its payloads.
    pub open spec fn spec_as_ref(&self) -> Resultish<&T, &E> {
        match self {
            Success(t) => Success(t),
            Failure(e) => Failure(e),
            Both(t, e) => Both(t, e),
        }
    }

    /// Converts from `&mut Resultish<T, E>` to `Resultish<&mut T, &mut E>`.
    ///
    /// The view has the shape of the outcome and starts out with its payloads;
    /// what is written through the view is what the outcome holds afterwards.
    pub fn as_mut(&mut self) -> (r: Resultish<&mut T, &mut E>)
        ensures
            match *old(self) {
                Success(t) => r matches Success(rt) && *rt == t
                    && *final(self) == Resultish::<T, E>::Success(*final(rt)),
                Failure(e) => r matches Failure(re) && *re == e
                    && *final(self) == Resultish::<T, E>::Failure(*final(re)),
                Both(t, e) => r matches Both(rt, re) && *rt == t && *re == e
                    && *final(self) == Resultish::<T, E>::Both(*final(rt), *final(re)),
            },
    {
        match self {
            Success(t) => Success(t),
            Failure(e) => Failure(e),
            Both(t, e) => Both(t, e),
        }
    }

    /// Converts from `&Resultish<T, E>` to `Resultish<&T, &E>`.
    pub fn as_ref(&self) -> (r: Resultish<&T, &E>)
        ensures
            r == self.spec_as_ref(),
    {
        match self {
            Success(t) => Success(t),
            Failure(e) => Failure(e),
            Both(t, e) => Both(t, e),
        }
    }

    /// Returns `true` if the outcome contains a success value.
    #[verifier::when_used_as_spec(spec_has_ok)]
    pub fn has_ok(&self) -> (r: bool)
        ensures
            r <==> (self is Success || self is Both),
            r <==> self.ok_part() is Some,
    {
        match self {
            Success(_) | Both(_, _) => true,
            Failure(_) => false,
        }
    }

    /// Returns `true` if the outcome contains an error value.
    #[verifier::when_used_as_spec(spec_has_err)]
    pub fn has_err(&self) -> (r: bool)
        ensures
            r <==> (self is Failure || self is Both),
            r <==> self.err_part() is Some,
    {
        match self {
            Failure(_) | Both(_, _) => true,
            Success(_) => false,
        }
    }

    /// Converts to a [`Result`] leniently: `Both` becomes `Ok`, and its error
    /// value is discarded.
    pub fn lenient(self) -> (r: Result<T, E>)
        ensures
            r == self.spec_lenient(),
            r is Ok <==> self.has_ok(),
    {
        match self {
            Success(t) => Ok(t),
            Failure(e) => Err(e),
            Both(t, _) => Ok(t),
        }
    }

    /// The error value of the lenient resolution: present for `Failure` only.
    pub fn lenient_err(self) -> (r: Option<E>)
        ensures
            r == err(self.spec_lenient()),
            r is Some <==> self is Failure,
    {
        match self {
            Success(_) => None,
            Failure(e) => Some(e),
            Both(_, _) => None,
        }
    }

    /// The success value of the lenient resolution: present whenever the
    /// outcome has a success value.
    pub fn lenient_ok(self) -> (r: Option<T>)
        ensures
            r == ok(self.spec_lenient()),
            r == self.ok_part(),
    {
        match self {
            Success(t) => Some(t),
            Failure(_) => None,
            Both(t, _) => Some(t),
        }
    }

    /// Maps a `Resultish<T, E>` to a `Resultish<U, E>` by applying `op` to the
    /// success value, where there is one, and leaving the error value
    /// untouched.
    ///
    /// `op` has to accept the success value; it is not called on an outcome
    /// without one.
    pub fn map<U, F>(self, op: F) -> (r: Resultish<U, E>) where F: FnOnce(T) -> U
        requires
            self.ok_part() matches Some(t) ==> op.requires((t,)),
        ensures
            r.err_part() == self.err_part(),
            match self.ok_part() {
                Some(t) => r.ok_part() matches Some(u) && op.ensures((t,), u),
                None => r.ok_part() is None,
            },
            forall|f: spec_fn(T) -> U| #[trigger] computes(op, f) ==> r == self.spec_map(f),
    {
        match self {
            Success(t) => Success(op(t)),
            Failure(e) => Failure(e),
            Both(t, e) => Both(op(t), e),
        }
    }

    /// Maps a `Resultish<T, E>` to a `Resultish<T, F>` by applying `op` to the
    /// error value, where there is one, and leaving the success value
    /// untouched.
    ///
    /// `op` has to accept the error value; it is not called on an outcome
    /// without one.
    pub fn map_err<F, O>(self, op: O) -> (r: Resultish<T, F>) where O: FnOnce(E) -> F
        requires
            self.err_part() matches Some(e) ==> op.requires((e,)),
        ensures
            r.ok_part() == self.ok_part(),
            match self.err_part() {
                Some(e) => r.err_part() matches Some(x) && op.ensures((e,), x),
                None => r.err_part() is None,
            },
            forall|f: spec_fn(E) -> F| #[trigger] computes(op, f) ==> r == self.spec_map_err(f),
    {
        match self {
            Success(t) => Success(t),
            Failure(e) => Failure(op(e)),
            Both(t, e) => Both(t, op(e)),
        }
    }

    /// Converts to a [`Result`] strictly: `Both` becomes `Err`, and its
    /// success value is discarded.
    pub fn strict(self) -> (r: Result<T, E>)
        ensures
            r == self.spec_strict(),
            r is Err <==> self.has_err(),
    {
        match self {
            Success(t) => Ok(t),
            Failure(e) => Err(e),
            Both(_, e) => Err(e),
        }
    }

    /// The error value of the strict resolution: present whenever the outcome
    /// has an error value.
    pub fn strict_err(self) -> (r: Option<E>)
        ensures
            r == err(self.spec_strict()),
            r == self.err_part(),
    {
        match self {
            Success(_) => None,
            Failure(e) => Some(e),
            Both(_, e) => Some(e),
        }
    }

    /// The success value of the strict resolution: present for `Success`
    /// only.
    pub fn strict_ok(self) -> (r: Option<T>)
        ensures
            r == ok(self.spec_strict()),
            r is Some <==> self is Success,
    {
        match self {
            Success(t) => Some(t),
            Failure(_) => None,
            Both(_, _) => None,
        }
    }

    /// Splits the outcome into its optional success and error values.
    pub fn tuple(self) -> (r: (Option<T>, Option<E>))
        ensures
            r == self.spec_tuple(),
            r.0 is Some || r.1 is Some,
    {
        match self {
            Success(t) => (Some(t), None),
            Failure(e) => (None, Some(e)),
            Both(t, e) => (Some(t), Some(e)),
        }
    }
}

impl<T: Clone, E: Clone> Clone for Resultish<T, E> {
    /// Clones the payloads and keeps the variant.
    fn clone(&self) -> (r: Self)
        ensures
            match *self {
                Success(t) => r matches Success(ct) && cloned(t, ct),
                Failure(e) => r matches Failure(ce) && cloned(e, ce),
                Both(t, e) => r matches Both(ct, ce) && cloned(t, ct) && cloned(e, ce),
            },
    {
        match self {
            Success(t) => Success(t.clone()),
            Failure(e) => Failure(e.clone()),
            Both(t, e) => Both(t.clone(), e.clone()),
        }
    }
}

impl<T: Copy, E: Copy> Copy for Resultish<T, E> {

}

} // verus!
