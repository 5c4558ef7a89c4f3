//! A [`Resultish`] is the outcome of a computation that can succeed, fail, or
//! do both at once: produce a usable value together with an error worth
//! reporting. It collapses into an ordinary [`Result`] under one of two
//! policies:
//! - [`Resultish::lenient`], which keeps the success value of a mixed outcome
//!   and drops its error;
//! - [`Resultish::strict`], which keeps the error of a mixed outcome and drops
//!   its success value.

pub mod compare;
pub mod convert;
pub mod laws;
pub mod outcome;

pub use outcome::Resultish;
