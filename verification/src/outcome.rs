use vstd::prelude::*;

use crate::error::Error;

verus! {

/// The outcome of an application-level operation: a success value, or the
/// canonical error.
#[derive(Debug)]
pub enum Outcome<T> {
    /// A success carrying the operation's value.
    Success(T),
    /// A failure carrying the canonical error.
    Failure(Error),
}

impl<T> Outcome<T> {
    /// Applies `f` to a success value; a failure passes through untouched.
    pub fn map<U, F: FnOnce(T) -> U>(self, f: F) -> (r: Outcome<U>)
        requires
            self matches Outcome::Success(t) ==> call_requires(f, (t,)),
        ensures
            self matches Outcome::Failure(e) ==> r == Outcome::<U>::Failure(e),
            self matches Outcome::Success(t) ==> (r matches Outcome::Success(u)
                && call_ensures(f, (t,), u)),
    {
        match self {
            Outcome::Success(t) => Outcome::Success(f(t)),
            Outcome::Failure(e) => Outcome::Failure(e),
        }
    }
}

impl<T> From<core::result::Result<T, Error>> for Outcome<T> {
    /// Wraps a standard result whose error is already the canonical error.
    fn from(res: core::result::Result<T, Error>) -> (r: Outcome<T>) {
        match res {
            Ok(t) => Outcome::Success(t),
            Err(e) => Outcome::Failure(e),
        }
    }
}

impl<T> vstd::std_specs::convert::FromSpecImpl<core::result::Result<T, Error>> for Outcome<T> {
    open spec fn obeys_from_spec() -> bool {
        true
    }

    open spec fn from_spec(res: core::result::Result<T, Error>) -> Outcome<T> {
        match res {
            Ok(t) => Outcome::Success(t),
            Err(e) => Outcome::Failure(e),
        }
    }
}

} // verus!
