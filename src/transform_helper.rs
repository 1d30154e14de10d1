//! Reshaping of returned values by their static shape.

use vstd::prelude::*;
use vstd::std_specs::convert::FromSpec;
use crate::error::BridgeError;

verus! {

/// A value wrapper whose methods reshape `Result`, `Option` and boxed slices
/// and leave every other value as it is.
///
/// Methods written for one shape of `T` live on concrete instantiations of
/// the wrapper; the fallback methods of the same names live on
/// [`TransformHelperImpl`]. Method lookup prefers the inherent method, so the
/// most specific reshape is chosen statically.
pub struct TransformHelper<T>(pub T);

impl<T> TransformHelper<T> {
    /// Extracts the wrapped value and converts it with `From`.
    pub fn into<U: From<T>>(self) -> (r: U)
        ensures
            call_ensures(U::from, (self.0,), r),
            U::obeys_from_spec() ==> r == U::from_spec(self.0),
    {
        U::from(self.0)
    }
}

impl<T, E> TransformHelper<Result<T, E>> {
    /// A wrapped `Result` moves the wrapper inside its success case.
    pub fn ok_if_needed(self) -> (r: Result<TransformHelper<T>, E>)
        ensures
            match self.0 {
                Ok(v) => r == Ok::<TransformHelper<T>, E>(TransformHelper(v)),
                Err(e) => r == Err::<TransformHelper<T>, E>(e),
            },
    {
        match self.0 {
            Ok(v) => Ok(TransformHelper(v)),
            Err(e) => Err(e),
        }
    }
}

impl<T> TransformHelper<Option<T>> {
    /// A wrapped `Option` has its contents converted with `From`; absence
    /// stays absence.
    pub fn option_map_into<U: From<T>>(self) -> (r: TransformHelper<Option<U>>)
        ensures
            match self.0 {
                None => r.0 == None::<U>,
                Some(x) => r.0 matches Some(y) && call_ensures(U::from, (x,), y),
            },
            U::obeys_from_spec() ==> r.0 == option_from_spec::<T, U>(self.0),
    {
        match self.0 {
            None => TransformHelper(None),
            Some(x) => TransformHelper(Some(U::from(x))),
        }
    }
}

/// What converting the contents of an optional value gives, for a `From`
/// that states its result.
pub open spec fn option_from_spec<T, U: From<T>>(o: Option<T>) -> Option<U> {
    match o {
        None => None,
        Some(x) => Some(U::from_spec(x)),
    }
}

impl<T> TransformHelper<Box<[T]>> {
    /// A wrapped boxed slice becomes a `Vec` with the same elements in the
    /// same order.
    pub fn into_vec_if_needed(self) -> (r: TransformHelper<Vec<T>>)
        ensures
            r.0@ == self.0@,
    {
        TransformHelper(self.0.into_vec())
    }
}

/// The fallback reshapes: each leaves the wrapped value as it is.
pub trait TransformHelperImpl: Sized {
    /// A value that is not a `Result` is always a success.
    fn ok_if_needed(self) -> (r: Result<Self, BridgeError>)
        ensures
            r == Ok::<Self, BridgeError>(self),
    ;

    /// A value that is not an `Option` is not converted.
    fn option_map_into(self) -> (r: Self)
        ensures
            r == self,
    ;

    /// A value that is not a boxed slice is not converted.
    fn into_vec_if_needed(self) -> (r: Self)
        ensures
            r == self,
    ;
}

impl<T> TransformHelperImpl for TransformHelper<T> {
    fn ok_if_needed(self) -> (r: Result<Self, BridgeError>) {
        Ok(self)
    }

    fn option_map_into(self) -> (r: Self) {
        self
    }

    fn into_vec_if_needed(self) -> (r: Self) {
        self
    }
}

} // verus!
