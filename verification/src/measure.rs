//! A unit-tagged numeric wrapper: a value of type `T` carrying a
//! phantom coordinate-system tag `S`, so that quantities measured in
//! different systems cannot be mixed silently.

use vstd::prelude::*;
use core::marker::PhantomData;

verus! {

/// A value of type `T` measured in coordinate system `S`. The tag exists
/// only in the type; the value is exactly the wrapped one.
pub struct Measure<T, S>(pub T, pub PhantomData<S>);

impl<T, S> Measure<T, S> {
    /// Wrap a value.
    pub fn new(x: T) -> (r: Self)
        ensures
            r.0 == x,
    {
        Measure(x, PhantomData)
    }

    /// Apply `f` to the wrapped value, keeping the tag.
    pub fn map<U, F: FnOnce(T) -> U>(self, f: F) -> (r: Measure<U, S>)
        requires
            call_requires(f, (self.0,)),
        ensures
            call_ensures(f, (self.0,), r.0),
    {
        Measure::new(f(self.0))
    }

    /// Reinterpret the value as measured in coordinate system `S2`.
    pub fn with_sys<S2>(self) -> (r: Measure<T, S2>)
        ensures
            r.0 == self.0,
    {
        Measure::new(self.0)
    }
}

} // verus!
