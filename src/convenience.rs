//! Scope functions in the style of Kotlin's, for any value.
use vstd::prelude::*;

verus! {

pub trait KtConvenience: Sized {
    /// Hands the value to `f` and returns what `f` returns.
    fn pipe<T, F: FnOnce(Self) -> T>(self, f: F) -> (r: T)
        requires
            f.requires((self,)),
        ensures
            f.ensures((self,), r),
    {
        f(self)
    }

    /// The value, when `predicate` holds of it.
    fn take_if<F: FnOnce(&Self) -> bool>(self, predicate: F) -> (r: Option<Self>)
        requires
            predicate.requires((&self,)),
        ensures
            r is Some ==> predicate.ensures((&self,), true) && r == Some(self),
            r is None ==> predicate.ensures((&self,), false),
    {
        if predicate(&self) {
            Some(self)
        } else {
            None
        }
    }

    /// Lets `f` look at the value, then returns it.
    fn also<F: FnOnce(&Self)>(self, f: F) -> (r: Self)
        requires
            f.requires((&self,)),
        ensures
            r == self,
    {
        f(&self);
        self
    }
}

impl<T> KtConvenience for T {

}

} // verus!
