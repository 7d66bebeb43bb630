//! Tokens that nothing tells apart: the caller keeps them unique.
use vstd::prelude::*;
use core::convert::Infallible;
use crate::token::TokenTrait;

verus! {

/// A token without an identity of its own.
///
/// Every instance opens every cell made with any instance. It is for callers
/// that make sure by other means that one instance serves one domain of
/// cells, such as one token behind one lock.
pub struct UncheckedToken(());

impl TokenTrait for UncheckedToken {
    type Source = ();

    type ConstructionError = Infallible;

    type RunError = Infallible;

    type Identifier = ();

    type ComparisonError = Infallible;

    type Branded<'a> = Self;

    open spec fn id(&self) -> () {
        ()
    }

    /// No comparison of this kind fails, so no value is ever asked of this.
    open spec fn mismatch(cell: (), token: ()) -> Infallible {
        arbitrary()
    }

    /// Always succeeds.
    fn new(source: ()) -> (r: Result<Self, Infallible>)
        ensures
            r is Ok,
    {
        Ok(UncheckedToken(()))
    }

    /// Always runs `f`, on a new token.
    fn with_token<R, F: for<'a> FnOnce(Self::Branded<'a>) -> R>(source: (), f: F) -> (r: Result<
        R,
        Infallible,
    >)
        ensures
            r is Ok,
    {
        match Self::new(source) {
            Ok(token) => {
                let ghost handed = token;
                let r = Ok(f(token));
                assert(call_ensures(f, (handed,), r->Ok_0));
                r
            },
            Err(e) => Err(e),
        }
    }

    fn identifier(&self) -> (id: ()) {
        self.0
    }

    /// Always succeeds.
    fn compare(&self, id: &()) -> (r: Result<(), Infallible>)
        ensures
            r is Ok,
    {
        Ok(())
    }
}

} // verus!
