//! Tokens told apart at compile time by a lifetime that no two of them share.
use vstd::prelude::*;
use core::convert::Infallible;
use core::marker::PhantomData;
use crate::token::TokenTrait;

verus! {

/// A lifetime that can neither be shortened nor lengthened; it is the
/// identity of a [`GhostToken`].
#[derive(Clone, Copy)]
pub struct InvariantLifetime<'a>(PhantomData<&'a mut &'a ()>);

impl<'a> InvariantLifetime<'a> {
    fn new() -> (brand: Self) {
        InvariantLifetime(PhantomData)
    }
}

/// A token whose brand is a lifetime of its own.
///
/// It exists only inside the function handed to `with_token`, and no two
/// calls share a brand, so a cell made with one token is never even offered
/// another: the comparison has nothing left to check.
pub struct GhostToken<'brand>(InvariantLifetime<'brand>);

impl<'brand> TokenTrait for GhostToken<'brand> {
    type Source = ();

    type ConstructionError = ();

    type RunError = Infallible;

    type Identifier = InvariantLifetime<'brand>;

    type ComparisonError = Infallible;

    type Branded<'a> = GhostToken<'a>;

    closed spec fn id(&self) -> InvariantLifetime<'brand> {
        self.0
    }

    /// No comparison of this kind fails, so no value is ever asked of this.
    open spec fn mismatch(
        cell: InvariantLifetime<'brand>,
        token: InvariantLifetime<'brand>,
    ) -> Infallible {
        arbitrary()
    }

    /// Never succeeds: a token of this kind comes only from `with_token`.
    fn new(source: ()) -> (r: Result<Self, ()>)
        ensures
            r is Err,
    {
        Err(())
    }

    /// Always runs `f`, on a token of a brand that is new with this call.
    fn with_token<R, F: for<'a> FnOnce(GhostToken<'a>) -> R>(source: (), f: F) -> (r: Result<
        R,
        Infallible,
    >)
        ensures
            r is Ok,
    {
        let token = GhostToken(InvariantLifetime::new());
        let ghost handed = token;
        let r = Ok(f(token));
        assert(call_ensures(f, (handed,), r->Ok_0));
        r
    }

    fn identifier(&self) -> (id: InvariantLifetime<'brand>) {
        self.0
    }

    /// Always succeeds.
    fn compare(&self, id: &InvariantLifetime<'brand>) -> (r: Result<(), Infallible>)
        ensures
            r is Ok,
    {
        Ok(())
    }
}

} // verus!
