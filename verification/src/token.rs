//! The interface every kind of token implements.
use vstd::prelude::*;

verus! {

/// A kind of access capability.
///
/// A kind fixes how its instances come into being, what identity an instance
/// has, and what it means for an instance to match the identity that a cell
/// recorded.
pub trait TokenTrait: Sized {
    /// The process-wide state that instances of this kind are drawn from.
    type Source;

    /// Why constructing an instance can fail.
    type ConstructionError;

    /// Why [`TokenTrait::with_token`] can fail.
    type RunError;

    /// What a cell records of the token it was made with.
    type Identifier;

    /// What a comparison reports when the wrong token is presented.
    type ComparisonError;

    /// The token as it is handed to the body of [`TokenTrait::with_token`].
    type Branded<'a>;

    /// The identity of this instance.
    spec fn id(&self) -> Self::Identifier;

    /// The error that reports a token of identity `token` presented to a cell
    /// that recorded `cell`.
    spec fn mismatch(cell: Self::Identifier, token: Self::Identifier) -> Self::ComparisonError;

    /// Constructs an instance drawn from `source`.
    fn new(source: Self::Source) -> (r: Result<Self, Self::ConstructionError>);

    /// Constructs an instance and hands it, by value, to `f`.
    fn with_token<R, F: for<'a> FnOnce(Self::Branded<'a>) -> R>(source: Self::Source, f: F) -> (r:
        Result<R, Self::RunError>)
        requires
            forall|t: Self::Branded<'_>| call_requires(f, (t,)),
        ensures
            r is Ok ==> exists|t: Self::Branded<'_>| call_ensures(f, (t,), r->Ok_0),
    ;

    /// The identity that a cell made with this token records.
    fn identifier(&self) -> (id: Self::Identifier)
        ensures
            id == self.id(),
    ;

    /// Succeeds exactly when `id` is this token's own identity.
    fn compare(&self, id: &Self::Identifier) -> (r: Result<(), Self::ComparisonError>)
        ensures
            r is Ok <==> *id == self.id(),
            r matches Err(e) ==> e == Self::mismatch(*id, self.id()),
    ;
}

/// What comparing yields when `token` is presented where `identity` was
/// recorded: success when the two agree, the kind's mismatch error when they
/// do not.
pub open spec fn compared<Token: TokenTrait>(token: Token, identity: Token::Identifier) -> Result<
    (),
    Token::ComparisonError,
> {
    if identity == token.id() {
        Ok(())
    } else {
        Err(Token::mismatch(identity, token.id()))
    }
}

} // verus!
