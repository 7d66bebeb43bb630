//! Operations bound to a cell now and run when a token is presented.
use vstd::prelude::*;
use core::convert::Infallible;
use core::marker::PhantomData;
use crate::cell::TokenCellTrait;
use crate::cell::TokenGuard;
use crate::cell::TokenGuardMut;
use crate::token::compared;
use crate::token::TokenTrait;

verus! {

/// An operation that waits for a token to read a cell with.
#[must_use]
#[verifier::reject_recursive_types(U)]
pub struct TokenMap<
    'a,
    T,
    U,
    F: FnOnce(TokenGuard<'a, T, Token>) -> U,
    Cell,
    Token: TokenTrait + 'a,
> {
    cell: &'a Cell,
    f: F,
    marker: PhantomData<(&'a T, U, Token)>,
}

impl<'a, T, U, F: FnOnce(TokenGuard<'a, T, Token>) -> U, Token: TokenTrait, Cell> TokenMap<
    'a,
    T,
    U,
    F,
    Cell,
    Token,
> {
    /// The cell that the operation is bound to.
    pub closed spec fn held_cell(&self) -> &'a Cell {
        self.cell
    }

    /// The operation that waits.
    pub closed spec fn operation(&self) -> F {
        self.f
    }

    /// Binds `f` to `cell`; nothing runs yet.
    pub(crate) fn bind(cell: &'a Cell, f: F) -> (m: Self)
        ensures
            *m.held_cell() == *cell,
            m.operation() == f,
    {
        TokenMap { cell, f, marker: PhantomData }
    }
}

impl<
    'a,
    T,
    U,
    F: FnOnce(TokenGuard<'a, T, Token>) -> U,
    Token: TokenTrait,
    Cell: TokenCellTrait<T, Token>,
> TokenMap<'a, T, U, F, Cell, Token> {
    /// Whether `g` is a guard over the bound cell and `token`.
    pub open spec fn guards(&self, g: TokenGuard<'a, T, Token>, token: Token) -> bool {
        g.held_cell()@ == self.held_cell()@ && *g.held_token() == token
    }

    /// Compares, and on success runs the operation on the guard. On failure
    /// the operation is handed back with the error, ready for another token.
    pub fn try_apply(self, token: &'a Token) -> (r: Result<U, (Self, Token::ComparisonError)>)
        requires
            compared(*token, self.held_cell()@.identity) is Ok ==> forall|
                g: TokenGuard<'a, T, Token>,
            | self.guards(g, *token) ==> call_requires(self.operation(), (g,)),
        ensures
            match r {
                Ok(u) => {
                    &&& compared(*token, self.held_cell()@.identity) is Ok
                    &&& exists|g: TokenGuard<'a, T, Token>|
                        self.guards(g, *token) && call_ensures(self.operation(), (g,), u)
                },
                Err((m, e)) => {
                    &&& compared(*token, self.held_cell()@.identity) == Err::<(), _>(e)
                    &&& m == self
                },
            },
    {
        match self.cell.try_guard(token) {
            Ok(borrowed) => {
                let ghost g = borrowed;
                assert(self.guards(g, *token));
                let u = (self.f)(borrowed);
                assert(self.guards(g, *token) && call_ensures(self.operation(), (g,), u));
                Ok(u)
            },
            Err(e) => Err((self, e)),
        }
    }

    /// Runs the operation on the guard, for a kind whose comparison cannot
    /// fail; the caller has shown that `token` is the right one.
    pub fn apply(self, token: &'a Token) -> (u: U) where
        Token: TokenTrait<ComparisonError = Infallible>,

        requires
            compared(*token, self.held_cell()@.identity) is Ok,
            forall|g: TokenGuard<'a, T, Token>|
                self.guards(g, *token) ==> call_requires(self.operation(), (g,)),
        ensures
            exists|g: TokenGuard<'a, T, Token>|
                self.guards(g, *token) && call_ensures(self.operation(), (g,), u),
    {
        match self.cell.try_guard(token) {
            Ok(borrowed) => {
                let ghost g = borrowed;
                assert(self.guards(g, *token));
                let u = (self.f)(borrowed);
                assert(self.guards(g, *token) && call_ensures(self.operation(), (g,), u));
                u
            },
            Err(_) => vstd::pervasive::unreached(),
        }
    }
}

/// An operation that waits for a token to write a cell with.
///
/// Letting it go without applying it leaves the cell as it was.
#[must_use]
#[verifier::reject_recursive_types(U)]
pub struct TokenMapMut<
    'a,
    T,
    U,
    F: FnOnce(TokenGuardMut<'a, T, Token>) -> U,
    Cell,
    Token: TokenTrait + 'a,
> {
    cell: &'a mut Cell,
    f: F,
    marker: PhantomData<(&'a T, U, Token)>,
}

impl<'a, T, U, F: FnOnce(TokenGuardMut<'a, T, Token>) -> U, Token: TokenTrait, Cell> TokenMapMut<
    'a,
    T,
    U,
    F,
    Cell,
    Token,
> {
    /// The borrow of the cell that the operation is bound to.
    pub closed spec fn held_cell(&self) -> &'a mut Cell {
        self.cell
    }

    /// The operation that waits.
    pub closed spec fn operation(&self) -> F {
        self.f
    }

    /// Binds `f` to `cell`; nothing runs yet.
    pub(crate) fn bind(cell: &'a mut Cell, f: F) -> (m: Self)
        ensures
            *m.held_cell() == *old(cell),
            *final(m.held_cell()) == *final(cell),
            m.operation() == f,
    {
        TokenMapMut { cell, f, marker: PhantomData }
    }
}

impl<
    'a,
    T,
    U,
    F: FnOnce(TokenGuardMut<'a, T, Token>) -> U,
    Token: TokenTrait,
    Cell: TokenCellTrait<T, Token>,
> TokenMapMut<'a, T, U, F, Cell, Token> {
    /// Whether `g` is a guard that starts from the bound cell and from `token`.
    pub open spec fn guards(&self, g: TokenGuardMut<'a, T, Token>, token: Token) -> bool {
        g.held_cell()@ == self.held_cell()@ && *g.held_token() == token
    }

    /// Compares, and on success runs the operation on the guard: the cell and
    /// the token end as the operation leaves them. On failure both are as
    /// they were, and the operation is gone.
    pub fn try_apply(self, token: &'a mut Token) -> (r: Result<U, Token::ComparisonError>)
        requires
            compared(*old(token), self.held_cell()@.identity) is Ok ==> forall|
                g: TokenGuardMut<'a, T, Token>,
            | self.guards(g, *old(token)) ==> call_requires(self.operation(), (g,)),
        ensures
            match r {
                Ok(u) => {
                    &&& compared(*old(token), self.held_cell()@.identity) is Ok
                    &&& exists|g: TokenGuardMut<'a, T, Token>|
                        {
                            &&& self.guards(g, *old(token))
                            &&& final(g.held_cell())@ == final(self.held_cell())@
                            &&& *final(g.held_token()) == *final(token)
                            &&& call_ensures(self.operation(), (g,), u)
                        }
                },
                Err(e) => {
                    &&& compared(*old(token), self.held_cell()@.identity) == Err::<(), _>(e)
                    &&& final(self.held_cell())@ == self.held_cell()@
                    &&& *final(token) == *old(token)
                },
            },
    {
        let ghost bound = self;
        let TokenMapMut { cell, f, marker: _ } = self;
        match cell.try_guard_mut(token) {
            Ok(borrowed) => {
                let ghost g = borrowed;
                assert(bound.guards(g, *old(token)));
                let u = f(borrowed);
                assert(call_ensures(bound.operation(), (g,), u));
                Ok(u)
            },
            Err(e) => Err(e),
        }
    }

    /// Runs the operation on the guard, for a kind whose comparison cannot
    /// fail; the caller has shown that `token` is the right one.
    pub fn apply(self, token: &'a mut Token) -> (u: U) where
        Token: TokenTrait<ComparisonError = Infallible>,

        requires
            compared(*old(token), self.held_cell()@.identity) is Ok,
            forall|g: TokenGuardMut<'a, T, Token>|
                self.guards(g, *old(token)) ==> call_requires(self.operation(), (g,)),
        ensures
            exists|g: TokenGuardMut<'a, T, Token>|
                {
                    &&& self.guards(g, *old(token))
                    &&& final(g.held_cell())@ == final(self.held_cell())@
                    &&& *final(g.held_token()) == *final(token)
                    &&& call_ensures(self.operation(), (g,), u)
                },
    {
        let ghost bound = self;
        let TokenMapMut { cell, f, marker: _ } = self;
        match cell.try_guard_mut(token) {
            Ok(borrowed) => {
                let ghost g = borrowed;
                assert(bound.guards(g, *old(token)));
                let u = f(borrowed);
                assert(call_ensures(bound.operation(), (g,), u));
                u
            },
            Err(_) => vstd::pervasive::unreached(),
        }
    }
}

/// An operation that is let go without being applied gives the cell back as
/// it was.
pub proof fn lemma_map_resolved<
    'a,
    T,
    U,
    F: FnOnce(TokenGuardMut<'a, T, Token>) -> U,
    Cell,
    Token: TokenTrait,
>(m: TokenMapMut<'a, T, U, F, Cell, Token>)
    ensures
        has_resolved(m) ==> *final(m.held_cell()) == *m.held_cell(),
{
}

} // verus!
