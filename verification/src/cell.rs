//! The guarded cell and the guards that a successful comparison yields.
use vstd::prelude::*;
use core::ops::Deref;
use core::ops::DerefMut;
use crate::monads::TokenMap;
use crate::monads::TokenMapMut;
use crate::token::compared;
use crate::token::TokenTrait;

verus! {

/// What a guarded cell is, mathematically: the identity it recorded when it
/// was made, and the value it holds now.
pub ghost struct CellState<Id, T> {
    pub identity: Id,
    pub value: T,
}

impl<Id, T> CellState<Id, T> {
    /// The state after `value` has been written: the identity stays.
    pub open spec fn write(self, value: T) -> Self {
        CellState { identity: self.identity, value }
    }
}

/// Ways to reach the value of a guarded cell.
///
/// A token is compared at every access. Reading asks for shared access to the
/// cell and to the token; writing asks for exclusive access to both.
///
/// The view of a cell is the identity it recorded and the value it holds.
pub trait TokenCellTrait<T, Token: TokenTrait>: Sized + View<V = CellState<Token::Identifier, T>> {
    /// Makes a cell that holds `inner` and records the identity of `token`.
    fn new(inner: T, token: &Token) -> (cell: Self)
        ensures
            cell@ == (CellState { identity: token.id(), value: inner }),
    ;

    /// Compares, and on success yields a guard that reads the value and gives
    /// the token back.
    fn try_guard<'l>(&'l self, token: &'l Token) -> (r: Result<
        TokenGuard<'l, T, Token>,
        Token::ComparisonError,
    >)
        ensures
            match r {
                Ok(g) => compared(*token, self@.identity) is Ok && g.held_cell()@ == self@
                    && *g.held_token() == *token,
                Err(e) => compared(*token, self@.identity) == Err::<(), _>(e),
            },
    ;

    /// Compares, and on success yields the value.
    fn try_borrow<'l>(&'l self, token: &'l Token) -> (r: Result<&'l T, Token::ComparisonError>)
        ensures
            match r {
                Ok(v) => compared(*token, self@.identity) is Ok && *v == self@.value,
                Err(e) => compared(*token, self@.identity) == Err::<(), _>(e),
            },
    ;

    /// Compares, and on success yields a guard that reads and writes the value
    /// and gives the token back. On failure the cell and the token are as they
    /// were.
    fn try_guard_mut<'l>(&'l mut self, token: &'l mut Token) -> (r: Result<
        TokenGuardMut<'l, T, Token>,
        Token::ComparisonError,
    >)
        ensures
            match r {
                Ok(g) => {
                    &&& compared(*old(token), old(self)@.identity) is Ok
                    &&& g.held_cell()@ == old(self)@
                    &&& final(g.held_cell())@ == final(self)@
                    &&& *g.held_token() == *old(token)
                    &&& *final(g.held_token()) == *final(token)
                },
                Err(e) => {
                    &&& compared(*old(token), old(self)@.identity) == Err::<(), _>(e)
                    &&& final(self)@ == old(self)@
                    &&& *final(token) == *old(token)
                },
            },
    ;

    /// Compares, and on success yields the value for writing: what the cell
    /// holds afterwards is what was last written through the reference. On
    /// failure the cell is as it was. The token is unchanged either way.
    fn try_borrow_mut<'l>(&'l mut self, token: &'l mut Token) -> (r: Result<
        &'l mut T,
        Token::ComparisonError,
    >)
        ensures
            *final(token) == *old(token),
            match r {
                Ok(v) => {
                    &&& compared(*old(token), old(self)@.identity) is Ok
                    &&& *v == old(self)@.value
                    &&& final(self)@ == old(self)@.write(*final(v))
                },
                Err(e) => {
                    &&& compared(*old(token), old(self)@.identity) == Err::<(), _>(e)
                    &&& final(self)@ == old(self)@
                },
            },
    ;

    /// Yields the value; the caller has shown that `token` is the right one.
    fn borrow<'l>(&'l self, token: &'l Token) -> (v: &'l T)
        requires
            compared(*token, self@.identity) is Ok,
        ensures
            *v == self@.value,
    {
        match self.try_borrow(token) {
            Ok(v) => v,
            Err(_) => vstd::pervasive::unreached(),
        }
    }

    /// Yields the value for writing; the caller has shown that `token` is the
    /// right one.
    fn borrow_mut<'l>(&'l mut self, token: &'l mut Token) -> (v: &'l mut T)
        requires
            compared(*old(token), old(self)@.identity) is Ok,
        ensures
            *v == old(self)@.value,
            final(self)@ == old(self)@.write(*final(v)),
            *final(token) == *old(token),
    {
        match self.try_borrow_mut(token) {
            Ok(v) => v,
            Err(_) => vstd::pervasive::unreached(),
        }
    }

    /// Binds `f` to this cell, to be run once a token is presented.
    fn map<'a, U, F: FnOnce(TokenGuard<'a, T, Token>) -> U>(&'a self, f: F) -> (m: TokenMap<
        'a,
        T,
        U,
        F,
        Self,
        Token,
    >)
        ensures
            *m.held_cell() == *self,
            m.operation() == f,
    {
        TokenMap::bind(self, f)
    }

    /// Binds `f` to this cell, to be run once a token is presented for writing.
    fn map_mut<'a, U, F: FnOnce(TokenGuardMut<'a, T, Token>) -> U>(&'a mut self, f: F) -> (m:
        TokenMapMut<'a, T, U, F, Self, Token>)
        ensures
            *m.held_cell() == *old(self),
            *final(m.held_cell()) == *final(self),
            m.operation() == f,
    {
        TokenMapMut::bind(self, f)
    }
}

/// A value that is reached by presenting the token it was made with.
pub struct TokenCell<T, Token: TokenTrait> {
    token_id: Token::Identifier,
    inner: T,
}

impl<T, Token: TokenTrait> TokenCell<T, Token> {
    /// Exclusive access to the cell is proof enough: no token is asked for.
    pub fn get_mut(&mut self) -> (v: &mut T)
        ensures
            *v == old(self)@.value,
            final(self)@ == old(self)@.write(*final(v)),
    {
        &mut self.inner
    }

    /// Unwraps the value; owning the cell is proof enough.
    pub fn into_inner(self) -> (v: T)
        ensures
            v == self@.value,
    {
        self.inner
    }
}

impl<T, Token: TokenTrait> View for TokenCell<T, Token> {
    type V = CellState<Token::Identifier, T>;

    closed spec fn view(&self) -> CellState<Token::Identifier, T> {
        CellState { identity: self.token_id, value: self.inner }
    }
}

impl<T, Token: TokenTrait> TokenCellTrait<T, Token> for TokenCell<T, Token> {
    fn new(inner: T, token: &Token) -> (cell: Self) {
        TokenCell { token_id: token.identifier(), inner }
    }

    fn try_guard<'l>(&'l self, token: &'l Token) -> (r: Result<
        TokenGuard<'l, T, Token>,
        Token::ComparisonError,
    >) {
        match token.compare(&self.token_id) {
            Ok(_) => Ok(TokenGuard { cell: self, token }),
            Err(e) => Err(e),
        }
    }

    fn try_borrow<'l>(&'l self, token: &'l Token) -> (r: Result<&'l T, Token::ComparisonError>) {
        match token.compare(&self.token_id) {
            Ok(_) => Ok(&self.inner),
            Err(e) => Err(e),
        }
    }

    fn try_guard_mut<'l>(&'l mut self, token: &'l mut Token) -> (r: Result<
        TokenGuardMut<'l, T, Token>,
        Token::ComparisonError,
    >) {
        match token.compare(&self.token_id) {
            Ok(_) => Ok(TokenGuardMut { cell: self, token }),
            Err(e) => Err(e),
        }
    }

    fn try_borrow_mut<'l>(&'l mut self, token: &'l mut Token) -> (r: Result<
        &'l mut T,
        Token::ComparisonError,
    >) {
        match token.compare(&self.token_id) {
            Ok(_) => Ok(&mut self.inner),
            Err(e) => Err(e),
        }
    }
}

/// Shared access to a cell's value, together with the token that was presented.
pub struct TokenGuard<'a, T, Token: TokenTrait> {
    cell: &'a TokenCell<T, Token>,
    token: &'a Token,
}

impl<'a, T, Token: TokenTrait> TokenGuard<'a, T, Token> {
    /// A guard exists only for a token that the cell accepted.
    #[verifier::type_invariant]
    spec fn accepted(self) -> bool {
        compared(*self.token, self.cell@.identity) is Ok
    }

    /// The cell that this guard reads.
    pub closed spec fn held_cell(&self) -> &'a TokenCell<T, Token> {
        self.cell
    }

    /// The token that was presented.
    pub closed spec fn held_token(&self) -> &'a Token {
        self.token
    }

    /// The token that was presented; it is one that the cell accepts.
    pub fn token(&self) -> (t: &Token)
        ensures
            *t == *self.held_token(),
            compared(*t, self.held_cell()@.identity) is Ok,
    {
        proof {
            use_type_invariant(self);
        }
        self.token
    }
}

impl<'a, T, Token: TokenTrait> Deref for TokenGuard<'a, T, Token> {
    type Target = T;

    fn deref(&self) -> (v: &T)
        ensures
            *v == self.held_cell()@.value,
    {
        &self.cell.inner
    }
}

/// Exclusive access to a cell's value, together with the token that was
/// presented.
pub struct TokenGuardMut<'a, T, Token: TokenTrait> {
    cell: &'a mut TokenCell<T, Token>,
    token: &'a mut Token,
}

impl<'a, T, Token: TokenTrait> TokenGuardMut<'a, T, Token> {
    /// The borrow of the cell that this guard holds.
    pub closed spec fn held_cell(&self) -> &'a mut TokenCell<T, Token> {
        self.cell
    }

    /// The borrow of the token that this guard holds.
    pub closed spec fn held_token(&self) -> &'a mut Token {
        self.token
    }

    /// The token that was presented.
    pub fn token(&self) -> (t: &Token)
        ensures
            *t == *self.held_token(),
    {
        &*self.token
    }

    /// The token that was presented, for writing. The guard keeps its hold on
    /// the cell.
    pub fn token_mut(&mut self) -> (t: &mut Token)
        ensures
            *t == *old(self).held_token(),
            *final(self).held_token() == *final(t),
            *final(final(self).held_token()) == *final(old(self).held_token()),
            final(self).held_cell() == old(self).held_cell(),
    {
        &mut *self.token
    }
}

/// Once a guard is let go, the cell and the token stay as the guard last had
/// them.
pub broadcast proof fn lemma_guard_resolved<'a, T, Token: TokenTrait>(
    g: TokenGuardMut<'a, T, Token>,
)
    ensures
        #[trigger] has_resolved(g) ==> {
            &&& *final(g.held_cell()) == *g.held_cell()
            &&& *final(g.held_token()) == *g.held_token()
        },
{
}

impl<'a, T, Token: TokenTrait> Deref for TokenGuardMut<'a, T, Token> {
    type Target = T;

    fn deref(&self) -> (v: &T)
        ensures
            *v == self.held_cell()@.value,
    {
        &self.cell.inner
    }
}

impl<'a, T, Token: TokenTrait> DerefMut for TokenGuardMut<'a, T, Token> {
    /// The value, for writing. The guard keeps its hold on the token.
    fn deref_mut(&mut self) -> (v: &mut T)
        ensures
            *v == old(self).held_cell()@.value,
            final(self).held_cell()@ == old(self).held_cell()@.write(*final(v)),
            *final(final(self).held_cell()) == *final(old(self).held_cell()),
            final(self).held_token() == old(self).held_token(),
    {
        &mut self.cell.inner
    }
}

} // verus!
