//! What the contracts of this library add up to.
use vstd::prelude::*;
use crate::cell::CellState;
use crate::cell::TokenCellTrait;
use crate::cell::TokenGuard;
use crate::monads::TokenMap;
use crate::runtime::IdMismatch;
use crate::runtime::RuntimeToken;
use crate::token::compared;
use crate::token::TokenTrait;

verus! {

/// A cell yields to the token it was made with: whatever the kind, comparing
/// the maker against the identity that the new cell recorded succeeds, so
/// every access that presents the maker is granted.
pub proof fn law_maker_is_accepted<T, Token: TokenTrait, Cell: TokenCellTrait<T, Token>>(
    cell: Cell,
    inner: T,
    maker: Token,
)
    requires
        cell@ == (CellState { identity: maker.id(), value: inner }),
    ensures
        compared(maker, cell@.identity) is Ok,
{
}

/// A cell made with one runtime token turns away a runtime token of another
/// identity, and the error names both: first the identity that the cell
/// recorded, then the one that was presented.
pub proof fn law_stranger_is_reported<T, Cell: TokenCellTrait<T, RuntimeToken>>(
    cell: Cell,
    inner: T,
    maker: RuntimeToken,
    stranger: RuntimeToken,
)
    requires
        cell@ == (CellState { identity: maker.id(), value: inner }),
        stranger.id() != maker.id(),
    ensures
        compared(stranger, cell@.identity) == Err::<(), IdMismatch>(
            IdMismatch { cell: maker.id(), token: stranger.id() },
        ),
{
}

/// The state of a cell after each value of `writes` has been written to it in
/// turn.
pub open spec fn written<Id, T>(state: CellState<Id, T>, writes: Seq<T>) -> CellState<Id, T>
    decreases writes.len(),
{
    if writes.len() == 0 {
        state
    } else {
        written(state, writes.drop_last()).write(writes.last())
    }
}

/// However many values are written to a cell, it keeps the identity it
/// recorded and holds the value written last; that value is what unwrapping
/// the cell returns.
pub proof fn law_last_write_is_kept<Id, T>(state: CellState<Id, T>, writes: Seq<T>)
    ensures
        written(state, writes).identity == state.identity,
        written(state, writes).value == if writes.len() == 0 {
            state.value
        } else {
            writes.last()
        },
    decreases writes.len(),
{
    if writes.len() > 0 {
        law_last_write_is_kept(state, writes.drop_last());
    }
}

/// Binding an operation and applying it later is running the operation on a
/// guard over the same cell and token: if `m` is what `map` made of `cell` and
/// `f`, and `u` is what applying `m` with `token` returned, then `u` is a
/// result of `f` on a guard that reads the value of `cell` and holds `token`.
pub proof fn law_map_then_apply<
    'a,
    T,
    U,
    F: FnOnce(TokenGuard<'a, T, Token>) -> U,
    Cell: TokenCellTrait<T, Token>,
    Token: TokenTrait,
>(m: TokenMap<'a, T, U, F, Cell, Token>, cell: Cell, f: F, token: Token, u: U)
    requires
        *m.held_cell() == cell,
        m.operation() == f,
        exists|g: TokenGuard<'a, T, Token>|
            m.guards(g, token) && call_ensures(m.operation(), (g,), u),
    ensures
        exists|g: TokenGuard<'a, T, Token>|
            {
                &&& g.held_cell()@.value == cell@.value
                &&& g.held_cell()@.identity == cell@.identity
                &&& *g.held_token() == token
                &&& call_ensures(f, (g,), u)
            },
{
    let g = choose|g: TokenGuard<'a, T, Token>|
        m.guards(g, token) && call_ensures(m.operation(), (g,), u);
    assert(g.held_cell()@.value == cell@.value && g.held_cell()@.identity == cell@.identity
        && *g.held_token() == token && call_ensures(f, (g,), u));
}

} // verus!
