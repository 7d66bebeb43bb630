//! Tokens told apart at run time by a number drawn from a shared counter.
use vstd::prelude::*;
use core::convert::Infallible;
use core::sync::atomic::Ordering;
use vstd::string::StringExecFns;
use crate::atomics::atomic_u16;
use crate::text::decimal;
use crate::text::push_decimal;
use crate::token::TokenTrait;

verus! {

/// Reports that a cell made with one token was presented another.
#[derive(Debug, Clone, Copy, PartialEq, Eq, Structural)]
pub struct IdMismatch {
    /// The identity of the token the cell was made with.
    pub cell: u16,
    /// The identity of the token that was presented.
    pub token: u16,
}

impl IdMismatch {
    /// The text of a report that names `cell` and `token`.
    pub open spec fn message_of(cell: u16, token: u16) -> Seq<char> {
        "IdMismatch { cell: "@ + decimal(cell as nat) + ", token: "@ + decimal(token as nat)
            + " }"@
    }

    /// The report as text: the name of the error and both identities in
    /// decimal.
    pub fn message(&self) -> (text: String)
        ensures
            text@ == Self::message_of(self.cell, self.token),
    {
        let mut text = String::from_str("IdMismatch { cell: ");
        push_decimal(&mut text, self.cell);
        text.append(", token: ");
        push_decimal(&mut text, self.token);
        text.append(" }");
        text
    }
}

/// The counter that runtime tokens draw their identities from.
pub struct IdCounter {
    next: portable_atomic::AtomicU16,
}

impl IdCounter {
    /// A counter that has issued nothing yet: the first identity drawn is 0.
    pub fn new() -> (counter: Self) {
        IdCounter { next: atomic_u16(0) }
    }

    /// Draws the next identity. Which one comes back depends on how many were
    /// drawn before, by this thread or any other.
    fn draw(&self) -> (id: u16) {
        self.next.fetch_add(1, Ordering::Relaxed)
    }
}

/// A token that carries a number; a cell accepts it only if the cell recorded
/// the same number.
pub struct RuntimeToken {
    id: u16,
}

impl RuntimeToken {
    /// The token that carries the identity `id`.
    fn issued(id: u16) -> (token: Self)
        ensures
            token.id == id,
    {
        RuntimeToken { id }
    }
}

impl TokenTrait for RuntimeToken {
    type Source = &'static IdCounter;

    type ConstructionError = Infallible;

    type RunError = Infallible;

    type Identifier = u16;

    type ComparisonError = IdMismatch;

    type Branded<'a> = Self;

    closed spec fn id(&self) -> u16 {
        self.id
    }

    open spec fn mismatch(cell: u16, token: u16) -> IdMismatch {
        IdMismatch { cell, token }
    }

    /// Always succeeds, with the identity that the counter hands out.
    fn new(source: &'static IdCounter) -> (r: Result<Self, Infallible>)
        ensures
            r is Ok,
    {
        Ok(Self::issued(source.draw()))
    }

    /// Always runs `f`, on a token with the identity that the counter hands
    /// out.
    fn with_token<R, F: for<'a> FnOnce(Self::Branded<'a>) -> R>(
        source: &'static IdCounter,
        f: F,
    ) -> (r: Result<R, Infallible>)
        ensures
            r is Ok,
    {
        match Self::new(source) {
            Ok(token) => {
                let ghost handed = token;
                let r = Ok(f(token));
                assert(call_ensures(f, (handed,), r->Ok_0));
                r
            },
            Err(e) => Err(e),
        }
    }

    fn identifier(&self) -> (id: u16) {
        self.id
    }

    fn compare(&self, id: &u16) -> (r: Result<(), IdMismatch>) {
        if self.id == *id {
            Ok(())
        } else {
            Err(IdMismatch { cell: *id, token: self.id })
        }
    }
}

} // verus!
