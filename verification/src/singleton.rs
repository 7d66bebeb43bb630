//! Tokens of which at most one is alive at a time.
use vstd::prelude::*;
use core::convert::Infallible;
use core::sync::atomic::AtomicBool;
use core::sync::atomic::Ordering;
use vstd::string::StringExecFns;
use crate::atomics::store_relaxed;
use crate::token::TokenTrait;

verus! {

/// Reports that the one token of a lease is alive somewhere else.
#[derive(Debug, Clone, Copy, PartialEq, Eq, Structural)]
pub struct SingletonUnavailable;

impl SingletonUnavailable {
    /// The report as text: the name of the error.
    pub fn message(&self) -> (text: String)
        ensures
            text@ == "SingletonUnavailable"@,
    {
        String::from_str("SingletonUnavailable")
    }
}

/// The flag that says whether the one token of a kind may be handed out.
pub struct Lease {
    available: AtomicBool,
}

impl Lease {
    /// A lease whose token is not out.
    pub fn new() -> (lease: Self) {
        Lease { available: AtomicBool::new(true) }
    }

    /// Marks the token as out and tells whether it was in. Which answer comes
    /// back depends on what every other holder of the lease has done.
    fn take(&self) -> (was_available: bool) {
        self.available.swap(false, Ordering::Relaxed)
    }

    /// Marks the token as in.
    fn give_back(&self)
        opens_invariants none
        no_unwind
    {
        store_relaxed(&self.available, true)
    }
}

/// The one token of a lease. While it is alive no other can be constructed;
/// when it is dropped the lease is free again.
pub struct SingletonToken {
    lease: &'static Lease,
}

impl SingletonToken {
    /// The lease that this token was taken from.
    pub closed spec fn lease(&self) -> &'static Lease {
        self.lease
    }

    /// Decides on what the lease answered: a token if it was free, the error
    /// if it was not.
    fn granted(lease: &'static Lease, was_available: bool) -> (r: Result<
        Self,
        SingletonUnavailable,
    >)
        ensures
            r is Ok <==> was_available,
            r matches Ok(token) ==> token.lease() == lease,
    {
        if was_available {
            Ok(SingletonToken { lease })
        } else {
            Err(SingletonUnavailable)
        }
    }

    /// Hands a token that was granted to `f` and returns what `f` returns; a
    /// refusal passes through and `f` is let go.
    fn run_granted<R, F: FnOnce(Self) -> R>(granted: Result<Self, SingletonUnavailable>, f: F) -> (r:
        Result<R, SingletonUnavailable>)
        requires
            granted is Ok ==> call_requires(f, (granted->Ok_0,)),
        ensures
            r is Ok <==> granted is Ok,
            r is Ok ==> call_ensures(f, (granted->Ok_0,), r->Ok_0),
    {
        match granted {
            Ok(token) => Ok(f(token)),
            Err(e) => Err(e),
        }
    }
}

impl Drop for SingletonToken {
    /// Frees the lease for the next token.
    fn drop(&mut self)
        opens_invariants none
        no_unwind
    {
        let lease: &'static Lease = self.lease;
        lease.give_back();
    }
}

impl TokenTrait for SingletonToken {
    type Source = &'static Lease;

    type ConstructionError = SingletonUnavailable;

    type RunError = SingletonUnavailable;

    type Identifier = ();

    type ComparisonError = Infallible;

    type Branded<'a> = Self;

    open spec fn id(&self) -> () {
        ()
    }

    /// No comparison of this kind fails, so no value is ever asked of this.
    open spec fn mismatch(cell: (), token: ()) -> Infallible {
        arbitrary()
    }

    /// Succeeds if no token of `source` is alive, and then holds the lease
    /// until it is dropped.
    fn new(source: &'static Lease) -> (r: Result<Self, SingletonUnavailable>)
        ensures
            r matches Ok(token) ==> token.lease() == source,
    {
        Self::granted(source, source.take())
    }

    /// Runs `f` on the token of `source` if no other is alive. The lease is
    /// free again once the token that `f` was handed is dropped.
    fn with_token<R, F: for<'a> FnOnce(Self::Branded<'a>) -> R>(
        source: &'static Lease,
        f: F,
    ) -> (r: Result<R, SingletonUnavailable>)
        ensures
            r is Ok ==> exists|t: Self| t.lease() == source && call_ensures(f, (t,), r->Ok_0),
    {
        let granted = Self::new(source);
        let ghost handed = granted;
        let r = Self::run_granted(granted, f);
        assert(r is Ok ==> handed->Ok_0.lease() == source && call_ensures(
            f,
            (handed->Ok_0,),
            r->Ok_0,
        ));
        r
    }

    fn identifier(&self) -> (id: ()) {
        ()
    }

    /// Always succeeds.
    fn compare(&self, id: &()) -> (r: Result<(), Infallible>)
        ensures
            r is Ok,
    {
        Ok(())
    }
}

} // verus!
