//! What is taken on trust about the atomic cells that hold process-wide state.
//!
//! Nothing is claimed of the values inside an atomic: through a shared
//! reference any thread may have changed them between two calls.
use vstd::prelude::*;
use core::sync::atomic::AtomicBool;
use core::sync::atomic::Ordering;

verus! {

/// `portable_atomic::AtomicU16`, carried as a value that nothing is known of.
#[verifier::external_type_specification]
#[verifier::external_body]
pub struct ExAtomicU16(portable_atomic::AtomicU16);

/// `portable_atomic::AtomicU16::new` makes an atomic cell that starts at
/// `start`. An atomic cell has no value that a contract could name, so nothing
/// is claimed of the result.
#[verifier::external_body]
pub(crate) fn atomic_u16(start: u16) -> (cell: portable_atomic::AtomicU16) {
    portable_atomic::AtomicU16::new(start)
}

/// `portable_atomic::AtomicU16::fetch_add` adds to the cell, wrapping around,
/// and hands back what the cell held before. The value handed back depends on
/// every earlier caller, so nothing is claimed of it.
pub assume_specification[ portable_atomic::AtomicU16::fetch_add ](
    atomic: &portable_atomic::AtomicU16,
    val: u16,
    order: Ordering,
) -> u16;

/// `AtomicBool::store` with relaxed ordering. The only claim is that the call
/// returns normally: a store panics only for the acquire orderings.
#[verifier::external_body]
pub(crate) fn store_relaxed(flag: &AtomicBool, value: bool)
    opens_invariants none
    no_unwind
{
    flag.store(value, Ordering::Relaxed)
}

} // verus!
