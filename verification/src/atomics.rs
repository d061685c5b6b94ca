//! Trusted view of the atomic cells the shared-state engines use.
//!
//! vstd declares the `core::sync::atomic` types but attaches no contracts
//! about the stored values to their operations.  The engines in this
//! crate drive every atomic through `&mut self`, so for the duration of
//! each call no other access to the cell exists, and every operation
//! behaves exactly as its sequential description in the std
//! documentation says.  The wrappers below state that description over
//! two named projections of the cells; Verus takes the statements on
//! trust, and the engines are verified against them.

use core::sync::atomic::AtomicBool;
use core::sync::atomic::AtomicUsize;
use core::sync::atomic::Ordering;
use vstd::prelude::*;

verus! {

/// The value an atomic flag currently stores.
pub uninterp spec fn stored_bool(a: AtomicBool) -> bool;

/// The value an atomic word currently stores.
pub uninterp spec fn stored_usize(a: AtomicUsize) -> usize;

/// Relies on `AtomicBool::new`: the fresh cell stores `v`.
#[verifier::external_body]
pub(crate) fn bool_new(v: bool) -> (a: AtomicBool)
    ensures
        stored_bool(a) == v,
{
    AtomicBool::new(v)
}

/// Relies on `AtomicBool::load`: returns the stored value.
#[verifier::external_body]
pub(crate) fn bool_load_relaxed(a: &AtomicBool) -> (v: bool)
    ensures
        v == stored_bool(*a),
{
    a.load(Ordering::Relaxed)
}

/// Relies on `AtomicBool::store`: replaces the stored value with `v`.
#[verifier::external_body]
pub(crate) fn bool_store_release(a: &mut AtomicBool, v: bool)
    ensures
        stored_bool(*final(a)) == v,
{
    a.store(v, Ordering::Release)
}

/// Relies on `AtomicBool::compare_exchange`: when the stored value
/// equals `current` it is replaced by `new` and comes back as `Ok`;
/// otherwise the cell is untouched and the stored value comes back as
/// `Err`.
#[verifier::external_body]
pub(crate) fn bool_compare_exchange_acquire(
    a: &mut AtomicBool,
    current: bool,
    new: bool,
) -> (r: Result<bool, bool>)
    ensures
        r == (if stored_bool(*old(a)) == current {
            Ok::<bool, bool>(current)
        } else {
            Err::<bool, bool>(stored_bool(*old(a)))
        }),
        stored_bool(*final(a)) == (if stored_bool(*old(a)) == current {
            new
        } else {
            stored_bool(*old(a))
        }),
{
    a.compare_exchange(current, new, Ordering::Acquire, Ordering::Relaxed)
}

/// Relies on `AtomicUsize::new`: the fresh cell stores `v`.
#[verifier::external_body]
pub(crate) fn usize_new(v: usize) -> (a: AtomicUsize)
    ensures
        stored_usize(a) == v,
{
    AtomicUsize::new(v)
}

/// Relies on `AtomicUsize::load`: returns the stored value.
#[verifier::external_body]
pub(crate) fn usize_load_relaxed(a: &AtomicUsize) -> (v: usize)
    ensures
        v == stored_usize(*a),
{
    a.load(Ordering::Relaxed)
}

/// Relies on `AtomicUsize::fetch_add`: adds `n` to the stored value and
/// returns the value it replaced.  The caller keeps the sum in range, so
/// the wrapping the std documentation warns of cannot occur.
#[verifier::external_body]
pub(crate) fn usize_fetch_add_acquire(a: &mut AtomicUsize, n: usize) -> (prev: usize)
    requires
        stored_usize(*old(a)) + n <= usize::MAX,
    ensures
        prev == stored_usize(*old(a)),
        stored_usize(*final(a)) == stored_usize(*old(a)) + n,
{
    a.fetch_add(n, Ordering::Acquire)
}

/// Relies on `AtomicUsize::fetch_sub`: subtracts `n` from the stored
/// value and returns the value it replaced.  The caller keeps the
/// difference in range, so no wrapping can occur.
#[verifier::external_body]
pub(crate) fn usize_fetch_sub_release(a: &mut AtomicUsize, n: usize) -> (prev: usize)
    requires
        stored_usize(*old(a)) >= n,
    ensures
        prev == stored_usize(*old(a)),
        stored_usize(*final(a)) == stored_usize(*old(a)) - n,
{
    a.fetch_sub(n, Ordering::Release)
}

/// Relies on `AtomicUsize::fetch_and`: replaces the stored value with
/// its bitwise AND with `m` and returns the value it replaced.
#[verifier::external_body]
pub(crate) fn usize_fetch_and_release(a: &mut AtomicUsize, m: usize) -> (prev: usize)
    ensures
        prev == stored_usize(*old(a)),
        stored_usize(*final(a)) == stored_usize(*old(a)) & m,
{
    a.fetch_and(m, Ordering::Release)
}

/// Relies on `AtomicUsize::fetch_or`: replaces the stored value with its
/// bitwise OR with `m` and returns the value it replaced.
#[verifier::external_body]
pub(crate) fn usize_fetch_or_acquire(a: &mut AtomicUsize, m: usize) -> (prev: usize)
    ensures
        prev == stored_usize(*old(a)),
        stored_usize(*final(a)) == stored_usize(*old(a)) | m,
{
    a.fetch_or(m, Ordering::Acquire)
}

/// Relies on `AtomicUsize::fetch_xor`: replaces the stored value with
/// its bitwise XOR with `m` and returns the value it replaced.
#[verifier::external_body]
pub(crate) fn usize_fetch_xor_release(a: &mut AtomicUsize, m: usize) -> (prev: usize)
    ensures
        prev == stored_usize(*old(a)),
        stored_usize(*final(a)) == stored_usize(*old(a)) ^ m,
{
    a.fetch_xor(m, Ordering::Release)
}

/// Relies on `AtomicUsize::compare_exchange`: when the stored value
/// equals `current` it is replaced by `new` and comes back as `Ok`;
/// otherwise the cell is untouched and the stored value comes back as
/// `Err`.
#[verifier::external_body]
pub(crate) fn usize_compare_exchange_acquire(
    a: &mut AtomicUsize,
    current: usize,
    new: usize,
) -> (r: Result<usize, usize>)
    ensures
        r == (if stored_usize(*old(a)) == current {
            Ok::<usize, usize>(current)
        } else {
            Err::<usize, usize>(stored_usize(*old(a)))
        }),
        stored_usize(*final(a)) == (if stored_usize(*old(a)) == current {
            new
        } else {
            stored_usize(*old(a))
        }),
{
    a.compare_exchange(current, new, Ordering::Acquire, Ordering::Relaxed)
}

} // verus!
