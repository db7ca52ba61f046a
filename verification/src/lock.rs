//! The reader-writer lock that guards each field of the shared state, and the
//! shared pointer that hands it to every holder.
//!
//! Verus sees nothing inside a lock, and another holder of the same lock may
//! write between any two calls, so nothing is claimed here of the value that
//! a read returns.

use parking_lot::RwLock;
use std::sync::Arc;
use vstd::prelude::*;

verus! {

#[verifier::external_type_specification]
#[verifier::external_body]
#[verifier::reject_recursive_types(R)]
#[verifier::reject_recursive_types(T)]
pub struct ExRwLock<R, T: ?Sized>(parking_lot::lock_api::RwLock<R, T>);

#[verifier::external_type_specification]
#[verifier::external_body]
pub struct ExRawRwLock(parking_lot::RawRwLock);

/// `Arc::clone`: another pointer to the same allocation, so to the same
/// value.
#[verifier::external_body]
pub(crate) fn share<T>(handle: &Arc<T>) -> (other: Arc<T>)
    ensures
        other == *handle,
{
    Arc::clone(handle)
}

/// `parking_lot::RwLock::read`, then a clone of the guarded value; the guard
/// is released before this returns. Claims nothing of the value: it is
/// whatever the latest writer left.
#[verifier::external_body]
pub(crate) fn read_lock<T: Clone>(lock: &RwLock<T>) -> (value: T) {
    lock.read().clone()
}

/// `parking_lot::RwLock::write`, then the guarded value is replaced by
/// `value`; the guard is released before this returns. Claims nothing.
#[verifier::external_body]
pub(crate) fn write_lock<T>(lock: &RwLock<T>, value: T) {
    *lock.write() = value;
}

} // verus!
