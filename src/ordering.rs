use core::sync::atomic::Ordering;
use vstd::prelude::*;

verus! {

/// Ordering of every read-modify-write on a shared word.
pub const RW_ORD: Ordering = Ordering::AcqRel;

/// Ordering of every read whose result gates a later action.
pub const R_ORD: Ordering = Ordering::Acquire;

/// Ordering of every publishing write.
pub const W_ORD: Ordering = Ordering::Release;

} // verus!
