//! Laws that relate tracking, duplication and dereference.
use vstd::prelude::*;

use crate::{Track, TrackedRef};

verus! {

/// Tracking an unchanged value twice gives equal handles, and projecting it
/// onto its surface twice gives equal surfaces: `track` and `surface` are
/// pure projections.
pub proof fn lemma_track_is_pure<T: Track>(
    v: &T,
    a: TrackedRef<'_, T>,
    b: TrackedRef<'_, T>,
    s1: T::Surface,
    s2: T::Surface,
)
    requires
        a@ == *v,
        b@ == *v,
        s1 == v.surface_view(),
        s2 == v.surface_view(),
    ensures
        a == b,
        s1 == s2,
{
    a.lemma_view_determines(b);
}

/// A duplicate of a handle borrows the same value and dereferences to the
/// same surface as the handle it was made from.
pub proof fn lemma_duplicate_same_surface<T: Track>(h: TrackedRef<'_, T>, d: TrackedRef<'_, T>)
    requires
        d == h,
    ensures
        d@ == h@,
        d@.surface_view() == h@.surface_view(),
{
}

/// Two handles created independently over the same value both dereference to
/// that value's surface as it is now: neither keeps a snapshot of its own.
pub proof fn lemma_handles_observe_value<T: Track>(
    v: &T,
    a: TrackedRef<'_, T>,
    b: TrackedRef<'_, T>,
)
    requires
        a@ == *v,
        b@ == *v,
    ensures
        a@.surface_view() == v.surface_view(),
        b@.surface_view() == v.surface_view(),
        a@.surface_view() == b@.surface_view(),
{
}

} // verus!
