//! Tracked memoization: the access-restricted handle through which a memoized
//! function observes its tracked arguments.
//!
//! A type opts in by implementing [`Track`], which names a `Surface` type (the
//! only API reachable through tracking) and projects a value onto it. A
//! [`TrackedRef`] borrows a value and dereferences to its surface, never to
//! the value itself.
use vstd::prelude::*;

pub mod laws;

verus! {

/// Tracks accesses to a value.
///
/// Encapsulates a reference to a value. The only methods reachable through a
/// `TrackedRef<T>` are those of `T::Surface`: the field is private, and the
/// handle itself offers nothing but `Deref` to the surface.
pub struct TrackedRef<'a, T> {
    value: &'a T,
}

impl<'a, T> View for TrackedRef<'a, T> {
    type V = T;

    /// The value that the handle borrows.
    closed spec fn view(&self) -> T {
        *self.value
    }
}

impl<'a, T> Clone for TrackedRef<'a, T> {
    /// Duplicates the handle, not the value it borrows.
    fn clone(&self) -> (r: Self)
        ensures
            r == *self,
    {
        TrackedRef { value: self.value }
    }
}

impl<'a, T> Copy for TrackedRef<'a, T> {
}

impl<'a, T> TrackedRef<'a, T> {
    /// Two handles that borrow equal values are equal: a handle holds
    /// nothing besides its reference.
    pub proof fn lemma_view_determines(self, other: Self)
        requires
            self@ == other@,
        ensures
            self == other,
    {
    }
}

/// A trackable type.
pub trait Track: Sized {
    /// The tracked API surface of the type.
    ///
    /// This is an implementation detail, which shouldn't directly be used.
    type Surface;

    /// The surface of `self`, as the value that `surface` refers to.
    ///
    /// A verified implementation defines it, so that it can prove `surface`;
    /// the default says nothing about the surface.
    closed spec fn surface_view(&self) -> Self::Surface {
        vstd::pervasive::arbitrary()
    }

    /// Start tracking a value.
    fn track(&self) -> (r: TrackedRef<'_, Self>)
        ensures
            r@ == *self,
    {
        TrackedRef { value: self }
    }

    /// Access the tracked API surface.
    ///
    /// This is an implementation detail, which shouldn't directly be used.
    fn surface(&self) -> (r: &Self::Surface)
        ensures
            *r == self.surface_view(),
    ;
}

impl<'a, T> core::ops::Deref for TrackedRef<'a, T> where T: Track {
    type Target = T::Surface;

    fn deref(&self) -> (r: &T::Surface)
        ensures
            *r == self@.surface_view(),
    {
        self.value.surface()
    }
}

} // verus!
