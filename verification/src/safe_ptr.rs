//! A wrapper that carries a value (typically a raw handle) across threads.
use vstd::prelude::*;

verus! {

/// Owns a value of type `T`; it dereferences to that value.
pub struct SafePtr<T>(pub T);

impl<T> SafePtr<T> {
    /// The wrapped value.
    pub fn into_inner(self) -> (r: T)
        ensures
            r == self.0,
    {
        self.0
    }
}

impl<T> core::ops::Deref for SafePtr<T> {
    type Target = T;

    fn deref(&self) -> (r: &T)
        ensures
            *r == self.0,
    {
        &self.0
    }
}

impl<T> core::ops::DerefMut for SafePtr<T> {
    fn deref_mut(&mut self) -> (r: &mut T)
        ensures
            *r == old(self).0,
            *final(self) == SafePtr(*final(r)),
    {
        &mut self.0
    }
}

} // verus!
