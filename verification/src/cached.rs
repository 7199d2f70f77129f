//! A value together with a note on whether it may be out of date.

use vstd::prelude::*;

verus! {

/// A value that came either from the service or from a cache. A stale value
/// may be shown at once while a refresh is under way: the flag advises, it
/// forbids nothing.
#[derive(Debug, PartialEq, Eq)]
pub struct Cached<T> {
    pub data: T,
    pub stale: bool,
}

impl<T: Clone> Clone for Cached<T> {
    /// A copy that holds a copy of the value and the same flag.
    fn clone(&self) -> (copy: Self)
        ensures
            cloned(self.data, copy.data),
            copy.stale == self.stale,
    {
        Cached { data: self.data.clone(), stale: self.stale }
    }
}

impl<T> Cached<T> {
    /// A value that came from the service just now.
    pub fn fresh(data: T) -> (cached: Self)
        ensures
            cached == (Cached { data, stale: false }),
    {
        Cached { data, stale: false }
    }

    /// A value that came from a cache and may be out of date.
    pub fn stale(data: T) -> (cached: Self)
        ensures
            cached == (Cached { data, stale: true }),
    {
        Cached { data, stale: true }
    }

    /// Whether the value may be out of date.
    pub fn is_stale(&self) -> (stale: bool)
        ensures
            stale == self.stale,
    {
        self.stale
    }

    /// The value, fresh or not.
    pub fn data(&self) -> (data: &T)
        ensures
            *data == self.data,
    {
        &self.data
    }
}

} // verus!
