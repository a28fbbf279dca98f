//! A wrapper for handles that are capability tokens, not data: the wrapped
//! value is carried along and reached through the wrapper, and the wrapper
//! describes itself without looking inside.

use std::ops::Deref;
use std::ops::DerefMut;
use vstd::prelude::*;
use vstd::std_specs::convert::FromSpecImpl;

verus! {

/// Holds a value whose contents are never printed.
pub struct NoDebug<T> {
    inner: T,
}

impl<T> View for NoDebug<T> {
    type V = T;

    /// The wrapped value.
    closed spec fn view(&self) -> T {
        self.inner
    }
}

impl<T> From<T> for NoDebug<T> {
    /// Wraps the value; the wrapper's view is the value itself.
    fn from(value: T) -> (wrapped: Self)
        ensures
            wrapped@ == value,
    {
        Self { inner: value }
    }
}

impl<T> FromSpecImpl<T> for NoDebug<T> {
    open spec fn obeys_from_spec() -> bool {
        true
    }

    closed spec fn from_spec(value: T) -> Self {
        Self { inner: value }
    }
}

impl<T> Deref for NoDebug<T> {
    type Target = T;

    fn deref(&self) -> (inner: &T)
        ensures
            *inner == self@,
    {
        &self.inner
    }
}

impl<T> DerefMut for NoDebug<T> {
    fn deref_mut(&mut self) -> (inner: &mut T)
        ensures
            *inner == old(self)@,
            final(self)@ == *final(inner),
    {
        &mut self.inner
    }
}

impl<T> NoDebug<T> {
    /// What the wrapper shows of itself: the fixed word "skipped", whatever it holds.
    pub fn fmt(&self) -> (text: String)
        ensures
            text@ == "skipped"@,
    {
        "skipped".to_string()
    }
}

} // verus!
