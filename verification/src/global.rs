//! A value that is set once, early, and read afterwards.

use vstd::prelude::*;

verus! {

/// A value that is initialized once and then only read.
pub struct Global<T> {
    value: Option<T>,
}

impl<T> Global<T> {
    /// The value, once it is initialized.
    pub closed spec fn contents(&self) -> Option<T> {
        self.value
    }

    /// A global that is not initialized yet.
    pub fn new() -> (r: Self)
        ensures
            r.contents() is None,
    {
        Global { value: None }
    }

    /// Whether the global was initialized.
    pub fn is_initialized(&self) -> (r: bool)
        ensures
            r == self.contents() is Some,
    {
        self.value.is_some()
    }

    /// Sets the value. A global is initialized exactly once.
    pub fn init(&mut self, value: T)
        requires
            old(self).contents() is None,
        ensures
            final(self).contents() == Some(value),
    {
        self.value = Some(value);
    }

    /// The value. A global is read only after it was initialized.
    pub fn get(&self) -> (r: &T)
        requires
            self.contents() is Some,
        ensures
            *r == self.contents()->0,
    {
        match &self.value {
            Some(v) => v,
            None => unreached(),
        }
    }
}

/// Initializing a global and then reading it: a global that `init` left
/// holding `value` (from one that was not initialized) meets `get`'s
/// requirement, and `get` gives back `value`.
pub proof fn lemma_get_after_init<T>(before: Global<T>, after: Global<T>, value: T)
    requires
        before.contents() is None,
        after.contents() == Some(value),
    ensures
        after.contents() is Some,
        after.contents()->0 == value,
        before.contents() != after.contents(),
{
}

} // verus!
