//! A single-assignment cell: a value is produced at most once and then read
//! any number of times.
//!
//! The cell's slot is a tagged option guarded by the cell's interface: it is
//! readable exactly when it has been written, only the first `get_or_init`
//! ever runs its factory, and every later call returns the value that the
//! first one stored.

use vstd::prelude::*;

verus! {

/// A cell which can be written to only once.
pub struct OnceLock<T> {
    value: Option<T>,
}

impl<T> OnceLock<T> {
    /// The slot's abstract state: `None` while the cell is empty, `Some(v)`
    /// once a value `v` has been stored.
    pub closed spec fn spec_get(self) -> Option<T> {
        self.value
    }

    /// Whether a value has been stored.
    pub open spec fn is_initialized(self) -> bool {
        self.spec_get() is Some
    }

    /// A fresh, empty cell.
    pub fn new() -> (r: Self)
        ensures
            r.spec_get() is None,
    {
        OnceLock { value: None }
    }

    /// Returns the stored value, or `None` while the cell is empty.
    pub fn get(&self) -> (r: Option<&T>)
        ensures
            match r {
                Some(v) => self.spec_get() == Some(*v),
                None => self.spec_get() is None,
            },
    {
        match &self.value {
            Some(v) => Some(v),
            None => None,
        }
    }

    /// Returns the stored value, initializing it first with `f` if the cell
    /// is still empty. The factory runs only on a cell that holds no value
    /// yet; a call on an initialized cell hands back the stored value
    /// untouched.
    pub fn get_or_init<F: FnOnce() -> T>(&mut self, f: F) -> (r: &T)
        requires
            old(self).spec_get() is None ==> call_requires(f, ()),
        ensures
            final(self).is_initialized(),
            Some(*r) == final(self).spec_get(),
            old(self).spec_get() is Some ==> final(self).spec_get() == old(self).spec_get(),
            old(self).spec_get() is None ==> call_ensures(f, (), *r),
    {
        if self.value.is_none() {
            let v = f();
            self.value = Some(v);
        }
        match &self.value {
            Some(v) => v,
            None => vstd::pervasive::unreached(),
        }
    }

    /// Moves the stored value out, leaving the cell empty.
    pub(crate) fn take(&mut self) -> (r: Option<T>)
        ensures
            r == old(self).spec_get(),
            final(self).spec_get() is None,
    {
        self.value.take()
    }

    /// Stores a value if the cell is empty; an already-initialized cell is
    /// left untouched and the value comes back as the error.
    pub(crate) fn set(&mut self, value: T) -> (r: Result<(), T>)
        ensures
            old(self).spec_get() is None ==> r is Ok && final(self).spec_get() == Some(value),
            old(self).spec_get() is Some ==> final(self).spec_get() == old(self).spec_get()
                && (r matches Err(v) && v == value),
    {
        match &self.value {
            Some(_) => Err(value),
            None => {
                self.value = Some(value);
                Ok(())
            },
        }
    }
}

impl<T> Default for OnceLock<T> {
    /// A fresh, empty cell.
    fn default() -> (r: Self)
        ensures
            r.spec_get() is None,
    {
        Self::new()
    }
}

} // verus!
