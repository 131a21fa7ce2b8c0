use vstd::prelude::*;
use std::sync::Arc;

verus! {

/// A shared, read-only value.
pub struct Data<T>(Arc<T>);

impl<T> Data<T> {
    pub closed spec fn value(&self) -> T {
        *self.0
    }

    pub fn new(val: T) -> (r: Data<T>)
        ensures
            r.value() == val,
    {
        Data(Arc::new(val))
    }

    pub fn get(&self) -> (r: &T)
        ensures
            *r == self.value(),
    {
        &*self.0
    }
}

impl<T> Clone for Data<T> {
    /// Another handle to the same value.
    fn clone(&self) -> (r: Data<T>)
        ensures
            r.value() == self.value(),
    {
        Data(Arc::clone(&self.0))
    }
}

impl<T> std::ops::Deref for Data<T> {
    type Target = Arc<T>;

    /// The shared pointer behind the handle.
    fn deref(&self) -> (r: &Arc<T>)
        ensures
            **r == self.value(),
    {
        &self.0
    }
}

} // verus!
