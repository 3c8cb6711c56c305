use vstd::prelude::*;

verus! {

/// What an accessor of a lazily computed attribute hands out.
#[derive(Debug, PartialEq, Eq, Structural)]
pub enum Reading<T> {
    /// The attribute is cached: here are its bits.
    Known(u32),
    /// The attribute is not known yet: the named task has to be carried out
    /// and its outcome supplied before the attribute can be read.
    Missing(T),
}

impl<T> Reading<T> {
    /// The task that stands in the way, if there is one.
    pub open spec fn task(self) -> Option<T> {
        match self {
            Reading::Known(_) => None,
            Reading::Missing(task) => Some(task),
        }
    }
}

} // verus!
