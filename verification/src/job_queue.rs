//! Small pieces of the job queue: the wrapper that carries a job's result,
//! and a value that the queue logs when dropped.
use vstd::prelude::*;

verus! {

/// The result of a job, wrapped so that a job of any result type can hand
/// it back through the queue.
#[derive(Debug, PartialEq)]
pub struct JobResultWrapper<T>(T);

impl<T: Clone> Clone for JobResultWrapper<T> {
    /// A wrapper of a clone of the value: what `T`'s `clone` gives for it.
    fn clone(&self) -> (r: Self)
        ensures
            cloned::<T>(self.value(), r.value()),
    {
        JobResultWrapper(self.0.clone())
    }
}

impl<T> JobResultWrapper<T> {
    /// The value the wrapper holds.
    pub closed spec fn value(&self) -> T {
        self.0
    }

    /// Wraps `value`.
    pub fn from(value: T) -> (r: Self)
        ensures
            r.value() == value,
    {
        JobResultWrapper(value)
    }

    /// The wrapped value, by reference.
    pub fn get(&self) -> (r: &T)
        ensures
            *r == self.value(),
    {
        &self.0
    }

    /// Unwraps the value.
    pub fn into_inner(self) -> (r: T)
        ensures
            r == self.value(),
    {
        self.0
    }
}

/// A value that the job queue logs when it is dropped.
#[derive(Debug, Clone)]
pub struct LogWhenDropped<T>(pub T);

impl<T> LogWhenDropped<T> {
    /// The value, by reference.
    pub fn get(&self) -> (r: &T)
        ensures
            *r == self.0,
    {
        &self.0
    }
}

/// A job that runs a consensus-program prover; the prover type is a
/// parameter.
#[derive(Debug, Clone)]
pub struct ConsensusProgramProverJob<P>(pub P);

impl<P> ConsensusProgramProverJob<P> {
    /// Proving runs on a blocking thread, not as an async task.
    pub fn is_async(&self) -> (r: bool)
        ensures
            !r,
    {
        false
    }
}

} // verus!
