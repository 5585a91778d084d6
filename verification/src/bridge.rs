//! The task hand-off used to run one blocking operation off the control
//! thread.
//!
//! One [`TaskContext`] backs one scheduled call. It holds the operation's
//! input and a result slot that starts as an internal placeholder error. The
//! worker step takes the input out, computes, and stores the outcome exactly
//! once; the completion step consumes the context and hands the stored
//! outcome back for settling the promise. Moving the context by value into
//! the completion step makes "freed exactly once, on every path" a fact of
//! ownership rather than a convention, and because each context owns its own
//! input and result slot, no two in-flight calls can contaminate each other.

use vstd::prelude::*;

use crate::errors::ApiError;

verus! {

/// A call argument as the host layer hands it over: missing, present but of
/// the wrong type, or converted to its plain value.
pub enum Arg<T> {
    Missing,
    WrongType,
    Value(T),
}

/// Where a task stands between scheduling and completion.
pub enum TaskPhase {
    /// Scheduled; the worker step has not stored an outcome yet.
    Queued,
    /// The worker step has stored its outcome; only completion remains.
    Finished,
}

/// The state backing one in-flight asynchronous call.
pub struct TaskContext<I, T> {
    input: Option<I>,
    result: Result<T, ApiError>,
    phase: TaskPhase,
}

impl<I, T> TaskContext<I, T> {
    pub closed spec fn spec_input(&self) -> Option<I> {
        self.input
    }

    pub closed spec fn spec_result(&self) -> Result<T, ApiError> {
        self.result
    }

    pub closed spec fn queued(&self) -> bool {
        self.phase is Queued
    }

    pub closed spec fn finished(&self) -> bool {
        self.phase is Finished
    }

    /// Queue a task for the given input. The result slot starts as the
    /// internal placeholder, to be overwritten exactly once by the worker
    /// step.
    pub fn new(input: I) -> (r: Self)
        ensures
            r.queued(),
            r.spec_input() == Some(input),
            r.spec_result() == Err::<T, ApiError>(ApiError::Pending),
    {
        TaskContext { input: Some(input), result: Err(ApiError::Pending), phase: TaskPhase::Queued }
    }

    /// Read the input without taking it, e.g. to build the tool's command
    /// line before the blocking run.
    pub fn borrow_input(&self) -> (r: &I)
        requires
            self.spec_input() is Some,
        ensures
            Some(*r) == self.spec_input(),
    {
        match &self.input {
            Some(v) => v,
            None => unreached(),
        }
    }

    /// Hand the task's input to the worker step. The context keeps its
    /// phase; only the input slot is emptied.
    pub fn take_input(&mut self) -> (r: I)
        requires
            old(self).spec_input() is Some,
        ensures
            Some(r) == old(self).spec_input(),
            final(self).spec_input() is None,
            final(self).spec_result() == old(self).spec_result(),
            final(self).queued() == old(self).queued(),
            final(self).finished() == old(self).finished(),
    {
        match self.input.take() {
            Some(v) => v,
            None => unreached(),
        }
    }

    /// Store the worker step's outcome. Requires the slot to still hold the
    /// placeholder phase, so each task's outcome is written exactly once.
    pub fn store_result(&mut self, outcome: Result<T, ApiError>)
        requires
            old(self).queued(),
        ensures
            final(self).finished(),
            final(self).spec_result() == outcome,
            final(self).spec_input() == old(self).spec_input(),
    {
        self.result = outcome;
        self.phase = TaskPhase::Finished;
    }

    /// The completion step: consume the context and yield the stored outcome
    /// for settling the promise. Taking `self` by value is what frees the
    /// context on every path, success or failure, and makes a second
    /// completion for the same task impossible.
    pub fn complete(self) -> (r: Result<T, ApiError>)
        requires
            self.finished(),
        ensures
            r == self.spec_result(),
    {
        self.result
    }
}

} // verus!
