use vstd::prelude::*;

verus! {

/// Failure of [`Aggregate::handle`]: the command was not turned into events.
#[derive(Debug, Clone, PartialEq, Eq)]
pub enum CommandError {
    /// The aggregate's own invariants reject the command in its current
    /// lifecycle stage.
    AggregateError,
    /// A failure surfaced from the apply path while the handler derived the
    /// command's consequences.
    EventError,
}

/// Failure of [`Aggregate::apply`]: the event cannot be legally folded into
/// the given state.
#[derive(Debug, Clone, PartialEq, Eq)]
pub enum EventError {
    AggregateError,
}

/// The contract every event-sourced aggregate satisfies, parameterized by a
/// command type `C` and an event type `E`.
///
/// A dispatcher holds the current state of one aggregate instance, presents
/// it a command, persists the events it receives, then folds each event into
/// state in the order they were produced. Both operations are pure: the two
/// spec functions fix the result of each call as a function of the current
/// state and the command or event alone, so replaying the same events from
/// the same starting state always rebuilds the same final state.
pub trait Aggregate<C, E>: Sized {
    /// What `handle` returns, as a function of state and command alone.
    spec fn handle_spec(&self, command: C) -> Result<Seq<E>, CommandError>;

    /// What `apply` returns, as a function of state and event alone.
    spec fn apply_spec(&self, event: E) -> Result<Self, EventError>;

    /// Applies business rules to `command` against the current state and
    /// returns the ordered, possibly-empty sequence of events that record
    /// its effect. Read-only with respect to `self`; no side effects.
    fn handle(&self, command: C) -> (r: Result<Vec<E>, CommandError>)
        ensures
            r matches Ok(events) ==> self.handle_spec(command) == Ok::<Seq<E>, CommandError>(
                events@,
            ),
            r matches Err(e) ==> self.handle_spec(command) == Err::<Seq<E>, CommandError>(e),
    ;

    /// Folds one event into the current state and returns a brand-new state
    /// value, or an error when the event cannot be legally folded. Never a
    /// partial mutation: the old state is untouched either way, so a caller
    /// discards it only after a successful fold.
    fn apply(&self, event: E) -> (r: Result<Self, EventError>)
        ensures
            r == self.apply_spec(event),
    ;
}

} // verus!
