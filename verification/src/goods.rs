use crate::common::{Aggregate, CommandError, EventError};
use vstd::prelude::*;

verus! {

/// An instruction expressing intent against one good.
///
/// `price` is an opaque 64-bit encoding chosen by the caller; the core copies
/// it verbatim and never interprets it as a number. `quantity` is a signed
/// count. Neither is range-checked here: the domain's expectations (both
/// non-negative) are the surrounding system's to enforce.
#[derive(Debug, Clone, PartialEq)]
pub enum GoodCommand {
    Created { name: String, price: u64, quantity: i32 },
    NameUpdated { name: String },
    PriceUpdated { price: u64 },
    QuantityUpdated { quantity: i32 },
    Deleted,
}

/// A fact that has already happened to one good: the same five shapes as the
/// commands, with identical payload fields. Events are the only things ever
/// folded into state.
#[derive(Debug, Clone, PartialEq)]
pub enum GoodEvent {
    Created { name: String, price: u64, quantity: i32 },
    NameUpdated { name: String },
    PriceUpdated { price: u64 },
    QuantityUpdated { quantity: i32 },
    Deleted,
}

/// Current state of one good aggregate instance.
///
/// `id` is assigned by the caller before the first fold (it is never carried
/// inside an event) and is preserved by every successful fold thereafter.
pub struct Good {
    pub id: String,
    pub name: String,
    pub price: u64,
    pub quantity: i32,
}

/// The event that records a command's effect: the matching kind, carrying the
/// same payload.
pub open spec fn event_for(command: GoodCommand) -> GoodEvent {
    match command {
        GoodCommand::Created { name, price, quantity } => GoodEvent::Created {
            name,
            price,
            quantity,
        },
        GoodCommand::NameUpdated { name } => GoodEvent::NameUpdated { name },
        GoodCommand::PriceUpdated { price } => GoodEvent::PriceUpdated { price },
        GoodCommand::QuantityUpdated { quantity } => GoodEvent::QuantityUpdated { quantity },
        GoodCommand::Deleted => GoodEvent::Deleted,
    }
}

impl Aggregate<GoodCommand, GoodEvent> for Good {
    /// Pure syntactic translation: every command yields exactly the matching
    /// event, in a single-element sequence. Deliberately permissive — no
    /// check that the good already exists before `Created`, nor that it is
    /// still live before an update.
    open spec fn handle_spec(&self, command: GoodCommand) -> Result<Seq<GoodEvent>, CommandError> {
        Ok(seq![event_for(command)])
    }

    /// The fold: a brand-new state with `id` preserved, the event's payload
    /// fields replaced and all others carried over. Folding `Deleted` is
    /// itself the error — deletion is terminal, never a successor state.
    open spec fn apply_spec(&self, event: GoodEvent) -> Result<Good, EventError> {
        match event {
            GoodEvent::Created { name, price, quantity } => Ok(
                Good { id: self.id, name, price, quantity },
            ),
            GoodEvent::NameUpdated { name } => Ok(
                Good { id: self.id, name, price: self.price, quantity: self.quantity },
            ),
            GoodEvent::PriceUpdated { price } => Ok(
                Good { id: self.id, name: self.name, price, quantity: self.quantity },
            ),
            GoodEvent::QuantityUpdated { quantity } => Ok(
                Good { id: self.id, name: self.name, price: self.price, quantity },
            ),
            GoodEvent::Deleted => Err(EventError::AggregateError),
        }
    }

    fn handle(&self, command: GoodCommand) -> (r: Result<Vec<GoodEvent>, CommandError>)
        ensures
            r is Ok,
            r matches Ok(events) ==> events@ == seq![event_for(command)],
    {
        let event = match command {
            GoodCommand::Created { name, price, quantity } => GoodEvent::Created {
                name,
                price,
                quantity,
            },
            GoodCommand::NameUpdated { name } => GoodEvent::NameUpdated { name },
            GoodCommand::PriceUpdated { price } => GoodEvent::PriceUpdated { price },
            GoodCommand::QuantityUpdated { quantity } => GoodEvent::QuantityUpdated { quantity },
            GoodCommand::Deleted => GoodEvent::Deleted,
        };
        let mut events: Vec<GoodEvent> = Vec::new();
        events.push(event);
        proof {
            assert(events@ =~= seq![event_for(command)]);
        }
        Ok(events)
    }

    fn apply(&self, event: GoodEvent) -> (r: Result<Good, EventError>)
        ensures
            r == self.apply_spec(event),
    {
        match event {
            GoodEvent::Created { name, price, quantity } => Ok(
                Good { id: self.id.clone(), name, price, quantity },
            ),
            GoodEvent::NameUpdated { name } => Ok(
                Good {
                    id: self.id.clone(),
                    name,
                    price: self.price,
                    quantity: self.quantity,
                },
            ),
            GoodEvent::PriceUpdated { price } => Ok(
                Good {
                    id: self.id.clone(),
                    name: self.name.clone(),
                    price,
                    quantity: self.quantity,
                },
            ),
            GoodEvent::QuantityUpdated { quantity } => Ok(
                Good {
                    id: self.id.clone(),
                    name: self.name.clone(),
                    price: self.price,
                    quantity,
                },
            ),
            GoodEvent::Deleted => Err(EventError::AggregateError),
        }
    }
}

/// Determinism: the outcome of folding one event into one state is a function
/// of the two alone, so any two results that `apply`'s contract admits for the
/// same state and event are equal — replaying a history always rebuilds the
/// same states.
pub proof fn lemma_apply_deterministic(
    s: Good,
    e: GoodEvent,
    r1: Result<Good, EventError>,
    r2: Result<Good, EventError>,
)
    requires
        r1 == s.apply_spec(e),
        r2 == s.apply_spec(e),
    ensures
        r1 == r2,
{
}

/// Identity preservation: folding any event other than `Deleted` succeeds and
/// keeps the aggregate's `id` unchanged.
pub proof fn lemma_apply_preserves_id(s: Good, e: GoodEvent)
    requires
        e !is Deleted,
    ensures
        s.apply_spec(e) is Ok,
        s.apply_spec(e)->Ok_0.id == s.id,
{
}

/// Field isolation: folding `NameUpdated` replaces `name` alone; `price` and
/// `quantity` are carried over from the old state.
pub proof fn lemma_name_update_isolated(s: Good, n: String)
    ensures
        s.apply_spec(GoodEvent::NameUpdated { name: n }) == Ok::<Good, EventError>(
            (Good { id: s.id, name: n, price: s.price, quantity: s.quantity }),
        ),
{
}

/// Field isolation: folding `PriceUpdated` replaces `price` alone; `name` and
/// `quantity` are carried over from the old state.
pub proof fn lemma_price_update_isolated(s: Good, p: u64)
    ensures
        s.apply_spec(GoodEvent::PriceUpdated { price: p }) == Ok::<Good, EventError>(
            (Good { id: s.id, name: s.name, price: p, quantity: s.quantity }),
        ),
{
}

/// Field isolation: folding `QuantityUpdated` replaces `quantity` alone;
/// `name` and `price` are carried over from the old state.
pub proof fn lemma_quantity_update_isolated(s: Good, q: i32)
    ensures
        s.apply_spec(GoodEvent::QuantityUpdated { quantity: q }) == Ok::<Good, EventError>(
            (Good { id: s.id, name: s.name, price: s.price, quantity: q }),
        ),
{
}

/// Deletion terminality: folding `Deleted` fails with
/// `EventError::AggregateError` whatever the current state, so the old state
/// remains the state of record.
pub proof fn lemma_deleted_fold_fails(s: Good)
    ensures
        s.apply_spec(GoodEvent::Deleted) == Err::<Good, EventError>(EventError::AggregateError),
{
}

/// Command/event shape correspondence: whatever the current state, handling a
/// command succeeds with exactly one event, of the matching kind and carrying
/// the same payload.
pub proof fn lemma_handle_one_matching_event(s: Good, c: GoodCommand)
    ensures
        s.handle_spec(c) is Ok,
        s.handle_spec(c)->Ok_0.len() == 1,
        s.handle_spec(c)->Ok_0[0] == event_for(c),
{
}

} // verus!
