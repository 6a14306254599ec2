//! Command/event core of an event-sourcing aggregate.
//!
//! An aggregate maps commands to emitted events (`handle`) and folds events
//! back into state (`apply`). The contract lives in [`common`]; the one
//! concrete aggregate, an inventory good, lives in [`goods`]. Persistence,
//! dispatch and replay orchestration are the surrounding system's job: this
//! crate only states and proves what one handle or one fold does.

pub mod common;
pub mod goods;
