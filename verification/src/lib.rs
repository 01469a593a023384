//! Webhook event dispatch and filtering.
//!
//! Given a typed domain event, the library decides which registered webhook
//! subscriptions should receive it: a subscription is selected exactly when it
//! is active, the event's kind is a member of its subscribed-kind list, and its
//! filter predicate (if any) is satisfied by the event's payload. The matching
//! pairs become delivery requests for the delivery subsystem; the surrounding
//! application performs the storage reads and the network handoffs.

pub mod engine;
pub mod error;
pub mod events;
pub mod filter;
pub mod kinds;
pub mod laws;
pub mod subscription;
pub mod value;

pub use value::Val;
pub use value::Value;
