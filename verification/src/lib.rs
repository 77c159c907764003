//! Turn an owned connection listener into a pollable sequence of accepted
//! connections.
//!
//! A listener is moved into an adapter by [`IntoIncoming::into_incoming`];
//! from then on the adapter is the sole owner of the listener and acts as the
//! cursor of a lazy, never-ending sequence of accept outcomes.  Each drive of
//! the sequence asks the listener's accept primitive for the next ready
//! connection: a ready connection is published as `Some(Ok(..))`, a failure of
//! the primitive is published as `Some(Err(..))` without closing the sequence,
//! and when nothing is ready the poll suspends.
//!
//! The [`tcp`] and [`unix`] modules adapt the two socket listeners of the
//! tokio runtime.  The [`scripted`] module holds a deterministic stand-in for
//! the accept primitive, against which the ordering and forwarding guarantees
//! of the adapter are stated and proved.

mod adapter;
pub mod scripted;
pub mod tcp;
pub mod unix;

pub use adapter::step_spec;
pub use adapter::accept_step;
pub use adapter::lemma_step_never_closes;
pub use adapter::IntoIncoming;
