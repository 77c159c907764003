//! The heart of the adapter: what one drive of the sequence publishes, given
//! what the accept primitive reported, and the conversion trait that moves a
//! listener into its sequence.

use vstd::prelude::*;
use core::task::Poll;

verus! {

#[verifier::external_type_specification]
#[verifier::reject_recursive_types(T)]
pub struct ExPoll<T>(Poll<T>);

#[verifier::external_type_specification]
#[verifier::external_body]
pub struct ExContext<'a>(core::task::Context<'a>);

#[verifier::external_type_specification]
#[verifier::external_body]
pub struct ExIoError(std::io::Error);

/// What one drive of the sequence publishes, given what the accept primitive
/// reported.
///
/// A ready connection is published as one `Some(Ok(..))` element; a failure
/// of the primitive is published as one `Some(Err(..))` element; when nothing
/// is ready the poll stays pending.  No report of the primitive maps to
/// `Ready(None)`: the sequence never signals its own end.
pub open spec fn step_spec<C, E>(report: Poll<Result<C, E>>) -> Poll<Option<Result<C, E>>> {
    match report {
        Poll::Pending => Poll::Pending,
        Poll::Ready(outcome) => Poll::Ready(Some(outcome)),
    }
}

/// The executable step: wrap whatever the accept primitive reported as the
/// next element of the sequence, keeping success and failure apart and never
/// ending the sequence.
pub fn accept_step<C, E>(report: Poll<Result<C, E>>) -> (element: Poll<Option<Result<C, E>>>)
    ensures
        element == step_spec(report),
{
    match report {
        Poll::Pending => Poll::Pending,
        Poll::Ready(outcome) => Poll::Ready(Some(outcome)),
    }
}

/// The sequence never terminates of its own accord: no report of the accept
/// primitive, a failure included, is published as the end of the sequence.
pub proof fn lemma_step_never_closes<C, E>(report: Poll<Result<C, E>>)
    ensures
        step_spec(report) != Poll::<Option<Result<C, E>>>::Ready(None),
{
}

/// Conversion of a listener into an owned sequence of accept outcomes.
///
/// The listener is moved in: after the call the caller no longer holds it,
/// and the produced sequence is its sole owner.  Conversion is pure ownership
/// transfer: `incoming_spec` pins the produced value, so nothing is accepted
/// and nothing else happens until the sequence is driven.
pub trait IntoIncoming<S>: Sized {
    /// The sequence that conversion produces, holding the moved listener.
    spec fn incoming_spec(self) -> S;

    /// Consume the listener, returning the sequence of accept outcomes that
    /// owns it.
    fn into_incoming(self) -> (sequence: S)
        ensures
            sequence == self.incoming_spec(),
    ;
}

} // verus!
