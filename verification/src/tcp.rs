//! The owned-accept adapter for the tokio runtime's TCP listener.

use vstd::prelude::*;
use core::task::Context;
use core::task::Poll;
use crate::adapter::IntoIncoming;
use crate::adapter::accept_step;
use crate::adapter::step_spec;

verus! {

#[verifier::external_type_specification]
#[verifier::external_body]
pub struct ExTcpListener(tokio::net::TcpListener);

#[verifier::external_type_specification]
#[verifier::external_body]
pub struct ExTcpStream(tokio::net::TcpStream);

/// Relies on `tokio::net::TcpListener::poll_accept`: one non-blocking attempt
/// to accept an inbound connection, registering the current task for wake-up
/// when none is ready yet.  On success the primitive also reports the peer
/// address; the adapter deliberately discards it and hands on the stream
/// alone.  What is reported depends on the state of the OS accept queue, so
/// nothing is promised of the outcome.
#[verifier::external_body]
fn poll_accept(listener: &tokio::net::TcpListener, cx: &mut Context<'_>) -> Poll<
    Result<tokio::net::TcpStream, std::io::Error>,
> {
    listener.poll_accept(cx).map(|outcome| outcome.map(|(stream, _)| stream))
}

/// The owned sequence of accept outcomes over a TCP listener.
///
/// It holds the moved listener and nothing else: the adapter itself is the
/// sole cursor of the sequence, and dropping it releases the listener.
pub struct TcpIncoming {
    listener: tokio::net::TcpListener,
}

impl TcpIncoming {
    /// The listener the sequence owns.
    pub closed spec fn listener_spec(self) -> tokio::net::TcpListener {
        self.listener
    }

    /// Drive the sequence once: ask the owned listener's accept primitive for
    /// the next ready connection.
    ///
    /// A ready connection is published as one `Some(Ok(..))` element; a
    /// failure of the primitive as one `Some(Err(..))` element, after which
    /// the sequence stays drivable; when nothing is ready the poll suspends
    /// until the runtime signals readiness.  Which of these comes is decided
    /// by the OS, but every report passes through [`accept_step`], so
    /// `Ready(None)` is never published: the sequence never signals its own
    /// end, and the owned listener is left in place.
    pub fn poll_next(&mut self, cx: &mut Context<'_>) -> (element: Poll<
        Option<Result<tokio::net::TcpStream, std::io::Error>>,
    >)
        ensures
            *final(self) == *old(self),
            element != Poll::<Option<Result<tokio::net::TcpStream, std::io::Error>>>::Ready(None),
            exists|report: Poll<Result<tokio::net::TcpStream, std::io::Error>>|
                element == #[trigger] step_spec(report),
    {
        let report = poll_accept(&self.listener, cx);
        accept_step(report)
    }
}

impl IntoIncoming<TcpIncoming> for tokio::net::TcpListener {
    closed spec fn incoming_spec(self) -> TcpIncoming {
        TcpIncoming { listener: self }
    }

    fn into_incoming(self) -> (sequence: TcpIncoming) {
        TcpIncoming { listener: self }
    }
}

/// Conversion is pure ownership transfer: the sequence it produces owns
/// exactly the listener that was moved in, and nothing has been accepted yet.
pub proof fn lemma_conversion_owns_listener(listener: tokio::net::TcpListener)
    ensures
        listener.incoming_spec().listener_spec() == listener,
{
}

} // verus!
