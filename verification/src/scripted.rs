//! A deterministic stand-in for the accept primitive.
//!
//! A [`ScriptedListener`] plays back a fixed script of reports, front first,
//! and reports `Pending` forever once the script is exhausted.  Converting it
//! yields a [`ScriptedIncoming`], the owned sequence over the script, whose
//! contracts pin down the adapter's observable behavior: one published
//! element per ready report, failures forwarded verbatim without closing the
//! sequence, and no reordering.

use vstd::prelude::*;
use core::task::Poll;
use crate::adapter::IntoIncoming;
use crate::adapter::accept_step;
use crate::adapter::step_spec;

verus! {

/// An accept primitive that plays back a fixed script of reports.
#[verifier::reject_recursive_types(C)]
#[verifier::reject_recursive_types(E)]
pub struct ScriptedListener<C, E> {
    script: Vec<Poll<Result<C, E>>>,
}

impl<C, E> ScriptedListener<C, E> {
    /// The reports not yet played back, front first.
    pub closed spec fn queue(self) -> Seq<Poll<Result<C, E>>> {
        self.script@
    }

    /// A listener that will play back `script`, front first, and report
    /// `Pending` forever once the script is exhausted.
    pub fn new(script: Vec<Poll<Result<C, E>>>) -> (listener: Self)
        ensures
            listener.queue() == script@,
    {
        ScriptedListener { script }
    }

    /// One attempt of the accept primitive: play back the front of the
    /// script, or report `Pending` when nothing is left.
    pub fn poll_accept(&mut self) -> (report: Poll<Result<C, E>>)
        ensures
            old(self).queue().len() == 0 ==> report == Poll::<Result<C, E>>::Pending
                && final(self).queue() == old(self).queue(),
            old(self).queue().len() > 0 ==> report == old(self).queue()[0]
                && final(self).queue() == old(self).queue().drop_first(),
    {
        if self.script.len() == 0 {
            Poll::Pending
        } else {
            let report = self.script.remove(0);
            proof {
                assert(self.script@ =~= old(self).script@.drop_first());
            }
            report
        }
    }
}

/// The owned sequence of accept outcomes over a scripted listener.
///
/// It holds the moved listener and nothing else: the adapter itself is the
/// sole cursor of the sequence.
#[verifier::reject_recursive_types(C)]
#[verifier::reject_recursive_types(E)]
pub struct ScriptedIncoming<C, E> {
    listener: ScriptedListener<C, E>,
}

impl<C, E> ScriptedIncoming<C, E> {
    /// The reports the owned listener has not yet played back.
    pub closed spec fn queue(self) -> Seq<Poll<Result<C, E>>> {
        self.listener.queue()
    }

    /// Drive the sequence once.
    ///
    /// The front of the queue is consumed and published: a ready connection
    /// as one `Some(Ok(..))` element, a failure as one `Some(Err(..))`
    /// element, after which the sequence stays drivable over the rest of the
    /// queue.  An empty queue leaves the sequence suspended and unchanged.
    pub fn poll_next(&mut self) -> (element: Poll<Option<Result<C, E>>>)
        ensures
            old(self).queue().len() == 0 ==> element == Poll::<Option<Result<C, E>>>::Pending
                && final(self).queue() == old(self).queue(),
            old(self).queue().len() > 0 ==> element == step_spec(old(self).queue()[0])
                && final(self).queue() == old(self).queue().drop_first(),
    {
        let report = self.listener.poll_accept();
        accept_step(report)
    }
}

impl<C, E> IntoIncoming<ScriptedIncoming<C, E>> for ScriptedListener<C, E> {
    closed spec fn incoming_spec(self) -> ScriptedIncoming<C, E> {
        ScriptedIncoming { listener: self }
    }

    fn into_incoming(self) -> (sequence: ScriptedIncoming<C, E>) {
        ScriptedIncoming { listener: self }
    }
}

/// Conversion moves the listener in whole: the sequence it returns is the
/// owned listener's queue, untouched.  Nothing is accepted by the conversion
/// itself.
pub proof fn lemma_conversion_preserves_queue<C, E>(listener: ScriptedListener<C, E>)
    ensures
        listener.incoming_spec().queue() == listener.queue(),
{
}

/// The elements a consumer collects while driving the sequence through the
/// reports `reports`: the payload of every ready report, in report order;
/// pending reports publish nothing.
pub open spec fn yielded_of<C, E>(reports: Seq<Poll<Result<C, E>>>) -> Seq<Result<C, E>>
    decreases reports.len(),
{
    if reports.len() == 0 {
        Seq::empty()
    } else {
        match reports[0] {
            Poll::Pending => yielded_of(reports.drop_first()),
            Poll::Ready(outcome) => seq![outcome] + yielded_of(reports.drop_first()),
        }
    }
}

/// Driving the sequence through two scripts in a row collects exactly what
/// the two scripts yield, one after the other.
pub proof fn lemma_yielded_of_append<C, E>(
    front: Seq<Poll<Result<C, E>>>,
    back: Seq<Poll<Result<C, E>>>,
)
    ensures
        yielded_of(front + back) == yielded_of(front) + yielded_of(back),
    decreases front.len(),
{
    if front.len() == 0 {
        assert(front + back =~= back);
        assert(yielded_of(front) + yielded_of(back) =~= yielded_of(back));
    } else {
        assert((front + back).drop_first() =~= front.drop_first() + back);
        lemma_yielded_of_append(front.drop_first(), back);
        match front[0] {
            Poll::Pending => {
            }
            Poll::Ready(outcome) => {
                assert(seq![outcome] + (yielded_of(front.drop_first()) + yielded_of(back))
                    =~= (seq![outcome] + yielded_of(front.drop_first())) + yielded_of(back));
            }
        }
    }
}

/// No reordering: when every report of the script is ready, the sequence
/// publishes one element per report, and the `i`th element collected is the
/// payload of the `i`th report.
pub proof fn lemma_yields_in_queue_order<C, E>(reports: Seq<Poll<Result<C, E>>>)
    requires
        forall|i: int| 0 <= i < reports.len() ==> (#[trigger] reports[i]) matches Poll::Ready(_),
    ensures
        yielded_of(reports).len() == reports.len(),
        forall|i: int| 0 <= i < reports.len()
            ==> Poll::Ready(#[trigger] yielded_of(reports)[i]) == reports[i],
    decreases reports.len(),
{
    if reports.len() > 0 {
        assert(reports[0] matches Poll::Ready(_));
        lemma_yields_in_queue_order(reports.drop_first());
        match reports[0] {
            Poll::Pending => {
            }
            Poll::Ready(outcome) => {
                assert(yielded_of(reports) == seq![outcome] + yielded_of(reports.drop_first()));
                assert(forall|i: int| 0 <= i < reports.len() ==> #[trigger] reports[i]
                    == if i == 0 { reports[0] } else { reports.drop_first()[i - 1] });
            }
        }
    }
}

/// Drive the sequence `polls` times, collecting every published element in
/// the order it was published.
///
/// The first `polls` reports of the queue are consumed (all of them when the
/// queue is shorter) and the collected elements are exactly what those
/// reports yield, in queue order.
pub fn drive<C, E>(incoming: &mut ScriptedIncoming<C, E>, polls: usize) -> (collected: Vec<
    Result<C, E>,
>)
    ensures
        polls <= old(incoming).queue().len() ==> final(incoming).queue() == old(
            incoming,
        ).queue().skip(polls as int) && collected@ == yielded_of(
            old(incoming).queue().take(polls as int),
        ),
        polls >= old(incoming).queue().len() ==> final(incoming).queue().len() == 0
            && collected@ == yielded_of(old(incoming).queue()),
{
    let mut collected: Vec<Result<C, E>> = Vec::new();
    let mut i: usize = 0;
    while i < polls
        invariant
            i <= polls,
            i <= old(incoming).queue().len() ==> incoming.queue() == old(incoming).queue().skip(
                i as int,
            ) && collected@ == yielded_of(old(incoming).queue().take(i as int)),
            i >= old(incoming).queue().len() ==> incoming.queue().len() == 0 && collected@
                == yielded_of(old(incoming).queue()),
        decreases polls - i,
    {
        proof {
            if i < old(incoming).queue().len() {
                assert(old(incoming).queue().take(i + 1)
                    =~= old(incoming).queue().take(i as int) + seq![old(incoming).queue()[i as int]]);
                lemma_yielded_of_append(
                    old(incoming).queue().take(i as int),
                    seq![old(incoming).queue()[i as int]],
                );
                assert(incoming.queue().len() > 0);
                assert(incoming.queue()[0] == old(incoming).queue()[i as int]);
            }
        }
        let element = incoming.poll_next();
        match element {
            Poll::Ready(Some(outcome)) => collected.push(outcome),
            Poll::Ready(None) => {
            }
            Poll::Pending => {
            }
        }
        proof {
            if i + 1 <= old(incoming).queue().len() {
                let single = seq![old(incoming).queue()[i as int]];
                assert(incoming.queue() =~= old(incoming).queue().skip(i + 1));
                assert(single.drop_first() =~= Seq::<Poll<Result<C, E>>>::empty());
                assert(yielded_of(Seq::<Poll<Result<C, E>>>::empty()) == Seq::<Result<C, E>>::empty());
                assert(single[0] == old(incoming).queue()[i as int]);
                assert(yielded_of(single) == match old(incoming).queue()[i as int] {
                    Poll::Pending => Seq::<Result<C, E>>::empty(),
                    Poll::Ready(outcome) => seq![outcome] + Seq::<Result<C, E>>::empty(),
                });
                assert(collected@ =~= yielded_of(old(incoming).queue().take(i + 1)));
                if i + 1 == old(incoming).queue().len() {
                    assert(old(incoming).queue().take(i + 1) =~= old(incoming).queue());
                }
            }
        }
        i = i + 1;
    }
    collected
}

} // verus!
