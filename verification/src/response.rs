//! The single-consumer reply sequence of a streaming-response call.
//!
//! The dispatcher correlates inbound frames to the invocation and feeds
//! them in arrival order; the consumer pulls typed item payloads out.
//! Items are delivered first-in first-out — the order the peer emitted
//! them — and the sequence terminates exactly once, by exhaustion or by
//! error, never both and never neither; once terminated it is exhausted
//! permanently.

use vstd::prelude::*;
use crate::errors::SignalRClientError;

verus! {

/// One inbound event of a reply stream, as the dispatcher hands it over.
pub enum StreamEvent {
    /// The next item's wire payload.
    Item(String),
    /// The peer signalled normal exhaustion.
    Completion,
    /// The peer or the connection reported a failure.
    Error(String),
}

/// How a reply stream came to its end.
#[derive(Debug, Clone, PartialEq, Eq)]
pub enum StreamEnd {
    Completed,
    Failed(String),
}

/// The outcome of one pull.
#[derive(Debug, Clone, PartialEq, Eq)]
pub enum StreamPull {
    /// The next item's wire payload, in emission order.
    Item(String),
    /// Nothing buffered yet and the stream is not over: the caller must
    /// wait for the dispatcher to feed the next event.
    Pending,
    /// The stream is over; repeated pulls keep saying so.
    Ended,
    /// The stream terminated with this error; delivered exactly once,
    /// after which the stream is merely exhausted.
    Failed(String),
}

/// A pull outcome, at the specification level.
pub enum PullView {
    Item(Seq<char>),
    Pending,
    Ended,
    Failed(Seq<char>),
}

/// The view of one pull outcome.
pub open spec fn pull_view(p: StreamPull) -> PullView {
    match p {
        StreamPull::Item(s) => PullView::Item(s@),
        StreamPull::Pending => PullView::Pending,
        StreamPull::Ended => PullView::Ended,
        StreamPull::Failed(m) => PullView::Failed(m@),
    }
}

/// The receiving end of one streaming-response invocation.
#[derive(Debug)]
pub struct ResponseStream {
    /// Payloads received and not yet pulled, in arrival order.
    pub buffered: Vec<String>,
    /// The terminal event, once one arrived.
    pub end: Option<StreamEnd>,
    /// Whether the consumer has observed the termination.
    pub finished: bool,
}

impl ResponseStream {
    /// Termination is observed only after it arrived, with nothing left
    /// to deliver.
    pub open spec fn wf(self) -> bool {
        self.finished ==> self.end is Some && self.buffered@.len() == 0
    }

    /// A reply stream awaiting its first event.
    pub fn new() -> (r: ResponseStream)
        ensures
            r.wf(),
            r.buffered@.len() == 0,
            r.end is None,
            !r.finished,
    {
        ResponseStream { buffered: Vec::new(), end: None, finished: false }
    }

    /// Records one inbound event.
    ///
    /// Succeeds exactly as long as no terminal event has been recorded:
    /// an item is appended behind the already-buffered ones, and a
    /// completion or error is recorded as the unique terminal event.  An
    /// event arriving after termination is refused as a protocol error
    /// and changes nothing.
    pub fn feed(&mut self, event: StreamEvent) -> (r: Result<(), SignalRClientError>)
        requires
            old(self).wf(),
        ensures
            final(self).wf(),
            r is Ok <==> old(self).end is None,
            match r {
                Result::Ok(_) => final(self).finished == old(self).finished && match event {
                    StreamEvent::Item(p) => final(self).buffered.deep_view()
                        == old(self).buffered.deep_view().push(p@)
                        && final(self).end == old(self).end,
                    StreamEvent::Completion => final(self).buffered@ == old(self).buffered@
                        && (final(self).end matches Some(e) && e is Completed),
                    StreamEvent::Error(m) => final(self).buffered@ == old(self).buffered@
                        && (final(self).end matches Some(e) && e matches StreamEnd::Failed(f)
                        && f@ == m@),
                },
                Result::Err(e) => e is ProtocolError && *final(self) == *old(self),
            },
    {
        if self.end.is_some() {
            return Err(
                SignalRClientError::ProtocolError {
                    message: "stream frame after termination".to_owned(),
                },
            );
        }
        match event {
            StreamEvent::Item(p) => {
                let ghost prev = self.buffered;
                self.buffered.push(p);
                proof {
                    assert(self.buffered.deep_view() =~= prev.deep_view().push(
                        self.buffered@.last()@,
                    ));
                }
            },
            StreamEvent::Completion => {
                self.end = Some(StreamEnd::Completed);
            },
            StreamEvent::Error(m) => {
                self.end = Some(StreamEnd::Failed(m));
            },
        }
        Ok(())
    }

    /// Pulls once.
    ///
    /// Buffered items come out first-in first-out, even after the
    /// terminal event already arrived.  With nothing buffered, the pull
    /// is pending until termination arrives; the first pull that
    /// observes termination reports it — an error exactly once — and
    /// every later pull reports plain exhaustion.
    pub fn next(&mut self) -> (r: StreamPull)
        requires
            old(self).wf(),
        ensures
            final(self).wf(),
            final(self).end == old(self).end,
            pull_step(*old(self), pull_view(r), *final(self)),
            match r {
                StreamPull::Item(p) => old(self).buffered@.len() > 0
                    && p@ == old(self).buffered.deep_view()[0]
                    && final(self).buffered.deep_view()
                    == old(self).buffered.deep_view().drop_first()
                    && final(self).finished == old(self).finished,
                StreamPull::Pending => old(self).buffered@.len() == 0 && old(self).end is None
                    && *final(self) == *old(self),
                StreamPull::Ended => old(self).buffered@.len() == 0
                    && (old(self).finished
                    || (old(self).end matches Some(e) && e is Completed))
                    && final(self).finished && final(self).buffered@ == old(self).buffered@,
                StreamPull::Failed(m) => old(self).buffered@.len() == 0 && !old(self).finished
                    && (old(self).end matches Some(e) && e matches StreamEnd::Failed(f)
                    && f@ == m@)
                    && final(self).finished && final(self).buffered@ == old(self).buffered@,
            },
    {
        if self.buffered.len() > 0 {
            let p = self.buffered.remove(0);
            proof {
                assert(self.buffered.deep_view() =~= old(self).buffered.deep_view().drop_first());
            }
            return StreamPull::Item(p);
        }
        match &self.end {
            None => StreamPull::Pending,
            Some(StreamEnd::Completed) => {
                self.finished = true;
                StreamPull::Ended
            },
            Some(StreamEnd::Failed(m)) => {
                if self.finished {
                    StreamPull::Ended
                } else {
                    let message = m.clone();
                    self.finished = true;
                    StreamPull::Failed(message)
                }
            },
        }
    }
}

/// `s` is `pre` after one pull with the outcome `out`: what `next`'s
/// contract states of that call.
pub open spec fn pull_step(pre: ResponseStream, out: PullView, s: ResponseStream) -> bool {
    &&& s.end == pre.end
    &&& match out {
        PullView::Item(p) => pre.buffered@.len() > 0 && p == pre.buffered.deep_view()[0]
            && s.buffered.deep_view() == pre.buffered.deep_view().drop_first() && s.finished
            == pre.finished,
        PullView::Pending => pre.buffered@.len() == 0 && pre.end is None && s == pre,
        PullView::Ended => pre.buffered@.len() == 0 && (pre.finished || (pre.end matches Some(e)
            && e is Completed)) && s.finished && s.buffered@ == pre.buffered@,
        PullView::Failed(m) => pre.buffered@.len() == 0 && !pre.finished && (pre.end matches Some(
            e,
        ) && e matches StreamEnd::Failed(f) && f@ == m) && s.finished && s.buffered@
            == pre.buffered@,
    }
}

/// `states` is a run of the stream: each pull steps from one state to
/// the next with the recorded outcome.
pub open spec fn pull_trace(states: Seq<ResponseStream>, outs: Seq<PullView>) -> bool {
    &&& states.len() == outs.len() + 1
    &&& forall|k: int| 0 <= k < outs.len() ==> pull_step(states[k], outs[k], states[k + 1])
}

/// One pull preserves well-formedness.
proof fn lemma_pull_step_wf(pre: ResponseStream, out: PullView, s: ResponseStream)
    requires
        pre.wf(),
        pull_step(pre, out, s),
    ensures
        s.wf(),
{
}

/// Every state of a run from a well-formed state is well-formed.
proof fn lemma_trace_wf(states: Seq<ResponseStream>, outs: Seq<PullView>, k: int)
    requires
        pull_trace(states, outs),
        states[0].wf(),
        0 <= k <= outs.len(),
    ensures
        states[k].wf(),
    decreases k,
{
    if k > 0 {
        lemma_trace_wf(states, outs, k - 1);
        lemma_pull_step_wf(states[k - 1], outs[k - 1], states[k]);
    }
}

/// A pull from a state whose termination was already observed reports
/// plain exhaustion and keeps it observed.
proof fn lemma_pull_after_finish(pre: ResponseStream, out: PullView, s: ResponseStream)
    requires
        pre.wf(),
        pre.finished,
        pull_step(pre, out, s),
    ensures
        out is Ended,
        s.finished,
{
}

/// Observed termination never goes away along a run.
proof fn lemma_finished_propagates(
    states: Seq<ResponseStream>,
    outs: Seq<PullView>,
    a: int,
    b: int,
)
    requires
        pull_trace(states, outs),
        states[0].wf(),
        0 <= a <= b <= outs.len(),
        states[a].finished,
    ensures
        states[b].finished,
    decreases b - a,
{
    if b > a {
        lemma_finished_propagates(states, outs, a, b - 1);
        lemma_trace_wf(states, outs, b - 1);
        lemma_pull_after_finish(states[b - 1], outs[b - 1], states[b]);
    }
}

/// A reply stream terminates exactly once: in any run, once a pull
/// reports the end — by exhaustion or by error — every later pull
/// reports plain exhaustion; never another item, never a second error.
pub proof fn lemma_terminates_exactly_once(
    states: Seq<ResponseStream>,
    outs: Seq<PullView>,
    i: int,
    j: int,
)
    requires
        pull_trace(states, outs),
        states[0].wf(),
        0 <= i < j < outs.len(),
        outs[i] is Ended || outs[i] is Failed,
    ensures
        outs[j] is Ended,
{
    assert(states[i + 1].finished);
    lemma_finished_propagates(states, outs, i + 1, j);
    lemma_trace_wf(states, outs, j);
    lemma_pull_after_finish(states[j], outs[j], states[j + 1]);
}

/// After `k` pulls that each delivered an item, exactly the first `k`
/// buffered payloads are gone.
proof fn lemma_buffer_after_items(states: Seq<ResponseStream>, outs: Seq<PullView>, k: int)
    requires
        pull_trace(states, outs),
        forall|n: int| 0 <= n < outs.len() ==> outs[n] is Item,
        0 <= k <= outs.len(),
    ensures
        states[0].buffered.deep_view().len() >= k,
        states[k].buffered.deep_view() == states[0].buffered.deep_view().skip(k),
    decreases k,
{
    if k == 0 {
        assert(states[0].buffered.deep_view().skip(0) =~= states[0].buffered.deep_view());
    } else {
        lemma_buffer_after_items(states, outs, k - 1);
        assert(pull_step(states[k - 1], outs[k - 1], states[k]));
        assert(outs[k - 1] is Item);
        assert(states[k - 1].buffered.deep_view().len() > 0);
        assert(states[0].buffered.deep_view().len() >= k);
        assert(states[k].buffered.deep_view()
            == states[k - 1].buffered.deep_view().drop_first());
        assert(states[0].buffered.deep_view().skip(k - 1).drop_first()
            =~= states[0].buffered.deep_view().skip(k));
    }
}

/// Items come out in arrival order: a run of item-delivering pulls
/// yields exactly the payloads the dispatcher fed, first-in first-out,
/// none skipped, duplicated or reordered.
pub proof fn lemma_items_in_arrival_order(states: Seq<ResponseStream>, outs: Seq<PullView>)
    requires
        pull_trace(states, outs),
        forall|n: int| 0 <= n < outs.len() ==> outs[n] is Item,
    ensures
        forall|n: int|
            0 <= n < outs.len() ==> outs[n] == PullView::Item(
                states[0].buffered.deep_view()[n],
            ),
{
    assert forall|n: int| 0 <= n < outs.len() implies outs[n] == PullView::Item(
        states[0].buffered.deep_view()[n],
    ) by {
        lemma_buffer_after_items(states, outs, n + 1);
        lemma_buffer_after_items(states, outs, n);
        assert(pull_step(states[n], outs[n], states[n + 1]));
        assert(outs[n] is Item);
        assert(states[n].buffered.deep_view().len() > 0);
        assert(states[0].buffered.deep_view().len() > n);
        assert(states[n].buffered.deep_view()[0] == states[0].buffered.deep_view().skip(n)[0]);
        assert(states[0].buffered.deep_view().skip(n)[0] == states[0].buffered.deep_view()[n]);
    }
}

} // verus!
