//! The invocation builder and its three terminal operations.
//!
//! A [`SendBuilder`] is created per call, owned by its creating call path
//! alone, and consumed exactly once by `send`, `invoke` or
//! `invoke_stream`.  It accumulates the method name, the plain arguments
//! in insertion order (each already converted to its wire text) and one
//! frame producer per streaming argument; a terminal operation finalizes
//! and encodes the invocation message and hands it over, together with
//! the frame producers, as an [`OutboundInvocation`] for the dispatcher
//! to transmit.

use vstd::prelude::*;
use crate::errors::SignalRClientError;
use crate::ids::allocate_id;
use crate::messages::{
    args_or_empty, is_invocation_message, is_stream_invocation_message, ClientMessage,
    MessageEncoding,
};
use crate::protocol::{opt_texts, Invocation, StreamInvocation};
use crate::streams::ClientStream;
use crate::value::value_to_json;

verus! {

/// One supplied argument, classified: a plain value, or a source
/// sequence whose items are to be streamed.
pub enum InvocationPart {
    Argument(serde_json::Value),
    Stream(Vec<serde_json::Value>),
}

/// The ids of the streams, in the order their arguments were added.
pub open spec fn stream_ids_of(streams: Seq<ClientStream>) -> Seq<Seq<char>> {
    streams.map_values(|s: ClientStream| s.stream_id@)
}

/// The argument list as the wire carries it: absent when empty.
pub open spec fn spec_args_as_option(args: Seq<Seq<char>>) -> Option<Seq<Seq<char>>> {
    if args.len() == 0 {
        Option::None
    } else {
        Option::Some(args)
    }
}

/// An empty argument list is sent as an absent one.
pub fn args_as_option(arguments: Vec<String>) -> (r: Option<Vec<String>>)
    ensures
        opt_texts(r) == spec_args_as_option(arguments.deep_view()),
{
    proof {
        assert(arguments.deep_view().len() == arguments@.len());
    }
    if arguments.is_empty() {
        None
    } else {
        Some(arguments)
    }
}

/// Collects each stream's id, in order.
pub fn get_stream_ids(streams: &Vec<ClientStream>) -> (r: Vec<String>)
    ensures
        r.deep_view() == stream_ids_of(streams@),
{
    let mut ids: Vec<String> = Vec::new();
    let mut i: usize = 0;
    while i < streams.len()
        invariant
            i <= streams@.len(),
            ids@.len() == i,
            forall|j: int| 0 <= j < i ==> ids.deep_view()[j] == streams@[j].stream_id@,
        decreases streams@.len() - i,
    {
        let ghost prev = ids;
        ids.push(streams[i].get_stream_id());
        proof {
            assert forall|j: int| 0 <= j < i + 1 implies ids.deep_view()[j]
                == streams@[j].stream_id@ by {
                if j < i {
                    assert(ids@[j] == prev@[j]);
                    assert(prev.deep_view()[j] == streams@[j].stream_id@);
                }
            }
        }
        i += 1;
    }
    proof {
        assert(ids.deep_view() =~= stream_ids_of(streams@));
    }
    ids
}

/// One successful `arg` call, at the specification level: the wire text
/// a plain value was converted to, or the stream id a stream source was
/// bound to.
pub enum ArgStep {
    Plain(Seq<char>),
    Stream(Seq<char>),
}

/// The texts of the plain steps, in their original relative order.
pub open spec fn plain_texts_of(steps: Seq<ArgStep>) -> Seq<Seq<char>>
    decreases steps.len(),
{
    if steps.len() == 0 {
        Seq::empty()
    } else {
        let rest = plain_texts_of(steps.drop_last());
        match steps.last() {
            ArgStep::Plain(t) => rest.push(t),
            ArgStep::Stream(_) => rest,
        }
    }
}

/// The ids of the stream steps, in their original relative order.
pub open spec fn step_stream_ids_of(steps: Seq<ArgStep>) -> Seq<Seq<char>>
    decreases steps.len(),
{
    if steps.len() == 0 {
        Seq::empty()
    } else {
        let rest = step_stream_ids_of(steps.drop_last());
        match steps.last() {
            ArgStep::Plain(_) => rest,
            ArgStep::Stream(id) => rest.push(id),
        }
    }
}

/// `b` is `pre` after one successful `arg` call described by `step`:
/// what `arg`'s contract states of that call.
pub open spec fn arg_step(pre: SendBuilder, step: ArgStep, b: SendBuilder) -> bool {
    &&& b.method@ == pre.method@
    &&& b.encoding == pre.encoding
    &&& match step {
        ArgStep::Plain(t) => b.streams@ == pre.streams@ && b.arguments.deep_view()
            == pre.arguments.deep_view().push(t),
        ArgStep::Stream(id) => {
            &&& b.arguments@ == pre.arguments@
            &&& b.streams@.len() == pre.streams@.len() + 1
            &&& b.streams@.drop_last() == pre.streams@
            &&& b.streams@.last().stream_id@ == id
            &&& !stream_ids_of(pre.streams@).contains(id)
        },
    }
}

/// `b` is `b0` after the chain of successful `arg` calls `steps`.
pub open spec fn arg_chain(b0: SendBuilder, steps: Seq<ArgStep>, b: SendBuilder) -> bool
    decreases steps.len(),
{
    if steps.len() == 0 {
        b == b0
    } else {
        exists|mid: SendBuilder|
            arg_chain(b0, steps.drop_last(), mid) && arg_step(mid, steps.last(), b)
    }
}

/// For any chain of successful `arg` calls on a new builder, however
/// plain and stream arguments interleave, the recorded argument texts
/// are exactly the plain steps' texts in their original relative order,
/// and the recorded stream ids are exactly the allocated ids in the
/// order their stream arguments were added.
pub proof fn lemma_arg_chain_interleaving(b0: SendBuilder, steps: Seq<ArgStep>, b: SendBuilder)
    requires
        b0.arguments@.len() == 0,
        b0.streams@.len() == 0,
        arg_chain(b0, steps, b),
    ensures
        b.arguments.deep_view() == plain_texts_of(steps),
        stream_ids_of(b.streams@) == step_stream_ids_of(steps),
    decreases steps.len(),
{
    if steps.len() == 0 {
        assert(b.arguments.deep_view() =~= Seq::<Seq<char>>::empty());
        assert(stream_ids_of(b.streams@) =~= Seq::<Seq<char>>::empty());
    } else {
        let mid = choose|mid: SendBuilder|
            arg_chain(b0, steps.drop_last(), mid) && arg_step(mid, steps.last(), b);
        lemma_arg_chain_interleaving(b0, steps.drop_last(), mid);
        match steps.last() {
            ArgStep::Plain(t) => {
                assert(stream_ids_of(b.streams@) =~= stream_ids_of(mid.streams@));
            },
            ArgStep::Stream(id) => {
                assert(b.arguments.deep_view() =~= mid.arguments.deep_view());
                assert forall|k: int| 0 <= k < mid.streams@.len() implies stream_ids_of(
                    b.streams@,
                )[k] == stream_ids_of(mid.streams@)[k] by {
                    assert(b.streams@[k] == b.streams@.drop_last()[k]);
                }
                assert(stream_ids_of(b.streams@) =~= stream_ids_of(mid.streams@).push(id));
            },
        }
    }
}

/// The stream ids a well-formed builder records — the ids its terminal
/// operations write into the invocation message, in insertion order —
/// are pairwise distinct.
pub proof fn lemma_stream_ids_distinct(b: SendBuilder)
    requires
        b.wf(),
    ensures
        forall|i: int, j: int|
            0 <= i < j < stream_ids_of(b.streams@).len() ==> stream_ids_of(b.streams@)[i]
                != stream_ids_of(b.streams@)[j],
{
    assert forall|i: int, j: int|
        0 <= i < j < stream_ids_of(b.streams@).len() implies stream_ids_of(b.streams@)[i]
        != stream_ids_of(b.streams@)[j] by {
        assert(stream_ids_of(b.streams@)[i] == b.streams@[i].stream_id@);
        assert(stream_ids_of(b.streams@)[j] == b.streams@[j].stream_id@);
    }
}

/// A finalized invocation, ready for the dispatcher: the encoded
/// invocation message, the correlation id a reply is expected under (if
/// any), and the frame producers of the streaming arguments, in the
/// order recorded in the message.
#[derive(Debug)]
pub struct OutboundInvocation {
    pub invocation_id: Option<String>,
    pub message: ClientMessage,
    pub streams: Vec<ClientStream>,
}

/// Accumulates one invocation: method name, ordered plain arguments and
/// streaming arguments.
#[derive(Debug)]
pub struct SendBuilder {
    pub method: String,
    pub encoding: MessageEncoding,
    pub arguments: Vec<String>,
    pub streams: Vec<ClientStream>,
}

impl SendBuilder {
    /// The stream ids are pairwise distinct, and every producer is still
    /// untouched and bound to the builder's encoding.
    pub open spec fn wf(self) -> bool {
        &&& forall|i: int, j: int|
            0 <= i < j < self.streams@.len() ==> self.streams@[i].stream_id@
                != self.streams@[j].stream_id@
        &&& forall|i: int|
            0 <= i < self.streams@.len() ==> (#[trigger] self.streams@[i]).wf()
                && self.streams@[i].is_fresh() && self.streams@[i].encoding == self.encoding
    }

    /// A builder for one call of `method`, in the JSON format.
    pub fn new(method: String) -> (r: SendBuilder)
        ensures
            r.wf(),
            r.method@ == method@,
            r.encoding == MessageEncoding::Json,
            r.arguments@.len() == 0,
            r.streams@.len() == 0,
    {
        SendBuilder::new_with_encoding(method, MessageEncoding::Json)
    }

    /// A builder for one call of `method`, in the connection's format.
    pub fn new_with_encoding(method: String, encoding: MessageEncoding) -> (r: SendBuilder)
        ensures
            r.wf(),
            r.method@ == method@,
            r.encoding == encoding,
            r.arguments@.len() == 0,
            r.streams@.len() == 0,
    {
        SendBuilder { method, encoding, arguments: Vec::new(), streams: Vec::new() }
    }

    /// Adds one ordered argument.
    ///
    /// A plain value is converted to its wire text and appended to the
    /// argument list; a stream source is bound to a freshly allocated
    /// stream id — distinct from every id this builder holds — and its
    /// producer appended to the stream list.  The other list is never
    /// touched, so plain arguments keep their relative order however the
    /// two kinds interleave.  Converting a wire value to its text cannot
    /// fail (see [`crate::value`]), so `arg` always succeeds; the
    /// `Result` keeps the chaining shape for callers whose own
    /// conversion into a wire value may fail.
    pub fn arg(self, part: InvocationPart) -> (r: Result<SendBuilder, SignalRClientError>)
        requires
            self.wf(),
        ensures
            r matches Ok(b) && {
                &&& b.wf()
                &&& b.method@ == self.method@
                &&& b.encoding == self.encoding
                &&& match part {
                    InvocationPart::Argument(_) => b.streams@ == self.streams@
                        && b.arguments@.len() == self.arguments@.len() + 1
                        && b.arguments.deep_view().drop_last() == self.arguments.deep_view(),
                    InvocationPart::Stream(items) => {
                        &&& b.arguments@ == self.arguments@
                        &&& b.streams@.len() == self.streams@.len() + 1
                        &&& b.streams@.drop_last() == self.streams@
                        &&& b.streams@.last().source@ == items@
                        &&& b.streams@.last().is_fresh()
                        &&& b.streams@.last().encoding == self.encoding
                        &&& !stream_ids_of(self.streams@).contains(b.streams@.last().stream_id@)
                    },
                }
                &&& match part {
                    InvocationPart::Argument(_) => arg_step(
                        self,
                        ArgStep::Plain(b.arguments.deep_view().last()),
                        b,
                    ),
                    InvocationPart::Stream(_) => arg_step(
                        self,
                        ArgStep::Stream(b.streams@.last().stream_id@),
                        b,
                    ),
                }
            },
    {
        match part {
            InvocationPart::Argument(v) => {
                let text = value_to_json(&v);
                let mut b = self;
                b.arguments.push(text);
                proof {
                    assert(b.arguments.deep_view().drop_last() =~= self.arguments.deep_view());
                    assert(b.arguments.deep_view() =~= self.arguments.deep_view().push(
                        b.arguments.deep_view().last(),
                    ));
                }
                Ok(b)
            },
            InvocationPart::Stream(items) => {
                let mut b = self;
                let existing = get_stream_ids(&b.streams);
                let stream_id = allocate_id(&existing);
                let stream = ClientStream::new(stream_id, items, b.encoding);
                b.streams.push(stream);
                proof {
                    assert(b.streams@.drop_last() =~= self.streams@);
                    assert forall|i: int, j: int|
                        0 <= i < j < b.streams@.len() implies b.streams@[i].stream_id@
                        != b.streams@[j].stream_id@ by {
                        if j == b.streams@.len() - 1 {
                            assert(stream_ids_of(self.streams@)[i] == self.streams@[i].stream_id@);
                        }
                    }
                }
                Ok(b)
            },
        }
    }

    /// Finalizes a fire-and-forget dispatch: the invocation message
    /// carries no invocation id, the argument texts in insertion order
    /// (absent when there are none) and the stream ids in insertion
    /// order; the frame producers are handed over untouched, in that
    /// same order.
    pub fn send(self) -> (r: OutboundInvocation)
        requires
            self.wf(),
        ensures
            r.invocation_id is None,
            is_invocation_message(
                r.message,
                self.encoding,
                self.method@,
                spec_args_as_option(self.arguments.deep_view()),
                Option::<Seq<char>>::None,
                stream_ids_of(self.streams@),
            ),
            r.streams@ == self.streams@,
    {
        let SendBuilder { method, encoding, arguments, streams } = self;
        let mut invocation = Invocation::non_blocking(method, args_as_option(arguments));
        invocation.with_streams(get_stream_ids(&streams));
        let message = encoding.serialize_invocation(&invocation);
        OutboundInvocation { invocation_id: None, message, streams }
    }

    /// Finalizes a single-response dispatch: as `send`, except that a
    /// fresh invocation id — distinct from every stream id this builder
    /// allocated — is recorded in the message, and returned as the id a
    /// reply is awaited under.
    pub fn invoke(self) -> (r: OutboundInvocation)
        requires
            self.wf(),
        ensures
            r.invocation_id matches Some(id) && !stream_ids_of(self.streams@).contains(id@)
                && is_invocation_message(
                r.message,
                self.encoding,
                self.method@,
                spec_args_as_option(self.arguments.deep_view()),
                Option::Some(id@),
                stream_ids_of(self.streams@),
            ),
            r.streams@ == self.streams@,
    {
        let SendBuilder { method, encoding, arguments, streams } = self;
        let stream_ids = get_stream_ids(&streams);
        let invocation_id = allocate_id(&stream_ids);
        let mut invocation = Invocation::non_blocking(method, args_as_option(arguments));
        invocation.with_invocation_id(invocation_id.clone());
        invocation.with_streams(stream_ids);
        let message = encoding.serialize_invocation(&invocation);
        OutboundInvocation { invocation_id: Some(invocation_id), message, streams }
    }

    /// Finalizes a streaming-response dispatch: as `invoke`, except that
    /// the message is a stream invocation, whose argument list is always
    /// carried, even when empty.
    pub fn invoke_stream(self) -> (r: OutboundInvocation)
        requires
            self.wf(),
        ensures
            r.invocation_id matches Some(id) && !stream_ids_of(self.streams@).contains(id@)
                && is_stream_invocation_message(
                r.message,
                self.encoding,
                id@,
                self.method@,
                self.arguments.deep_view(),
                stream_ids_of(self.streams@),
            ),
            r.streams@ == self.streams@,
    {
        let SendBuilder { method, encoding, arguments, streams } = self;
        let stream_ids = get_stream_ids(&streams);
        let invocation_id = allocate_id(&stream_ids);
        let mut invocation = StreamInvocation::new(
            invocation_id.clone(),
            method,
            Some(arguments),
        );
        invocation.with_streams(stream_ids);
        let message = encoding.serialize_stream_invocation(&invocation);
        proof {
            assert(args_or_empty(opt_texts(invocation.arguments))
                == self.arguments.deep_view());
        }
        OutboundInvocation { invocation_id: Some(invocation_id), message, streams }
    }
}

} // verus!
