//! Typed protocol messages produced by this layer.
//!
//! An argument travels in its canonical wire text (the JSON text of the
//! value), so a message here is plain data: the method name, the ordered
//! argument texts, an optional invocation id and the ordered stream ids.

use vstd::prelude::*;

verus! {

/// The view of an optional id.
pub open spec fn opt_text(o: Option<String>) -> Option<Seq<char>> {
    match o {
        Option::Some(s) => Option::Some(s@),
        Option::None => Option::None,
    }
}

/// The view of an optional argument list.
pub open spec fn opt_texts(o: Option<Vec<String>>) -> Option<Seq<Seq<char>>> {
    match o {
        Option::Some(v) => Option::Some(v.deep_view()),
        Option::None => Option::None,
    }
}

/// An invocation message: one remote-method call.  The invocation id is
/// absent exactly for fire-and-forget calls.
#[derive(Debug, Clone, PartialEq, Eq)]
pub struct Invocation {
    pub target: String,
    pub arguments: Option<Vec<String>>,
    pub invocation_id: Option<String>,
    pub stream_ids: Vec<String>,
}

impl Invocation {
    /// A call that does not await a server-side result.
    pub fn non_blocking(target: String, arguments: Option<Vec<String>>) -> (r: Invocation)
        ensures
            r.target@ == target@,
            opt_texts(r.arguments) == opt_texts(arguments),
            r.invocation_id is None,
            r.stream_ids@.len() == 0,
    {
        Invocation { target, arguments, invocation_id: None, stream_ids: Vec::new() }
    }

    /// Records the correlation id under which a reply is expected.
    pub fn with_invocation_id(&mut self, invocation_id: String)
        ensures
            final(self).target@ == old(self).target@,
            opt_texts(final(self).arguments) == opt_texts(old(self).arguments),
            final(self).invocation_id matches Some(id) && id@ == invocation_id@,
            final(self).stream_ids.deep_view() == old(self).stream_ids.deep_view(),
    {
        self.invocation_id = Some(invocation_id);
    }

    /// Records the ids of the argument streams, in the order their stream
    /// arguments were added.
    pub fn with_streams(&mut self, stream_ids: Vec<String>)
        ensures
            final(self).target@ == old(self).target@,
            opt_texts(final(self).arguments) == opt_texts(old(self).arguments),
            opt_text(final(self).invocation_id) == opt_text(old(self).invocation_id),
            final(self).stream_ids.deep_view() == stream_ids.deep_view(),
    {
        self.stream_ids = stream_ids;
    }
}

/// An invocation whose reply is a stream of items rather than one value.
/// The invocation id is mandatory and the argument list is always carried,
/// even when empty.
#[derive(Debug, Clone, PartialEq, Eq)]
pub struct StreamInvocation {
    pub invocation_id: String,
    pub target: String,
    pub arguments: Option<Vec<String>>,
    pub stream_ids: Vec<String>,
}

impl StreamInvocation {
    pub fn new(invocation_id: String, target: String, arguments: Option<Vec<String>>) -> (r:
        StreamInvocation)
        ensures
            r.invocation_id@ == invocation_id@,
            r.target@ == target@,
            opt_texts(r.arguments) == opt_texts(arguments),
            r.stream_ids@.len() == 0,
    {
        StreamInvocation { invocation_id, target, arguments, stream_ids: Vec::new() }
    }

    /// Records the ids of the argument streams, in the order their stream
    /// arguments were added.
    pub fn with_streams(&mut self, stream_ids: Vec<String>)
        ensures
            final(self).invocation_id@ == old(self).invocation_id@,
            final(self).target@ == old(self).target@,
            opt_texts(final(self).arguments) == opt_texts(old(self).arguments),
            final(self).stream_ids.deep_view() == stream_ids.deep_view(),
    {
        self.stream_ids = stream_ids;
    }
}

} // verus!
