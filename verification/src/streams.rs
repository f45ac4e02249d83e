//! The per-stream frame producer.
//!
//! A [`ClientStream`] owns one streaming argument: a fixed stream id and
//! the not-yet-consumed source items.  It lazily turns the source into
//! the wire sequence for that id: one encoded item frame per source item,
//! in emission order, then exactly one completion frame — and an item is
//! fetched and encoded only when the next frame is pulled, so production
//! respects the backpressure of whoever pumps the frames.  Converting a
//! source item to its wire text cannot fail (see
//! [`crate::value`]), so a fully pulled stream always yields its whole
//! sequence.

use vstd::prelude::*;
use crate::messages::{
    is_completion_message, is_stream_item_message, is_stream_item_message_of, ClientMessage,
    MessageEncoding,
};
use crate::value::value_to_json;

verus! {

/// The explicit production state of one stream.
#[derive(Debug, Clone, Copy, PartialEq, Eq, Structural)]
pub enum StreamPhase {
    /// Item frames are still being produced.
    Emitting,
    /// The completion frame has been produced; the stream is over.
    Completed,
}

/// One streaming argument: a stream id and its owned, not-yet-consumed
/// source sequence.
#[derive(Debug)]
pub struct ClientStream {
    pub stream_id: String,
    pub source: Vec<serde_json::Value>,
    pub encoding: MessageEncoding,
    /// How many item frames have been produced so far.
    pub emitted: usize,
    pub phase: StreamPhase,
}

impl ClientStream {
    /// The producer has not run past its source.
    pub open spec fn wf(self) -> bool {
        self.emitted <= self.source@.len()
    }

    /// A producer that has produced nothing yet.
    pub open spec fn is_fresh(self) -> bool {
        self.emitted == 0 && self.phase is Emitting
    }

    /// Binds `source` to the fixed stream id `stream_id`.
    pub fn new(stream_id: String, source: Vec<serde_json::Value>, encoding: MessageEncoding) -> (r:
        ClientStream)
        ensures
            r.wf(),
            r.is_fresh(),
            r.stream_id@ == stream_id@,
            r.source@ == source@,
            r.encoding == encoding,
    {
        ClientStream { stream_id, source, encoding, emitted: 0, phase: StreamPhase::Emitting }
    }

    /// The id under which this stream's frames are correlated.
    pub fn get_stream_id(&self) -> (r: String)
        ensures
            r@ == self.stream_id@,
    {
        self.stream_id.clone()
    }

    /// Pulls the next frame of the wire sequence.
    ///
    /// While items remain, each pull converts the next item and wraps it,
    /// with the stream id, into an encoded item frame; the pull after the
    /// last item yields exactly one completion frame; after completion
    /// there is nothing more.
    pub fn next_frame(&mut self) -> (r: Option<ClientMessage>)
        requires
            old(self).wf(),
        ensures
            final(self).wf(),
            final(self).stream_id@ == old(self).stream_id@,
            final(self).encoding == old(self).encoding,
            final(self).source@ == old(self).source@,
            old(self).phase is Completed ==> r is None && *final(self) == *old(self),
            old(self).phase is Emitting && old(self).emitted < old(self).source@.len() ==> (match r {
                Option::Some(m) => is_stream_item_message_of(
                    m,
                    old(self).encoding,
                    old(self).stream_id@,
                ) && final(self).phase is Emitting && final(self).emitted == old(self).emitted + 1,
                Option::None => false,
            }),
            old(self).phase is Emitting && old(self).emitted == old(self).source@.len() ==> (
            match r {
                Option::Some(m) => is_completion_message(
                    m,
                    old(self).encoding,
                    old(self).stream_id@,
                ) && final(self).phase is Completed && final(self).emitted == old(self).emitted,
                Option::None => false,
            }),
    {
        match self.phase {
            StreamPhase::Completed => None,
            StreamPhase::Emitting => {
                if self.emitted < self.source.len() {
                    let item = value_to_json(&self.source[self.emitted]);
                    self.emitted = self.emitted + 1;
                    let frame = self.encoding.serialize_stream_item(&self.stream_id, &item);
                    proof {
                        assert(is_stream_item_message(frame, self.encoding, self.stream_id@, item@));
                    }
                    Some(frame)
                } else {
                    self.phase = StreamPhase::Completed;
                    Some(self.encoding.serialize_completion(&self.stream_id))
                }
            },
        }
    }

    /// Produces the whole wire sequence of a fresh stream.
    ///
    /// The sequence has exactly one frame more than the source has
    /// items: each item's frame, bearing the stream id, in emission
    /// order, then exactly one completion frame bearing the same id.
    pub fn produce_frames(&mut self) -> (frames: Vec<ClientMessage>)
        requires
            old(self).wf(),
            old(self).is_fresh(),
        ensures
            final(self).wf(),
            final(self).stream_id@ == old(self).stream_id@,
            final(self).encoding == old(self).encoding,
            final(self).source@ == old(self).source@,
            final(self).phase is Completed,
            final(self).emitted == old(self).source@.len(),
            frames@.len() == old(self).source@.len() + 1,
            forall|i: int|
                0 <= i < old(self).source@.len() ==> is_stream_item_message_of(
                    frames@[i],
                    old(self).encoding,
                    old(self).stream_id@,
                ),
            is_completion_message(
                frames@[old(self).source@.len() as int],
                old(self).encoding,
                old(self).stream_id@,
            ),
    {
        let total = self.source.len();
        let mut frames: Vec<ClientMessage> = Vec::new();
        let mut i: usize = 0;
        while i < total
            invariant
                self.wf(),
                self.phase is Emitting,
                self.emitted == i,
                i <= total,
                total == self.source@.len(),
                self.stream_id@ == old(self).stream_id@,
                self.encoding == old(self).encoding,
                self.source@ == old(self).source@,
                frames@.len() == i,
                forall|j: int|
                    0 <= j < i ==> is_stream_item_message_of(
                        frames@[j],
                        old(self).encoding,
                        old(self).stream_id@,
                    ),
            decreases total - i,
        {
            match self.next_frame() {
                Some(m) => frames.push(m),
                None => {
                    proof {
                        assert(false);
                    }
                },
            }
            i += 1;
        }
        match self.next_frame() {
            Some(m) => frames.push(m),
            None => {
                proof {
                    assert(false);
                }
            },
        }
        frames
    }
}

} // verus!
