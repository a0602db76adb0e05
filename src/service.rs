//! The streaming verification service: the decisions taken on each event of
//! a request's chunk stream.

use vstd::prelude::*;
use crate::assembler::{AssemblyState, ChunkEvent, EventView, PayloadAssembler, StreamStep};
use crate::request::{RequestError, MAX_BODY_BYTES};

verus! {

/// Serves streamed verification requests, taking at most `max_stream_bytes`
/// bytes of payload per request.
#[derive(Debug, Clone, Copy)]
pub struct MyGrpcReceiptVerifier {
    pub max_stream_bytes: usize,
}

/// What the driver of a streamed request does after an event.
#[derive(Debug)]
pub enum StreamDecision {
    /// Take the next event.
    Continue,
    /// Stop and answer with this error; nothing is verified.
    Stop(RequestError),
    /// The stream ended: decode this payload and verify it.
    Decode(Vec<u8>),
}

impl Default for MyGrpcReceiptVerifier {
    /// A service with the same ceiling as the synchronous transport.
    fn default() -> (r: MyGrpcReceiptVerifier)
        ensures
            r.max_stream_bytes == MAX_BODY_BYTES,
    {
        MyGrpcReceiptVerifier { max_stream_bytes: MAX_BODY_BYTES }
    }
}

impl MyGrpcReceiptVerifier {
    pub fn new(max_stream_bytes: usize) -> (r: MyGrpcReceiptVerifier)
        ensures
            r.max_stream_bytes == max_stream_bytes,
    {
        MyGrpcReceiptVerifier { max_stream_bytes }
    }

    /// Takes one event of a request's stream. A chunk that would bring the
    /// payload over the ceiling stops the request, as does a failure of the
    /// source; in both cases the bytes taken are dropped. The end of the
    /// stream hands the whole payload out for decoding, and only then.
    pub fn on_event(&self, assembler: &mut PayloadAssembler, event: ChunkEvent) -> (r:
        StreamDecision)
        requires
            old(assembler).wf(),
        ensures
            final(assembler).wf(),
            r is Decode ==> old(assembler).state() == AssemblyState::Receiving && event@ is End,
            old(assembler).state() == AssemblyState::Receiving ==> match event@ {
                EventView::Data(d) => if old(assembler).buffered().len() + d.len()
                    <= self.max_stream_bytes {
                    &&& r is Continue
                    &&& final(assembler).state() == AssemblyState::Receiving
                    &&& final(assembler).buffered() == old(assembler).buffered() + d
                } else {
                    &&& r matches StreamDecision::Stop(RequestError::TooLarge { size, limit })
                    &&& size == if old(assembler).buffered().len() + d.len() <= usize::MAX {
                        (old(assembler).buffered().len() + d.len()) as usize
                    } else {
                        usize::MAX
                    }
                    &&& limit == self.max_stream_bytes
                    &&& final(assembler).state() == AssemblyState::Failed
                    &&& final(assembler).buffered().len() == 0
                },
                EventView::Failed(m) => {
                    &&& r matches StreamDecision::Stop(RequestError::Transport { detail })
                    &&& detail@ == m
                    &&& final(assembler).state() == AssemblyState::Failed
                    &&& final(assembler).buffered().len() == 0
                },
                EventView::End => {
                    &&& r matches StreamDecision::Decode(p)
                    &&& p@ == old(assembler).buffered()
                    &&& final(assembler).state() == AssemblyState::Accumulated
                },
            },
            old(assembler).state() != AssemblyState::Receiving ==> {
                &&& r matches StreamDecision::Stop(RequestError::Transport { .. })
                &&& final(assembler).state() == old(assembler).state()
            },
    {
        let over = match &event {
            ChunkEvent::Data(d) => {
                let taken = assembler.buffered_len();
                if assembler.current_state() == AssemblyState::Receiving && (taken
                    > self.max_stream_bytes || d.len() > self.max_stream_bytes - taken) {
                    Some(taken.saturating_add(d.len()))
                } else {
                    None
                }
            },
            _ => None,
        };
        match over {
            Some(size) => {
                let note = "the payload is over the ceiling".to_owned();
                let _ = assembler.on_event(ChunkEvent::Failed(note));
                StreamDecision::Stop(RequestError::TooLarge { size, limit: self.max_stream_bytes })
            },
            None => match assembler.on_event(event) {
                StreamStep::Continue => StreamDecision::Continue,
                StreamStep::Abort(e) => StreamDecision::Stop(RequestError::Transport { detail: e.detail }),
                StreamStep::Complete(p) => StreamDecision::Decode(p),
            },
        }
    }
}

} // verus!
