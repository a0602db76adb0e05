//! Reassembly of a payload that arrives as an ordered stream of chunks.

use vstd::prelude::*;

verus! {

/// Where an assembly stands.
#[derive(Debug, Clone, Copy, PartialEq, Eq, Structural)]
pub enum AssemblyState {
    /// Chunks are still being taken.
    Receiving,
    /// The stream ended normally and the payload was handed out.
    Accumulated,
    /// The stream failed; what had arrived was dropped.
    Failed,
}

/// One thing that the chunk source can produce.
#[derive(Debug, Clone)]
pub enum ChunkEvent {
    /// The next chunk of the payload.
    Data(Vec<u8>),
    /// The source failed, with a description.
    Failed(String),
    /// The source ended normally.
    End,
}

/// A chunk-source event as plain values.
pub enum EventView {
    Data(Seq<u8>),
    Failed(Seq<char>),
    End,
}

impl View for ChunkEvent {
    type V = EventView;

    open spec fn view(&self) -> EventView {
        match self {
            ChunkEvent::Data(d) => EventView::Data(d@),
            ChunkEvent::Failed(m) => EventView::Failed(m@),
            ChunkEvent::End => EventView::End,
        }
    }
}

/// The source failed before the payload was complete.
#[derive(Debug, Clone)]
pub struct TransportError {
    pub detail: String,
}

/// What the driver of a stream does after an event.
#[derive(Debug)]
pub enum StreamStep {
    /// Take the next event.
    Continue,
    /// Stop: the request fails with a transport error.
    Abort(TransportError),
    /// Stop: the whole payload is here.
    Complete(Vec<u8>),
}

/// Accumulates chunks in arrival order.
pub struct PayloadAssembler {
    state: AssemblyState,
    buffer: Vec<u8>,
}

/// What a whole stream of events comes to, given the bytes taken before it:
/// the concatenation of its chunks up to the first end, or the first failure.
/// A source that runs out ends normally.
pub open spec fn stream_result(taken: Seq<u8>, events: Seq<EventView>) -> Result<Seq<u8>, Seq<char>>
    decreases events.len(),
{
    if events.len() == 0 {
        Ok(taken)
    } else {
        match events[0] {
            EventView::Data(d) => stream_result(taken + d, events.drop_first()),
            EventView::Failed(m) => Err(m),
            EventView::End => Ok(taken),
        }
    }
}

/// A sequence of events as plain values.
pub open spec fn event_views(events: Seq<ChunkEvent>) -> Seq<EventView> {
    events.map_values(|e: ChunkEvent| e@)
}

/// The concatenation of chunks, in order.
pub open spec fn concat_chunks(chunks: Seq<Seq<u8>>) -> Seq<u8>
    decreases chunks.len(),
{
    if chunks.len() == 0 {
        Seq::empty()
    } else {
        chunks[0] + concat_chunks(chunks.drop_first())
    }
}

/// The events that deliver chunks one by one.
pub open spec fn data_events(chunks: Seq<Seq<u8>>) -> Seq<EventView> {
    chunks.map_values(|c: Seq<u8>| EventView::Data(c))
}

impl PayloadAssembler {
    pub closed spec fn state(&self) -> AssemblyState {
        self.state
    }

    /// The bytes taken so far.
    pub closed spec fn buffered(&self) -> Seq<u8> {
        self.buffer@
    }

    /// Only a receiving assembly holds bytes.
    pub closed spec fn wf(&self) -> bool {
        self.state != AssemblyState::Receiving ==> self.buffer@.len() == 0
    }

    /// A fresh assembly: receiving, with nothing taken.
    pub fn new() -> (r: PayloadAssembler)
        ensures
            r.wf(),
            r.state() == AssemblyState::Receiving,
            r.buffered() == Seq::<u8>::empty(),
    {
        PayloadAssembler { state: AssemblyState::Receiving, buffer: Vec::new() }
    }

    /// The number of bytes taken so far.
    pub fn buffered_len(&self) -> (r: usize)
        ensures
            r == self.buffered().len(),
    {
        self.buffer.len()
    }

    pub fn current_state(&self) -> (r: AssemblyState)
        ensures
            r == self.state(),
    {
        self.state
    }

    /// Takes one event. A chunk is appended to what was taken; a failure drops
    /// it and aborts; an end hands the whole payload out. Once the assembly
    /// has stopped, it stays as it is and every later event aborts.
    pub fn on_event(&mut self, event: ChunkEvent) -> (r: StreamStep)
        requires
            old(self).wf(),
        ensures
            final(self).wf(),
            old(self).state() == AssemblyState::Receiving ==> match event@ {
                EventView::Data(d) => {
                    &&& r is Continue
                    &&& final(self).state() == AssemblyState::Receiving
                    &&& final(self).buffered() == old(self).buffered() + d
                },
                EventView::Failed(m) => {
                    &&& r matches StreamStep::Abort(e) && e.detail@ == m
                    &&& final(self).state() == AssemblyState::Failed
                    &&& final(self).buffered().len() == 0
                },
                EventView::End => {
                    &&& r matches StreamStep::Complete(p) && p@ == old(self).buffered()
                    &&& final(self).state() == AssemblyState::Accumulated
                    &&& final(self).buffered().len() == 0
                },
            },
            old(self).state() != AssemblyState::Receiving ==> {
                &&& r is Abort
                &&& final(self).state() == old(self).state()
                &&& final(self).buffered() == old(self).buffered()
            },
    {
        if self.state != AssemblyState::Receiving {
            let detail = "the stream has already stopped".to_owned();
            return StreamStep::Abort(TransportError { detail });
        }
        match event {
            ChunkEvent::Data(d) => {
                let mut i: usize = 0;
                while i < d.len()
                    invariant
                        self.state == AssemblyState::Receiving,
                        i <= d@.len(),
                        self.buffer@ == old(self).buffer@ + d@.subrange(0, i as int),
                    decreases d@.len() - i,
                {
                    self.buffer.push(d[i]);
                    i = i + 1;
                    assert(self.buffer@ =~= old(self).buffer@ + d@.subrange(0, i as int));
                }
                assert(d@.subrange(0, d@.len() as int) =~= d@);
                StreamStep::Continue
            },
            ChunkEvent::Failed(m) => {
                self.state = AssemblyState::Failed;
                self.buffer = Vec::new();
                StreamStep::Abort(TransportError { detail: m })
            },
            ChunkEvent::End => {
                self.state = AssemblyState::Accumulated;
                let mut payload = Vec::new();
                std::mem::swap(&mut payload, &mut self.buffer);
                StreamStep::Complete(payload)
            },
        }
    }
}

/// The result of an assembly as plain values.
pub open spec fn assembled_view(r: Result<Vec<u8>, TransportError>) -> Result<Seq<u8>, Seq<char>> {
    match r {
        Ok(p) => Ok(p@),
        Err(e) => Err(e.detail@),
    }
}

/// Runs a whole sequence of events through an assembly; a sequence that runs
/// out without an end or a failure ends normally.
pub fn assemble(events: Vec<ChunkEvent>) -> (r: Result<Vec<u8>, TransportError>)
    ensures
        assembled_view(r) == stream_result(Seq::empty(), event_views(events@)),
{
    let ghost evs = event_views(events@);
    let mut assembler = PayloadAssembler::new();
    let mut rest = events;
    assert(event_views(rest@) =~= evs);
    while rest.len() > 0
        invariant
            evs == event_views(events@),
            assembler.wf(),
            assembler.state() == AssemblyState::Receiving,
            stream_result(Seq::empty(), evs) == stream_result(
                assembler.buffered(),
                event_views(rest@),
            ),
        decreases rest.len(),
    {
        let ghost before = rest@;
        let event = rest.remove(0);
        assert(event_views(rest@) =~= event_views(before).drop_first());
        assert(event_views(before)[0] == event@);
        let ghost taken = assembler.buffered();
        let ghost mapped = event_views(before);
        assert(mapped.len() > 0);
        assert(stream_result(taken, mapped) == match mapped[0] {
            EventView::Data(d) => stream_result(taken + d, mapped.drop_first()),
            EventView::Failed(m) => Err(m),
            EventView::End => Ok(taken),
        });
        match assembler.on_event(event) {
            StreamStep::Continue => {},
            StreamStep::Abort(e) => {
                return Err(e);
            },
            StreamStep::Complete(p) => {
                return Ok(p);
            },
        }
    }
    assert(event_views(rest@).len() == 0);
    match assembler.on_event(ChunkEvent::End) {
        StreamStep::Complete(p) => Ok(p),
        StreamStep::Abort(e) => Err(e),
        StreamStep::Continue => Ok(Vec::new()),
    }
}

proof fn lemma_data_events(taken: Seq<u8>, chunks: Seq<Seq<u8>>)
    ensures
        stream_result(taken, data_events(chunks)) == Ok::<Seq<u8>, Seq<char>>(
            taken + concat_chunks(chunks),
        ),
    decreases chunks.len(),
{
    if chunks.len() == 0 {
        assert(taken + Seq::<u8>::empty() =~= taken);
    } else {
        assert(data_events(chunks).drop_first() =~= data_events(chunks.drop_first()));
        lemma_data_events(taken + chunks[0], chunks.drop_first());
        assert(taken + chunks[0] + concat_chunks(chunks.drop_first()) =~= taken + concat_chunks(
            chunks,
        ));
    }
}

/// A payload delivered in chunks assembles to the concatenation of the
/// chunks in arrival order, the same payload as when delivered whole.
pub proof fn lemma_chunked_equals_whole(chunks: Seq<Seq<u8>>)
    ensures
        stream_result(Seq::empty(), data_events(chunks)) == Ok::<Seq<u8>, Seq<char>>(
            concat_chunks(chunks),
        ),
        stream_result(Seq::empty(), data_events(chunks)) == stream_result(
            Seq::empty(),
            seq![EventView::Data(concat_chunks(chunks))],
        ),
{
    lemma_data_events(Seq::empty(), chunks);
    assert(Seq::<u8>::empty() + concat_chunks(chunks) =~= concat_chunks(chunks));
    let whole = seq![EventView::Data(concat_chunks(chunks))];
    assert(whole.drop_first() =~= Seq::<EventView>::empty());
    assert(stream_result(Seq::empty(), whole) == stream_result(
        Seq::<u8>::empty() + concat_chunks(chunks),
        whole.drop_first(),
    ));
}

/// Chunks are concatenated in arrival order: two chunks assemble to the
/// first followed by the second, so swapping them changes the payload
/// whenever the two concatenations differ.
pub proof fn lemma_order_kept(first: Seq<u8>, second: Seq<u8>)
    ensures
        stream_result(Seq::empty(), seq![EventView::Data(first), EventView::Data(second)])
            == Ok::<Seq<u8>, Seq<char>>(first + second),
        first + second != second + first ==> stream_result(
            Seq::empty(),
            seq![EventView::Data(first), EventView::Data(second)],
        ) != stream_result(Seq::empty(), seq![EventView::Data(second), EventView::Data(first)]),
{
    let chunks = seq![first, second];
    let swapped = seq![second, first];
    lemma_chunked_equals_whole(chunks);
    lemma_chunked_equals_whole(swapped);
    assert(data_events(chunks) =~= seq![EventView::Data(first), EventView::Data(second)]);
    assert(data_events(swapped) =~= seq![EventView::Data(second), EventView::Data(first)]);
    assert(chunks.drop_first().drop_first() =~= Seq::<Seq<u8>>::empty());
    assert(swapped.drop_first().drop_first() =~= Seq::<Seq<u8>>::empty());
    assert(concat_chunks(chunks.drop_first().drop_first()) =~= Seq::<u8>::empty());
    assert(concat_chunks(swapped.drop_first().drop_first()) =~= Seq::<u8>::empty());
    assert(concat_chunks(chunks.drop_first()) =~= second);
    assert(concat_chunks(swapped.drop_first()) =~= first);
    assert(concat_chunks(chunks) =~= first + second);
    assert(concat_chunks(swapped) =~= second + first);
}

/// A failure of the source after any number of chunks, before an end,
/// aborts the stream: no payload comes out, so nothing is verified.
pub proof fn lemma_failure_before_end_aborts(taken: Seq<u8>, events: Seq<EventView>, i: int)
    requires
        0 <= i < events.len(),
        events[i] is Failed,
        forall|j: int| 0 <= j < i ==> #[trigger] events[j] is Data,
    ensures
        stream_result(taken, events) is Err,
    decreases i,
{
    if i > 0 {
        let d = match events[0] {
            EventView::Data(d) => d,
            _ => Seq::empty(),
        };
        assert(events[0] is Data);
        assert forall|j: int| 0 <= j < i - 1 implies #[trigger] events.drop_first()[j] is Data by {
            assert(events[j + 1] is Data);
        }
        lemma_failure_before_end_aborts(taken + d, events.drop_first(), i - 1);
    }
}

} // verus!
