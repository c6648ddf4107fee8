//! The workflow's event buffer: an append-only list of events, read by
//! index so that a polling client can resume from a watermark.

use vstd::prelude::*;

use crate::protocol::{events_view, Event, EventView};

verus! {

/// The events from `from_index` on, or none when `from_index` is at or past
/// the end.
pub open spec fn events_from(events: Seq<EventView>, from_index: int) -> Seq<EventView> {
    if from_index >= events.len() {
        Seq::empty()
    } else {
        events.subrange(from_index, events.len() as int)
    }
}

/// An event sink that buffers events in memory.
pub struct BufferEventSink {
    events: Vec<Event>,
}

impl View for BufferEventSink {
    type V = Seq<EventView>;

    closed spec fn view(&self) -> Seq<EventView> {
        events_view(self.events@)
    }
}

impl BufferEventSink {
    pub fn new() -> (r: Self)
        ensures
            r@ == Seq::<EventView>::empty(),
    {
        let r = BufferEventSink { events: Vec::new() };
        assert(r@ =~= Seq::<EventView>::empty());
        r
    }

    /// Remove and return all buffered events.
    pub fn drain(&mut self) -> (r: Vec<Event>)
        ensures
            events_view(r@) == old(self)@,
            final(self)@ == Seq::<EventView>::empty(),
    {
        let mut r: Vec<Event> = Vec::new();
        r.append(&mut self.events);
        assert(r@ =~= old(self).events@);
        assert(self@ =~= Seq::<EventView>::empty());
        r
    }

    /// The events from `from_index` on, plus the new watermark: the total
    /// number of events so far.
    pub fn events_since(&self, from_index: usize) -> (r: (Vec<Event>, usize))
        ensures
            events_view(r.0@) == events_from(self@, from_index as int),
            r.1 == self@.len(),
    {
        let total = self.events.len();
        let mut out: Vec<Event> = Vec::new();
        if from_index >= total {
            assert(events_view(out@) =~= events_from(self@, from_index as int));
            return (out, total);
        }
        let mut i: usize = from_index;
        while i < total
            invariant
                from_index <= i <= total,
                total == self.events@.len(),
                out@.len() == i - from_index,
                forall|j: int| 0 <= j < out@.len() ==> #[trigger] out@[j]@ == self.events@[from_index + j]@,
            decreases total - i,
        {
            out.push(self.events[i].copy());
            i = i + 1;
        }
        assert(events_view(out@) =~= events_from(self@, from_index as int));
        (out, total)
    }

    pub fn len(&self) -> (r: usize)
        ensures
            r == self@.len(),
    {
        self.events.len()
    }

    pub fn is_empty(&self) -> (r: bool)
        ensures
            r == (self@.len() == 0),
    {
        self.len() == 0
    }

    /// Append an event.
    pub fn emit_event_sync(&mut self, event: Event)
        ensures
            final(self)@ == old(self)@.push(event@),
    {
        self.events.push(event);
        assert(self@ =~= old(self)@.push(event@));
    }
}

/// The watermark contract of the buffer: reading from 0 returns the whole
/// buffer, and reading from any index at or past its length returns
/// nothing; in both cases the watermark is the length.
pub proof fn lemma_events_since_bounds(events: Seq<EventView>, k: int)
    requires
        k >= events.len(),
    ensures
        events_from(events, 0) == events,
        events_from(events, k) == Seq::<EventView>::empty(),
{
    if events.len() > 0 {
        assert(events.subrange(0, events.len() as int) =~= events);
    }
}

} // verus!
