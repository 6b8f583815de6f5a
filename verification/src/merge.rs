//! Merging the two output channels of a run into one sequence of chunks.
//!
//! Reading the channels is the caller's work. What to do with each thing
//! that a channel delivers is decided here: `Merger::step` takes the event
//! and says what to send. Chunks are passed on in the order in which they
//! arrive, so each channel's output keeps its own order whatever the other
//! channel does.

use crate::lines::{transform_bytes, wrapped};
use vstd::prelude::*;
use vstd::string::StringSliceAdditionalSpecFns;

verus! {

/// The channel that a chunk came from.
#[derive(Clone, Copy, Debug, PartialEq, Eq, Structural)]
pub enum Source {
    Primary,
    Secondary,
}

impl Source {
    /// The display class of the channel's lines.
    pub open spec fn class_name(self) -> Seq<char> {
        match self {
            Source::Primary => "stdout"@,
            Source::Secondary => "stderr"@,
        }
    }

    /// The display class of the channel's lines, as the bytes that are sent.
    pub open spec fn spec_class(self) -> Seq<u8> {
        match self {
            Source::Primary => "stdout".spec_bytes(),
            Source::Secondary => "stderr".spec_bytes(),
        }
    }

    /// The display class of the channel's lines.
    pub fn class(self) -> (name: &'static str)
        ensures
            name@ == self.class_name(),
            name.spec_bytes() == self.spec_class(),
    {
        match self {
            Source::Primary => "stdout",
            Source::Secondary => "stderr",
        }
    }
}

/// Bytes together with the channel they belong to.
pub struct StreamChunk {
    pub source: Source,
    pub bytes: Vec<u8>,
}

/// What a channel can deliver.
pub enum Event {
    /// The channel produced these bytes.
    Chunk(StreamChunk),
    /// The channel reached its end.
    End(Source),
    /// Reading the channel failed.
    Failed(Source),
}

/// What the caller is to do after an event.
pub enum Action {
    /// Send this chunk.
    Emit(StreamChunk),
    /// Send nothing.
    Wait,
    /// Both channels have ended: close the page and end the response.
    Finish,
    /// End the response as it stands.
    Abort,
}

/// `Action` with its bytes as a sequence.
pub enum Reaction {
    Emit(Source, Seq<u8>),
    Wait,
    Finish,
    Abort,
}

/// How far the two channels have come.
#[derive(Clone, Copy, Debug, PartialEq, Eq, Structural)]
pub struct Merger {
    pub primary_open: bool,
    pub secondary_open: bool,
    pub failed: bool,
}

impl Merger {
    /// Both channels open, nothing failed.
    pub open spec fn fresh() -> Merger {
        Merger { primary_open: true, secondary_open: true, failed: false }
    }

    /// Whether `source` has neither ended nor been given up.
    pub open spec fn open(self, source: Source) -> bool {
        !self.failed && match source {
            Source::Primary => self.primary_open,
            Source::Secondary => self.secondary_open,
        }
    }

    /// Whether anything can still be sent.
    pub open spec fn live(self) -> bool {
        !self.failed && (self.primary_open || self.secondary_open)
    }

    /// The state with `source` ended.
    pub open spec fn closed(self, source: Source) -> Merger {
        match source {
            Source::Primary => Merger { primary_open: false, ..self },
            Source::Secondary => Merger { secondary_open: false, ..self },
        }
    }

    /// The state after `event`.
    pub open spec fn next(self, event: Event) -> Merger {
        match event {
            Event::Chunk(_) => self,
            Event::End(source) => if self.open(source) {
                self.closed(source)
            } else {
                self
            },
            Event::Failed(_) => if self.live() {
                Merger { failed: true, ..self }
            } else {
                self
            },
        }
    }

    /// What is to be done about `event` in this state.
    pub open spec fn reaction(self, event: Event) -> Reaction {
        match event {
            Event::Chunk(chunk) => if self.open(chunk.source) {
                Reaction::Emit(chunk.source, wrapped(chunk.bytes@, chunk.source.spec_class()))
            } else {
                Reaction::Wait
            },
            Event::End(source) => if self.open(source) && !self.closed(source).live() {
                Reaction::Finish
            } else {
                Reaction::Wait
            },
            Event::Failed(_) => if self.live() {
                Reaction::Abort
            } else {
                Reaction::Wait
            },
        }
    }

    /// The state before anything has been read.
    pub fn new() -> (merger: Merger)
        ensures
            merger == Merger::fresh(),
    {
        Merger { primary_open: true, secondary_open: true, failed: false }
    }

    /// Whether `source` has neither ended nor been given up.
    pub fn is_open(&self, source: Source) -> (open: bool)
        ensures
            open == self.open(source),
    {
        !self.failed && match source {
            Source::Primary => self.primary_open,
            Source::Secondary => self.secondary_open,
        }
    }

    /// Whether anything can still be sent.
    pub fn is_live(&self) -> (live: bool)
        ensures
            live == self.live(),
    {
        !self.failed && (self.primary_open || self.secondary_open)
    }

    /// Takes one event and says what to do. A chunk of an open channel is
    /// sent on at once, each of its lines wrapped in the channel's class.
    /// The end of the second channel to end finishes the response; a failed
    /// read aborts it, and nothing is sent after that.
    pub fn step(&mut self, event: Event) -> (action: Action)
        ensures
            *final(self) == old(self).next(event),
            match old(self).reaction(event) {
                Reaction::Emit(source, bytes) => action matches Action::Emit(chunk) && chunk.source
                    == source && chunk.bytes@ == bytes,
                Reaction::Wait => action is Wait,
                Reaction::Finish => action is Finish,
                Reaction::Abort => action is Abort,
            },
    {
        match event {
            Event::Chunk(chunk) => {
                if self.is_open(chunk.source) {
                    let bytes = transform_bytes(chunk.bytes.as_slice(), chunk.source.class());
                    Action::Emit(StreamChunk { source: chunk.source, bytes })
                } else {
                    Action::Wait
                }
            },
            Event::End(source) => {
                if self.is_open(source) {
                    match source {
                        Source::Primary => {
                            self.primary_open = false;
                        },
                        Source::Secondary => {
                            self.secondary_open = false;
                        },
                    }
                    if self.is_live() {
                        Action::Wait
                    } else {
                        Action::Finish
                    }
                } else {
                    Action::Wait
                }
            },
            Event::Failed(_) => {
                if self.is_live() {
                    self.failed = true;
                    Action::Abort
                } else {
                    Action::Wait
                }
            },
        }
    }
}

/// The state after all of `events`, from a fresh start.
pub open spec fn state_after(events: Seq<Event>) -> Merger
    decreases events.len(),
{
    if events.len() == 0 {
        Merger::fresh()
    } else {
        state_after(events.drop_last()).next(events.last())
    }
}

/// What is sent, in order, while `events` arrive.
pub open spec fn merged(events: Seq<Event>) -> Seq<(Source, Seq<u8>)>
    decreases events.len(),
{
    if events.len() == 0 {
        Seq::empty()
    } else {
        let before = merged(events.drop_last());
        match state_after(events.drop_last()).reaction(events.last()) {
            Reaction::Emit(source, bytes) => before.push((source, bytes)),
            _ => before,
        }
    }
}

/// The chunks of `sent` that belong to `source`, in order.
pub open spec fn from_source(sent: Seq<(Source, Seq<u8>)>, source: Source) -> Seq<Seq<u8>>
    decreases sent.len(),
{
    if sent.len() == 0 {
        Seq::empty()
    } else if sent.last().0 == source {
        from_source(sent.drop_last(), source).push(sent.last().1)
    } else {
        from_source(sent.drop_last(), source)
    }
}

/// What `source` delivered among `events`, each chunk wrapped for display,
/// in the order of delivery.
pub open spec fn delivered(events: Seq<Event>, source: Source) -> Seq<Seq<u8>>
    decreases events.len(),
{
    if events.len() == 0 {
        Seq::empty()
    } else {
        let before = delivered(events.drop_last(), source);
        match events.last() {
            Event::Chunk(chunk) => if chunk.source == source {
                before.push(wrapped(chunk.bytes@, source.spec_class()))
            } else {
                before
            },
            _ => before,
        }
    }
}

/// The event at `i` is the end of `source`.
pub open spec fn ends_at(events: Seq<Event>, source: Source, i: int) -> bool {
    events[i] matches Event::End(s) && s == source
}

/// The event at `i` is a chunk of `source`.
pub open spec fn chunk_at(events: Seq<Event>, source: Source, i: int) -> bool {
    events[i] matches Event::Chunk(chunk) && chunk.source == source
}

/// No read fails, and no channel delivers a chunk after its end.
pub open spec fn orderly(events: Seq<Event>) -> bool {
    &&& forall|i: int| 0 <= i < events.len() ==> !(#[trigger] events[i] is Failed)
    &&& forall|source: Source, i: int, j: int|
        0 <= i < j < events.len() && #[trigger] ends_at(events, source, i) ==> !#[trigger] chunk_at(
            events,
            source,
            j,
        )
}

proof fn orderly_without_last(events: Seq<Event>)
    requires
        orderly(events),
        events.len() > 0,
    ensures
        orderly(events.drop_last()),
{
    let before = events.drop_last();
    assert forall|i: int| 0 <= i < before.len() implies !(#[trigger] before[i] is Failed) by {
        assert(before[i] == events[i]);
    }
    assert forall|s: Source, i: int, j: int|
        0 <= i < j < before.len() && #[trigger] ends_at(before, s, i) implies !#[trigger] chunk_at(
            before,
            s,
            j,
        ) by {
        assert(ends_at(events, s, i));
        assert(!chunk_at(events, s, j));
    }
}

proof fn open_until_end(events: Seq<Event>, source: Source)
    requires
        orderly(events),
    ensures
        !state_after(events).failed,
        state_after(events).open(source) <==> forall|i: int|
            0 <= i < events.len() ==> !#[trigger] ends_at(events, source, i),
    decreases events.len(),
{
    if events.len() > 0 {
        let before = events.drop_last();
        let n = events.len() - 1;
        orderly_without_last(events);
        open_until_end(before, source);
        assert(!(events[n] is Failed));
        if state_after(events).open(source) {
            assert(state_after(before).open(source));
            assert(!ends_at(events, source, n));
            assert forall|i: int| 0 <= i < events.len() implies !#[trigger] ends_at(
                events,
                source,
                i,
            ) by {
                if i < n {
                    assert(!ends_at(before, source, i));
                }
            }
        } else {
            if state_after(before).open(source) {
                assert(ends_at(events, source, n));
            } else {
                let i = choose|i: int| 0 <= i < before.len() && ends_at(before, source, i);
                assert(ends_at(events, source, i));
            }
        }
    }
}

/// Each channel's output keeps its order: what is sent on behalf of a
/// channel is what that channel delivered, chunk by chunk and in the order
/// of delivery, however the other channel's events lie in between.
pub proof fn merged_preserves_source_order(events: Seq<Event>, source: Source)
    requires
        orderly(events),
    ensures
        from_source(merged(events), source) == delivered(events, source),
    decreases events.len(),
{
    if events.len() > 0 {
        let before = events.drop_last();
        let n = events.len() - 1;
        orderly_without_last(events);
        merged_preserves_source_order(before, source);
        match events.last() {
            Event::Chunk(chunk) => {
                open_until_end(before, chunk.source);
                assert(chunk_at(events, chunk.source, n));
                assert forall|i: int| 0 <= i < before.len() implies !#[trigger] ends_at(
                    before,
                    chunk.source,
                    i,
                ) by {
                    if ends_at(before, chunk.source, i) {
                        assert(ends_at(events, chunk.source, i));
                    }
                }
                assert(state_after(before).open(chunk.source));
                let sent = merged(events);
                assert(sent.drop_last() =~= merged(before));
            },
            _ => {},
        }
    }
}

/// Whatever arrives and in whatever order, what is sent on behalf of a
/// channel is the beginning of what that channel delivered, in the order of
/// delivery; while the channel is open it is all of it.
pub proof fn sent_is_prefix_of_delivered(events: Seq<Event>, source: Source)
    ensures
        from_source(merged(events), source).is_prefix_of(delivered(events, source)),
        state_after(events).open(source) ==> from_source(merged(events), source) == delivered(
            events,
            source,
        ),
    decreases events.len(),
{
    if events.len() > 0 {
        let before = events.drop_last();
        sent_is_prefix_of_delivered(before, source);
        let state = state_after(before);
        assert(state_after(events).open(source) ==> state.open(source));
        match events.last() {
            Event::Chunk(chunk) => {
                if state.open(chunk.source) {
                    assert(merged(events).drop_last() =~= merged(before));
                }
            },
            _ => {},
        }
    }
}

/// The response is finished only by the end of the last open channel:
/// before it one channel was still open and nothing had failed, after it
/// both have ended.
pub proof fn finish_means_both_ended(state: Merger, event: Event)
    requires
        state.reaction(event) is Finish,
    ensures
        event is End,
        state.live(),
        !state.next(event).failed,
        !state.next(event).primary_open,
        !state.next(event).secondary_open,
{
}

/// A failed read ends everything: it aborts the response if anything could
/// still be sent, and whatever arrives afterwards is passed over.
pub proof fn nothing_after_failure(state: Merger, source: Source, later: Event)
    requires
        state.live(),
    ensures
        state.reaction(Event::Failed(source)) is Abort,
        state.next(Event::Failed(source)).reaction(later) is Wait,
        state.next(Event::Failed(source)).next(later) == state.next(Event::Failed(source)),
{
}

/// Once both channels have ended or a read has failed, nothing more is
/// sent and the state stays as it is.
pub proof fn nothing_when_not_live(state: Merger, event: Event)
    requires
        !state.live(),
    ensures
        state.reaction(event) is Wait,
        state.next(event) == state,
{
}

} // verus!
