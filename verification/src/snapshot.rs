//! The values of the shared state as one observer sees them, and the rules by
//! which the refresher's events change them.
//!
//! Every field of the shared state has a total order of writes. This module
//! describes a field's value along that order: which writes an event asks
//! for, what each field holds after a history of events, and what a read at
//! any point of an interleaving of reads and writes returns.

use vstd::prelude::*;

verus! {

/// What the refresher reports.
#[derive(Debug)]
pub enum Event {
    /// The refresh loop has started running.
    Started,
    /// A cycle produced a new graph and, where the pipeline has one, new
    /// secondary metadata.
    Published { graph: String, secondary_metadata: Option<String> },
    /// A cycle failed.
    Failed,
}

/// An [`Event`] over mathematical strings.
pub ghost enum EventModel {
    Started,
    Published { graph: Seq<char>, secondary_metadata: Option<Seq<char>> },
    Failed,
}

impl View for Event {
    type V = EventModel;

    open spec fn view(&self) -> EventModel {
        match *self {
            Event::Started => EventModel::Started,
            Event::Published { graph, secondary_metadata } => EventModel::Published {
                graph: graph@,
                secondary_metadata: match secondary_metadata {
                    Some(s) => Some(s@),
                    None => None,
                },
            },
            Event::Failed => EventModel::Failed,
        }
    }
}

/// The four fields of the shared state, as mathematical values.
pub ghost struct Observed {
    pub graph: Seq<char>,
    pub secondary_metadata: Seq<char>,
    pub live: bool,
    pub ready: bool,
}

impl Observed {
    /// The state at process start: both documents empty, both flags down.
    pub open spec fn initial() -> Observed {
        Observed { graph: Seq::empty(), secondary_metadata: Seq::empty(), live: false, ready: false }
    }

    /// The state after one event. A start raises `live`; a published cycle
    /// replaces the graph, replaces the secondary metadata if it brought any,
    /// and raises `ready`; a failed cycle changes nothing.
    pub open spec fn step(self, event: EventModel) -> Observed {
        match event {
            EventModel::Started => Observed { live: true, ..self },
            EventModel::Published { graph, secondary_metadata } => Observed {
                graph,
                secondary_metadata: match secondary_metadata {
                    Some(s) => s,
                    None => self.secondary_metadata,
                },
                ready: true,
                ..self
            },
            EventModel::Failed => self,
        }
    }

    /// The state after a history of events, oldest first.
    pub open spec fn after(self, events: Seq<EventModel>) -> Observed
        decreases events.len(),
    {
        if events.len() == 0 {
            self
        } else {
            self.after(events.drop_last()).step(events.last())
        }
    }
}

/// The writes that one event asks for, field by field. `None` leaves the field
/// as it is.
#[derive(Debug)]
pub struct Writes {
    pub graph: Option<String>,
    pub secondary_metadata: Option<String>,
    pub live: Option<bool>,
    pub ready: Option<bool>,
}

/// [`Writes`] over mathematical strings.
pub ghost struct WritesModel {
    pub graph: Option<Seq<char>>,
    pub secondary_metadata: Option<Seq<char>>,
    pub live: Option<bool>,
    pub ready: Option<bool>,
}

impl View for Writes {
    type V = WritesModel;

    open spec fn view(&self) -> WritesModel {
        WritesModel {
            graph: match self.graph {
                Some(s) => Some(s@),
                None => None,
            },
            secondary_metadata: match self.secondary_metadata {
                Some(s) => Some(s@),
                None => None,
            },
            live: self.live,
            ready: self.ready,
        }
    }
}

impl WritesModel {
    /// The writes that `event` asks for.
    pub open spec fn of(event: EventModel) -> WritesModel {
        match event {
            EventModel::Started => WritesModel {
                graph: None,
                secondary_metadata: None,
                live: Some(true),
                ready: None,
            },
            EventModel::Published { graph, secondary_metadata } => WritesModel {
                graph: Some(graph),
                secondary_metadata,
                live: None,
                ready: Some(true),
            },
            EventModel::Failed => WritesModel {
                graph: None,
                secondary_metadata: None,
                live: None,
                ready: None,
            },
        }
    }

    /// The state after these writes were made to `state`.
    pub open spec fn apply_to(self, state: Observed) -> Observed {
        Observed {
            graph: match self.graph {
                Some(g) => g,
                None => state.graph,
            },
            secondary_metadata: match self.secondary_metadata {
                Some(s) => s,
                None => state.secondary_metadata,
            },
            live: match self.live {
                Some(b) => b,
                None => state.live,
            },
            ready: match self.ready {
                Some(b) => b,
                None => state.ready,
            },
        }
    }
}

/// The event that the end of one refresh cycle is: what the pipeline produced
/// is published as it came; an error of any kind is a failed cycle.
pub fn cycle_event<E>(outcome: Result<(String, Option<String>), E>) -> (event: Event)
    ensures
        match outcome {
            Ok((graph, secondary_metadata)) => event == (Event::Published {
                graph,
                secondary_metadata,
            }),
            Err(_) => event == Event::Failed,
        },
{
    match outcome {
        Ok((graph, secondary_metadata)) => Event::Published { graph, secondary_metadata },
        Err(_) => Event::Failed,
    }
}

/// Decides which fields an event writes, and with what.
pub fn writes_for(event: Event) -> (w: Writes)
    ensures
        w@ == WritesModel::of(event@),
{
    match event {
        Event::Started => Writes {
            graph: None,
            secondary_metadata: None,
            live: Some(true),
            ready: None,
        },
        Event::Published { graph, secondary_metadata } => Writes {
            graph: Some(graph),
            secondary_metadata,
            live: None,
            ready: Some(true),
        },
        Event::Failed => Writes { graph: None, secondary_metadata: None, live: None, ready: None },
    }
}

/// The four fields held by a single owner.
#[derive(Debug)]
pub struct Snapshot {
    pub graph: String,
    pub secondary_metadata: String,
    pub live: bool,
    pub ready: bool,
}

impl View for Snapshot {
    type V = Observed;

    open spec fn view(&self) -> Observed {
        Observed {
            graph: self.graph@,
            secondary_metadata: self.secondary_metadata@,
            live: self.live,
            ready: self.ready,
        }
    }
}

impl Snapshot {
    /// The state at process start.
    pub fn new() -> (s: Snapshot)
        ensures
            s@ == Observed::initial(),
    {
        Snapshot {
            graph: String::new(),
            secondary_metadata: String::new(),
            live: false,
            ready: false,
        }
    }

    /// Replaces the graph; the other fields stay.
    pub fn publish_graph(&mut self, doc: String)
        ensures
            final(self)@ == (Observed { graph: doc@, ..old(self)@ }),
    {
        self.graph = doc;
    }

    /// The graph as it stands.
    pub fn read_graph(&self) -> (doc: String)
        ensures
            doc@ == self@.graph,
    {
        self.graph.clone()
    }

    /// Replaces the secondary metadata; the other fields stay.
    pub fn publish_secondary_metadata(&mut self, doc: String)
        ensures
            final(self)@ == (Observed { secondary_metadata: doc@, ..old(self)@ }),
    {
        self.secondary_metadata = doc;
    }

    /// The secondary metadata as it stands.
    pub fn read_secondary_metadata(&self) -> (doc: String)
        ensures
            doc@ == self@.secondary_metadata,
    {
        self.secondary_metadata.clone()
    }

    /// Makes the given writes.
    pub fn write(&mut self, writes: Writes)
        ensures
            final(self)@ == writes@.apply_to(old(self)@),
    {
        if let Some(g) = writes.graph {
            self.graph = g;
        }
        if let Some(s) = writes.secondary_metadata {
            self.secondary_metadata = s;
        }
        if let Some(b) = writes.live {
            self.live = b;
        }
        if let Some(b) = writes.ready {
            self.ready = b;
        }
    }

    /// Records one event of the refresher.
    pub fn apply(&mut self, event: Event)
        ensures
            final(self)@ == old(self)@.step(event@),
    {
        let writes = writes_for(event);
        self.write(writes);
    }
}

/// Making the writes that an event asks for is taking the step of that event.
pub proof fn law_writes_make_the_step(state: Observed, event: EventModel)
    ensures
        WritesModel::of(event).apply_to(state) == state.step(event),
{
}

/// Whether `events` holds a start of the refresh loop.
pub open spec fn has_started(events: Seq<EventModel>) -> bool {
    exists|i: int| 0 <= i < events.len() && #[trigger] events[i] is Started
}

/// Whether `events` holds a cycle that published.
pub open spec fn has_published(events: Seq<EventModel>) -> bool {
    exists|i: int| 0 <= i < events.len() && #[trigger] events[i] is Published
}

/// After any history from the initial state, `live` is up exactly when the
/// loop has started, whatever `ready` is; and `ready` is up exactly when some
/// cycle has published, however many cycles failed since.
pub proof fn law_flags_follow_history(events: Seq<EventModel>)
    ensures
        Observed::initial().after(events).live == has_started(events),
        Observed::initial().after(events).ready == has_published(events),
    decreases events.len(),
{
    if events.len() > 0 {
        let before = events.drop_last();
        law_flags_follow_history(before);
        if has_started(before) {
            let i = choose|i: int| 0 <= i < before.len() && #[trigger] before[i] is Started;
            assert(events[i] is Started);
        }
        if has_published(before) {
            let i = choose|i: int| 0 <= i < before.len() && #[trigger] before[i] is Published;
            assert(events[i] is Published);
        }
        if has_started(events) {
            let i = choose|i: int| 0 <= i < events.len() && #[trigger] events[i] is Started;
            if i < before.len() {
                assert(before[i] is Started);
            }
        }
        if has_published(events) {
            let i = choose|i: int| 0 <= i < events.len() && #[trigger] events[i] is Published;
            if i < before.len() {
                assert(before[i] is Published);
            }
        }
        if events.last() is Started {
            assert(events[events.len() - 1] is Started);
        }
        if events.last() is Published {
            assert(events[events.len() - 1] is Published);
        }
    }
}

/// A flag that the refresher has raised stays up: whatever events follow,
/// failed cycles included, `live` and `ready` do not fall.
pub proof fn law_flags_stay_up(state: Observed, events: Seq<EventModel>)
    ensures
        state.live ==> state.after(events).live,
        state.ready ==> state.after(events).ready,
    decreases events.len(),
{
    if events.len() > 0 {
        law_flags_stay_up(state, events.drop_last());
    }
}

/// A failed cycle leaves every field as it was: what was published stays
/// served.
pub proof fn law_failure_keeps_documents(state: Observed)
    ensures
        state.step(EventModel::Failed) == state,
{
}

/// After any history from the initial state, the graph is the empty initial
/// value or the graph of some published cycle in it, whole.
pub proof fn law_graph_was_published(events: Seq<EventModel>)
    ensures
        Observed::initial().after(events).graph == Seq::<char>::empty() || exists|i: int|
            0 <= i < events.len() && (#[trigger] events[i]) is Published
                && events[i]->graph == Observed::initial().after(events).graph,
    decreases events.len(),
{
    if events.len() > 0 {
        let before = events.drop_last();
        law_graph_was_published(before);
        let g = Observed::initial().after(events).graph;
        if events.last() is Published {
            assert(events[events.len() - 1] is Published && events[events.len() - 1]->graph == g);
        } else if g != Seq::<char>::empty() {
            let i = choose|i: int|
                0 <= i < before.len() && (#[trigger] before[i]) is Published && before[i]->graph
                    == g;
            assert(events[i] is Published && events[i]->graph == g);
        }
    }
}

/// One access to a single document field, in the field's order of accesses.
pub ghost enum Access {
    /// A completed publish of the given document.
    Publish(Seq<char>),
    /// A read.
    Read,
}

/// What the field holds just before access number `at`, and so what a read
/// at that place returns: the document of the latest publish before it, or
/// the initial value where there is none.
pub open spec fn held_before(initial: Seq<char>, accesses: Seq<Access>, at: int) -> Seq<char>
    decreases at,
{
    if at <= 0 || at > accesses.len() {
        initial
    } else {
        match accesses[at - 1] {
            Access::Publish(doc) => doc,
            Access::Read => held_before(initial, accesses, at - 1),
        }
    }
}

/// In any interleaving of publishes and reads of one field, a read returns
/// the initial value or the whole argument of a publish that came before it.
pub proof fn law_read_returns_a_published_document(
    initial: Seq<char>,
    accesses: Seq<Access>,
    at: int,
)
    requires
        0 <= at <= accesses.len(),
    ensures
        held_before(initial, accesses, at) == initial || exists|j: int|
            0 <= j < at && #[trigger] accesses[j] == Access::Publish(
                held_before(initial, accesses, at),
            ),
    decreases at,
{
    if at > 0 {
        match accesses[at - 1] {
            Access::Publish(doc) => {
                assert(accesses[at - 1] == Access::Publish(held_before(initial, accesses, at)));
            },
            Access::Read => {
                law_read_returns_a_published_document(initial, accesses, at - 1);
                let v = held_before(initial, accesses, at);
                if v != initial {
                    let j = choose|j: int|
                        0 <= j < at - 1 && #[trigger] accesses[j] == Access::Publish(v);
                    assert(accesses[j] == Access::Publish(v));
                }
            },
        }
    }
}

/// Around a single publish, every read sees the value from before it or the
/// published one: the old value up to the publish, the new one after it.
pub proof fn law_readers_see_old_or_new(
    initial: Seq<char>,
    accesses: Seq<Access>,
    publish_at: int,
    doc: Seq<char>,
    at: int,
)
    requires
        0 <= publish_at < accesses.len(),
        accesses[publish_at] == Access::Publish(doc),
        forall|j: int| 0 <= j < accesses.len() && j != publish_at ==> accesses[j] == Access::Read,
        0 <= at <= accesses.len(),
    ensures
        held_before(initial, accesses, at) == if at <= publish_at {
            initial
        } else {
            doc
        },
    decreases at,
{
    if at > 0 {
        law_readers_see_old_or_new(initial, accesses, publish_at, doc, at - 1);
    }
}

} // verus!
