//! The event-record data model shared by the wide-event variants: a
//! severity tag plus an open list of caller-supplied string fields.

use vstd::prelude::*;

verus! {

/// Severity tag of a single event record, fixed at creation.
#[derive(Clone, Copy, PartialEq, Eq, Structural, Debug)]
pub enum EventType {
    Info,
    Warning,
    Error,
}

impl EventType {
    /// True exactly for the `Error` severity.
    pub fn is_error(&self) -> (r: bool)
        ensures
            r == (*self is Error),
    {
        match self {
            EventType::Error => true,
            _ => false,
        }
    }
}

/// One structured note appended to a wide event during handling: a
/// severity plus caller-supplied string fields, immutable once appended.
pub struct Event {
    pub event_type: EventType,
    pub keys: Vec<(String, String)>,
}

/// Mathematical view of an `Event`.
pub ghost struct EventView {
    pub event_type: EventType,
    pub keys: Seq<(Seq<char>, Seq<char>)>,
}

/// The view of a list of string pairs.
pub open spec fn pairs_view(s: Seq<(String, String)>) -> Seq<(Seq<char>, Seq<char>)> {
    s.map_values(|p: (String, String)| (p.0@, p.1@))
}

/// The view of a list of events.
pub open spec fn events_view(s: Seq<Event>) -> Seq<EventView> {
    s.map_values(|e: Event| e@)
}

impl View for Event {
    type V = EventView;

    open spec fn view(&self) -> EventView {
        EventView { event_type: self.event_type, keys: pairs_view(self.keys@) }
    }
}

/// True when at least one record in the sequence has `Error` severity.
pub open spec fn has_error_record(events: Seq<EventView>) -> bool {
    exists|i: int| 0 <= i < events.len() && events[i].event_type is Error
}

/// Recompute the derived error flag from an event sequence.
pub fn compute_contains_error(events: &Vec<Event>) -> (r: bool)
    ensures
        r == has_error_record(events_view(events@)),
{
    let n = events.len();
    let mut found = false;
    let mut i: usize = 0;
    while i < n
        invariant
            i <= n,
            n == events@.len(),
            found == has_error_record(events_view(events@).subrange(0, i as int)),
        decreases n - i,
    {
        if events[i].event_type.is_error() {
            found = true;
        }
        i = i + 1;
        proof {
            let ev = events_view(events@);
            assert(ev.subrange(0, i as int).drop_last() =~= ev.subrange(0, i - 1));
            assert(ev.subrange(0, i as int).last() == ev[i - 1]);
            lemma_error_flag_push(ev.subrange(0, i - 1), ev[i - 1]);
            assert(ev.subrange(0, i - 1).push(ev[i - 1]) =~= ev.subrange(0, i as int));
        }
    }
    proof {
        assert(events_view(events@).subrange(0, n as int) =~= events_view(events@));
    }
    found
}

/// The effect of one `record` call on the mutable portion of a wide
/// event: the record is appended and the derived error flag absorbs its
/// severity.
pub open spec fn record_step(
    events: Seq<EventView>,
    contains_error: bool,
    e: EventView,
) -> (Seq<EventView>, bool) {
    (events.push(e), contains_error || e.event_type is Error)
}

/// A batch of `record` calls applied in order: the mutual-exclusion lock
/// guarding a wide event serialises concurrent callers into some such
/// order.
pub open spec fn record_all(
    events: Seq<EventView>,
    contains_error: bool,
    rs: Seq<EventView>,
) -> (Seq<EventView>, bool)
    decreases rs.len(),
{
    if rs.len() == 0 {
        (events, contains_error)
    } else {
        let prior = record_all(events, contains_error, rs.drop_last());
        record_step(prior.0, prior.1, rs.last())
    }
}

/// However concurrent `record` calls interleave, the lock admits them in
/// some order `rs`, and afterwards the wide event holds exactly the old
/// records followed by `rs`: none lost, none duplicated.
pub proof fn lemma_record_batch(events: Seq<EventView>, contains_error: bool, rs: Seq<EventView>)
    ensures
        record_all(events, contains_error, rs).0 == events + rs,
        record_all(events, contains_error, rs).0.len() == events.len() + rs.len(),
    decreases rs.len(),
{
    if rs.len() == 0 {
        assert(record_all(events, contains_error, rs).0 =~= events + rs);
    } else {
        lemma_record_batch(events, contains_error, rs.drop_last());
        assert(record_all(events, contains_error, rs).0 =~= events + rs);
    }
}

/// The derived error flag stays in step with the event sequence across
/// any batch of records, and is monotonic: once true it never clears.
pub proof fn lemma_error_flag_batch(events: Seq<EventView>, contains_error: bool, rs: Seq<EventView>)
    requires
        contains_error == has_error_record(events),
    ensures
        record_all(events, contains_error, rs).1 == has_error_record(events + rs),
        contains_error ==> record_all(events, contains_error, rs).1,
    decreases rs.len(),
{
    if rs.len() == 0 {
        assert(events + rs =~= events);
    } else {
        lemma_error_flag_batch(events, contains_error, rs.drop_last());
        let prior = record_all(events, contains_error, rs.drop_last());
        lemma_error_flag_push(events + rs.drop_last(), rs.last());
        assert((events + rs.drop_last()).push(rs.last()) =~= events + rs);
    }
}

/// Appending one record sets the error condition exactly when it was
/// already set or the new record is an error.
pub proof fn lemma_error_flag_push(events: Seq<EventView>, e: EventView)
    ensures
        has_error_record(events.push(e)) == (has_error_record(events) || e.event_type is Error),
{
    let pushed = events.push(e);
    if has_error_record(events) {
        let i = choose|i: int| 0 <= i < events.len() && events[i].event_type is Error;
        assert(pushed[i].event_type is Error);
    }
    if e.event_type is Error {
        assert(pushed[events.len() as int].event_type is Error);
    }
    if has_error_record(pushed) && !(e.event_type is Error) {
        let i = choose|i: int| 0 <= i < pushed.len() && pushed[i].event_type is Error;
        assert(events[i].event_type is Error);
    }
}

} // verus!
