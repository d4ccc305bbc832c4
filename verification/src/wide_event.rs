//! The wide-event variant whose static labels are an open key-value
//! list, supplied once at middleware construction and serialized as
//! leading members of the record.

use vstd::prelude::*;
use crate::event::events_view;
use crate::event::has_error_record;
use crate::event::pairs_view;
use crate::event::Event;
use crate::event::EventType;
use crate::event::EventView;
use crate::json::chars_to_string;
use crate::json::opt_view;
use crate::json::push_dec;
use crate::json::push_events_member;
use crate::json::push_leading_members;
use crate::json::push_opt_member;
use crate::json::push_quoted;
use crate::json::push_str_chars;
use crate::json::spec_dec;
use crate::json::spec_events_member;
use crate::json::spec_leading_members;
use crate::json::spec_opt_member;
use crate::json::spec_quote;
use crate::lemma_error_flag_push;
use crate::sampling::random_draw;
use crate::sampling::should_emit;
use crate::sampling::spec_always_emit;
use crate::sampling::spec_should_emit;
use crate::sampling::DRAW_BOUND;

verus! {

/// Mathematical view of a wide event with an open label list.
pub ghost struct WideEventView {
    pub labels: Seq<(Seq<char>, Seq<char>)>,
    pub request_id: Option<Seq<char>>,
    pub timestamp: Seq<char>,
    pub method: Seq<char>,
    pub path: Seq<char>,
    pub events: Seq<EventView>,
    pub status_code: u16,
    pub duration_ms: u64,
    pub contains_error: bool,
    pub force_log: bool,
    pub finalized: bool,
}

impl WideEventView {
    /// The derived error flag agrees with the event sequence.
    pub open spec fn wf(self) -> bool {
        self.contains_error == has_error_record(self.events)
    }
}

/// The effect of one `record` call on a wide event.
pub open spec fn spec_record(v: WideEventView, e: EventView) -> WideEventView {
    WideEventView {
        events: v.events.push(e),
        contains_error: v.contains_error || e.event_type is Error,
        ..v
    }
}

/// The serialized one-line form: the labels lead, the request id appears
/// only when set, the events array only when non-empty.
pub open spec fn wide_event_json(v: WideEventView) -> Seq<char> {
    seq!['{'] + spec_leading_members(v.labels) + spec_opt_member("\"request_id\":"@, v.request_id)
        + "\"timestamp\":"@ + spec_quote(v.timestamp) + ",\"method\":"@ + spec_quote(v.method)
        + ",\"path\":"@ + spec_quote(v.path) + spec_events_member(v.events) + ",\"status_code\":"@
        + spec_dec(v.status_code as nat) + ",\"duration_ms\":"@ + spec_dec(v.duration_ms as nat)
        + seq!['}']
}

/// The per-request aggregate record of this variant.
pub struct WideEvent {
    labels: Vec<(String, String)>,
    request_id: Option<String>,
    timestamp: String,
    method: String,
    path: String,
    events: Vec<Event>,
    status_code: u16,
    duration_ms: u64,
    contains_error: bool,
    force_log: bool,
    finalized: bool,
}

impl View for WideEvent {
    type V = WideEventView;

    closed spec fn view(&self) -> WideEventView {
        WideEventView {
            labels: pairs_view(self.labels@),
            request_id: opt_view(self.request_id),
            timestamp: self.timestamp@,
            method: self.method@,
            path: self.path@,
            events: events_view(self.events@),
            status_code: self.status_code,
            duration_ms: self.duration_ms,
            contains_error: self.contains_error,
            force_log: self.force_log,
            finalized: self.finalized,
        }
    }
}

impl WideEvent {
    /// Construct a fresh, unfinalized wide event carrying the given
    /// identity fields and label list.
    pub fn new(
        request_id: Option<String>,
        method: String,
        path: String,
        keys: Vec<(String, String)>,
        timestamp: String,
    ) -> (r: WideEvent)
        ensures
            r@.labels == pairs_view(keys@),
            r@.request_id == opt_view(request_id),
            r@.timestamp == timestamp@,
            r@.method == method@,
            r@.path == path@,
            r@.events == Seq::<EventView>::empty(),
            r@.status_code == 0,
            r@.duration_ms == 0,
            !r@.contains_error,
            !r@.force_log,
            !r@.finalized,
            r@.wf(),
    {
        let r = WideEvent {
            labels: keys,
            request_id,
            timestamp,
            method,
            path,
            events: Vec::new(),
            status_code: 0,
            duration_ms: 0,
            contains_error: false,
            force_log: false,
            finalized: false,
        };
        proof {
            assert(events_view(r.events@) =~= Seq::<EventView>::empty());
        }
        r
    }

    /// Append an `Info` record with the given fields.
    pub fn info(&mut self, keys: Vec<(String, String)>)
        ensures
            (final(self)@ == spec_record(
                old(self)@,
                EventView { event_type: EventType::Info, keys: pairs_view(keys@) },
            )),
            old(self)@.wf() ==> final(self)@.wf(),
    {
        self.push_record(EventType::Info, keys);
    }

    /// Append a `Warning` record with the given fields.
    pub fn warning(&mut self, keys: Vec<(String, String)>)
        ensures
            (final(self)@ == spec_record(
                old(self)@,
                EventView { event_type: EventType::Warning, keys: pairs_view(keys@) },
            )),
            old(self)@.wf() ==> final(self)@.wf(),
    {
        self.push_record(EventType::Warning, keys);
    }

    /// Append an `Error` record with the given fields; the derived error
    /// flag becomes true and never clears.
    pub fn error(&mut self, keys: Vec<(String, String)>)
        ensures
            (final(self)@ == spec_record(
                old(self)@,
                EventView { event_type: EventType::Error, keys: pairs_view(keys@) },
            )),
            final(self)@.contains_error,
            old(self)@.wf() ==> final(self)@.wf(),
    {
        self.push_record(EventType::Error, keys);
    }

    fn push_record(&mut self, event_type: EventType, keys: Vec<(String, String)>)
        ensures
            (final(self)@ == spec_record(
                old(self)@,
                EventView { event_type: event_type, keys: pairs_view(keys@) },
            )),
            old(self)@.wf() ==> final(self)@.wf(),
    {
        let ghost rec = EventView { event_type: event_type, keys: pairs_view(keys@) };
        if event_type.is_error() {
            self.contains_error = true;
        }
        self.events.push(Event { event_type, keys });
        proof {
            assert(events_view(self.events@) =~= old(self)@.events.push(rec));
            lemma_error_flag_push(old(self)@.events, rec);
        }
    }

    /// Whether the outcome fields have already been set: once true, no
    /// further `finalize` is admitted.
    pub fn is_finalized(&self) -> (r: bool)
        ensures
            r == self@.finalized,
    {
        self.finalized
    }

    /// Number of event records appended so far.
    pub fn event_count(&self) -> (r: usize)
        ensures
            r == self@.events.len(),
    {
        self.events.len()
    }

    /// Set the force-log flag: idempotent and irreversible.
    pub fn force_log(&mut self)
        ensures
            (final(self)@ == WideEventView { force_log: true, ..old(self)@ }),
    {
        self.force_log = true;
    }

    /// Serialize the wide event to its structured one-line form.
    pub fn to_json(&self) -> (r: String)
        ensures
            r@ == wide_event_json(self@),
    {
        let mut out: Vec<char> = Vec::new();
        out.push('{');
        push_leading_members(&mut out, &self.labels);
        push_opt_member(&mut out, "\"request_id\":", &self.request_id);
        push_str_chars(&mut out, "\"timestamp\":");
        push_quoted(&mut out, self.timestamp.as_str());
        push_str_chars(&mut out, ",\"method\":");
        push_quoted(&mut out, self.method.as_str());
        push_str_chars(&mut out, ",\"path\":");
        push_quoted(&mut out, self.path.as_str());
        push_events_member(&mut out, &self.events);
        push_str_chars(&mut out, ",\"status_code\":");
        push_dec(&mut out, self.status_code as u64);
        push_str_chars(&mut out, ",\"duration_ms\":");
        push_dec(&mut out, self.duration_ms);
        out.push('}');
        proof {
            assert(out@ =~= wide_event_json(self@));
        }
        chars_to_string(&out)
    }

    /// Evaluate the sampling policy against this wide event with one
    /// fresh random draw.
    pub(crate) fn should_sample(&self, sampling_enabled: bool) -> (r: bool)
        ensures
            exists|d: u64|
                d < DRAW_BOUND && r == spec_should_emit(
                    sampling_enabled,
                    self@.force_log,
                    self@.status_code,
                    self@.contains_error,
                    self@.duration_ms,
                    d,
                ),
            spec_always_emit(
                sampling_enabled,
                self@.force_log,
                self@.status_code,
                self@.contains_error,
                self@.duration_ms,
            ) ==> r,
    {
        let draw = random_draw(DRAW_BOUND);
        let r = should_emit(
            sampling_enabled,
            self.force_log,
            self.status_code,
            self.contains_error,
            self.duration_ms,
            draw,
        );
        proof {
            assert(draw < DRAW_BOUND && r == spec_should_emit(
                sampling_enabled,
                self@.force_log,
                self@.status_code,
                self@.contains_error,
                self@.duration_ms,
                draw,
            ));
        }
        r
    }

    pub(crate) fn set_outcome(&mut self, status_code: u16, duration_ms: u64, contains_error: bool)
        ensures
            (final(self)@ == WideEventView {
                status_code: status_code,
                duration_ms: duration_ms,
                contains_error: contains_error,
                finalized: true,
                ..old(self)@
            }),
    {
        self.status_code = status_code;
        self.duration_ms = duration_ms;
        self.contains_error = contains_error;
        self.finalized = true;
    }

    pub(crate) fn events_ref(&self) -> (r: &Vec<Event>)
        ensures
            events_view(r@) == self@.events,
    {
        &self.events
    }
}

} // verus!
