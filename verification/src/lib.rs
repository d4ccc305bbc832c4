//! Wide-event request telemetry: one structured log record per request,
//! built incrementally while the request is handled, finalized exactly
//! once at completion and emitted subject to a sampling policy.
//!
//! The crate root holds the variant whose static labels are four fixed,
//! individually optional fields; [`wide_event`] and [`wide_event_layer`]
//! hold the variant that externalizes the labels into an open key-value
//! list and leaves the emission sink to the caller.

mod assets;
mod clock;
mod event;
mod json;
mod sampling;
mod web;
pub mod wide_event;
pub mod wide_event_layer;

pub use assets::file_keys;
pub use assets::files_view;
pub use assets::get_file_data;
pub use assets::get_file_list;
pub use assets::get_index_data;
pub use assets::lemma_lookup_none;
pub use assets::lex_leq;
pub use assets::lookup_resource;
pub use assets::str_eq;
pub use assets::strings_view;
pub use assets::AssetStore;
pub use assets::AssetStoreView;
pub use assets::Resource;
pub use assets::ResourceView;
pub use web::resolve_resource;
pub use web::spec_resolve;
pub use web::spec_str_contains;
pub use web::str_contains;
pub use web::wants_gzip;
pub use event::compute_contains_error;
pub use event::has_error_record;
pub use event::lemma_error_flag_batch;
pub use event::lemma_error_flag_push;
pub use event::lemma_record_batch;
pub use event::record_all;
pub use event::record_step;
pub use event::Event;
pub use event::EventType;
pub use event::EventView;
pub use json::opt_view;
pub use json::spec_dec;
pub use json::spec_escape;
pub use json::spec_event_json;
pub use json::spec_event_list;
pub use json::spec_events_member;
pub use json::spec_leading_members;
pub use json::spec_members;
pub use json::spec_opt_member;
pub use json::spec_quote;
pub use sampling::lemma_sampling_guarantees;
pub use sampling::should_emit;
pub use sampling::spec_always_emit;
pub use sampling::spec_should_emit;
pub use sampling::DRAW_BOUND;
pub use sampling::SAMPLE_THRESHOLD;

use vstd::prelude::*;
use crate::clock::now_rfc3339;
use crate::event::events_view;
use crate::event::pairs_view;
use crate::json::chars_to_string;
use crate::json::push_dec;
use crate::json::push_events_member;
use crate::json::push_opt_member;
use crate::json::push_quoted;
use crate::json::push_str_chars;
use crate::sampling::random_draw;

verus! {

/// Mathematical view of a wide event with four fixed static labels.
pub ghost struct WideEventView {
    pub service: Option<Seq<char>>,
    pub version: Option<Seq<char>>,
    pub deployment_id: Option<Seq<char>>,
    pub region: Option<Seq<char>>,
    pub request_id: Option<Seq<char>>,
    pub timestamp: Seq<char>,
    pub method: Seq<char>,
    pub path: Seq<char>,
    pub events: Seq<EventView>,
    pub status_code: u16,
    pub duration_ms: u64,
    pub contains_error: bool,
    pub force_log: bool,
    pub finalized: bool,
}

impl WideEventView {
    /// The derived error flag agrees with the event sequence.
    pub open spec fn wf(self) -> bool {
        self.contains_error == has_error_record(self.events)
    }
}

/// The effect of one `record` call on a wide event: the record is
/// appended and the derived error flag absorbs its severity, so the flag
/// is monotonic and never independently settable.
pub open spec fn spec_record(v: WideEventView, e: EventView) -> WideEventView {
    WideEventView {
        events: v.events.push(e),
        contains_error: v.contains_error || e.event_type is Error,
        ..v
    }
}

/// The derived error flag of a well-formed wide event is true exactly
/// when the event sequence holds at least one `Error`-severity record;
/// by `lemma_error_flag_push`, a later non-error record never clears it.
pub proof fn lemma_contains_error_iff(v: WideEventView)
    requires
        v.wf(),
    ensures
        v.contains_error <==> has_error_record(v.events),
{
}

/// Recording preserves well-formedness of the derived error flag.
pub proof fn lemma_record_preserves_wf(v: WideEventView, e: EventView)
    requires
        v.wf(),
    ensures
        spec_record(v, e).wf(),
{
    lemma_error_flag_push(v.events, e);
}

/// The serialized one-line form of a finalized wide event: static labels
/// and request id only when set, the events array only when non-empty.
pub open spec fn wide_event_json(v: WideEventView) -> Seq<char> {
    seq!['{'] + spec_opt_member("\"service\":"@, v.service) + spec_opt_member(
        "\"version\":"@,
        v.version,
    ) + spec_opt_member("\"deployment_id\":"@, v.deployment_id) + spec_opt_member(
        "\"region\":"@,
        v.region,
    ) + spec_opt_member("\"request_id\":"@, v.request_id) + "\"timestamp\":"@ + spec_quote(
        v.timestamp,
    ) + ",\"method\":"@ + spec_quote(v.method) + ",\"path\":"@ + spec_quote(v.path)
        + spec_events_member(v.events) + ",\"status_code\":"@ + spec_dec(v.status_code as nat)
        + ",\"duration_ms\":"@ + spec_dec(v.duration_ms as nat) + seq!['}']
}

/// The per-request aggregate record: identity fields set at creation,
/// event records and flags appended during handling, outcome fields set
/// exactly once at completion.
pub struct WideEvent {
    service: Option<String>,
    version: Option<String>,
    deployment_id: Option<String>,
    region: Option<String>,
    request_id: Option<String>,
    timestamp: String,
    method: String,
    path: String,
    events: Vec<Event>,
    status_code: u16,
    duration_ms: u64,
    contains_error: bool,
    force_log: bool,
    finalized: bool,
}

impl View for WideEvent {
    type V = WideEventView;

    closed spec fn view(&self) -> WideEventView {
        WideEventView {
            service: opt_view(self.service),
            version: opt_view(self.version),
            deployment_id: opt_view(self.deployment_id),
            region: opt_view(self.region),
            request_id: opt_view(self.request_id),
            timestamp: self.timestamp@,
            method: self.method@,
            path: self.path@,
            events: events_view(self.events@),
            status_code: self.status_code,
            duration_ms: self.duration_ms,
            contains_error: self.contains_error,
            force_log: self.force_log,
            finalized: self.finalized,
        }
    }
}

impl WideEvent {
    /// Construct a fresh, unfinalized wide event with the given identity
    /// fields and static labels; no record appended yet, no flag set.
    pub fn new(
        request_id: Option<String>,
        method: String,
        path: String,
        service: Option<String>,
        version: Option<String>,
        deployment_id: Option<String>,
        region: Option<String>,
        timestamp: String,
    ) -> (r: WideEvent)
        ensures
            r@.service == opt_view(service),
            r@.version == opt_view(version),
            r@.deployment_id == opt_view(deployment_id),
            r@.region == opt_view(region),
            r@.request_id == opt_view(request_id),
            r@.timestamp == timestamp@,
            r@.method == method@,
            r@.path == path@,
            r@.events == Seq::<EventView>::empty(),
            r@.status_code == 0,
            r@.duration_ms == 0,
            !r@.contains_error,
            !r@.force_log,
            !r@.finalized,
            r@.wf(),
    {
        let r = WideEvent {
            service,
            version,
            deployment_id,
            region,
            request_id,
            timestamp,
            method,
            path,
            events: Vec::new(),
            status_code: 0,
            duration_ms: 0,
            contains_error: false,
            force_log: false,
            finalized: false,
        };
        proof {
            assert(events_view(r.events@) =~= Seq::<EventView>::empty());
        }
        r
    }

    /// Append an `Info` record with the given fields.
    pub fn info(&mut self, keys: Vec<(String, String)>)
        ensures
            (final(self)@ == spec_record(
                old(self)@,
                EventView { event_type: EventType::Info, keys: pairs_view(keys@) },
            )),
            old(self)@.wf() ==> final(self)@.wf(),
    {
        self.push_record(EventType::Info, keys);
    }

    /// Append a `Warning` record with the given fields.
    pub fn warning(&mut self, keys: Vec<(String, String)>)
        ensures
            (final(self)@ == spec_record(
                old(self)@,
                EventView { event_type: EventType::Warning, keys: pairs_view(keys@) },
            )),
            old(self)@.wf() ==> final(self)@.wf(),
    {
        self.push_record(EventType::Warning, keys);
    }

    /// Append an `Error` record with the given fields; the derived error
    /// flag becomes true and stays true for the life of the wide event.
    pub fn error(&mut self, keys: Vec<(String, String)>)
        ensures
            (final(self)@ == spec_record(
                old(self)@,
                EventView { event_type: EventType::Error, keys: pairs_view(keys@) },
            )),
            final(self)@.contains_error,
            old(self)@.wf() ==> final(self)@.wf(),
    {
        self.push_record(EventType::Error, keys);
    }

    fn push_record(&mut self, event_type: EventType, keys: Vec<(String, String)>)
        ensures
            (final(self)@ == spec_record(
                old(self)@,
                EventView { event_type: event_type, keys: pairs_view(keys@) },
            )),
            old(self)@.wf() ==> final(self)@.wf(),
    {
        let ghost rec = EventView { event_type: event_type, keys: pairs_view(keys@) };
        if event_type.is_error() {
            self.contains_error = true;
        }
        self.events.push(Event { event_type, keys });
        proof {
            assert(events_view(self.events@) =~= old(self)@.events.push(rec));
            if old(self)@.wf() {
                lemma_record_preserves_wf(old(self)@, rec);
            }
        }
    }

    /// Whether the outcome fields have already been set: once true, no
    /// further `finalize` is admitted.
    pub fn is_finalized(&self) -> (r: bool)
        ensures
            r == self@.finalized,
    {
        self.finalized
    }

    /// Number of event records appended so far.
    pub fn event_count(&self) -> (r: usize)
        ensures
            r == self@.events.len(),
    {
        self.events.len()
    }

    /// Set the force-log flag: idempotent, irreversible for the life of
    /// the wide event, guaranteeing emission whatever the sampling draw.
    pub fn force_log(&mut self)
        ensures
            (final(self)@ == WideEventView { force_log: true, ..old(self)@ }),
    {
        self.force_log = true;
    }

    /// Serialize the wide event to its structured one-line form.
    pub fn to_json(&self) -> (r: String)
        ensures
            r@ == wide_event_json(self@),
    {
        let mut out: Vec<char> = Vec::new();
        out.push('{');
        push_opt_member(&mut out, "\"service\":", &self.service);
        push_opt_member(&mut out, "\"version\":", &self.version);
        push_opt_member(&mut out, "\"deployment_id\":", &self.deployment_id);
        push_opt_member(&mut out, "\"region\":", &self.region);
        push_opt_member(&mut out, "\"request_id\":", &self.request_id);
        push_str_chars(&mut out, "\"timestamp\":");
        push_quoted(&mut out, self.timestamp.as_str());
        push_str_chars(&mut out, ",\"method\":");
        push_quoted(&mut out, self.method.as_str());
        push_str_chars(&mut out, ",\"path\":");
        push_quoted(&mut out, self.path.as_str());
        push_events_member(&mut out, &self.events);
        push_str_chars(&mut out, ",\"status_code\":");
        push_dec(&mut out, self.status_code as u64);
        push_str_chars(&mut out, ",\"duration_ms\":");
        push_dec(&mut out, self.duration_ms);
        out.push('}');
        proof {
            assert(out@ =~= wide_event_json(self@));
        }
        chars_to_string(&out)
    }

    /// Evaluate the sampling policy against this wide event with one
    /// fresh random draw.
    fn should_sample(&self, sampling_enabled: bool) -> (r: bool)
        ensures
            exists|d: u64|
                d < DRAW_BOUND && r == spec_should_emit(
                    sampling_enabled,
                    self@.force_log,
                    self@.status_code,
                    self@.contains_error,
                    self@.duration_ms,
                    d,
                ),
            spec_always_emit(
                sampling_enabled,
                self@.force_log,
                self@.status_code,
                self@.contains_error,
                self@.duration_ms,
            ) ==> r,
    {
        let draw = random_draw(DRAW_BOUND);
        let r = should_emit(
            sampling_enabled,
            self.force_log,
            self.status_code,
            self.contains_error,
            self.duration_ms,
            draw,
        );
        proof {
            assert(draw < DRAW_BOUND && r == spec_should_emit(
                sampling_enabled,
                self@.force_log,
                self@.status_code,
                self@.contains_error,
                self@.duration_ms,
                draw,
            ));
        }
        r
    }
}

/// Construction-time configuration of the middleware: the sampling flag
/// and the four optional static labels, shared read-only by all requests.
#[derive(Clone)]
pub struct WideEventLoggerLayer {
    sampling_enabled: bool,
    service: Option<String>,
    version: Option<String>,
    deployment_id: Option<String>,
    region: Option<String>,
}

impl WideEventLoggerLayer {
    pub closed spec fn spec_sampling_enabled(&self) -> bool {
        self.sampling_enabled
    }

    pub closed spec fn spec_service(&self) -> Option<Seq<char>> {
        opt_view(self.service)
    }

    pub closed spec fn spec_version(&self) -> Option<Seq<char>> {
        opt_view(self.version)
    }

    pub closed spec fn spec_deployment_id(&self) -> Option<Seq<char>> {
        opt_view(self.deployment_id)
    }

    pub closed spec fn spec_region(&self) -> Option<Seq<char>> {
        opt_view(self.region)
    }

    /// Assemble the middleware configuration once, at server set-up.
    pub fn new(
        sampling_enabled: bool,
        service: Option<String>,
        version: Option<String>,
        deployment_id: Option<String>,
        region: Option<String>,
    ) -> (r: WideEventLoggerLayer)
        ensures
            r.spec_sampling_enabled() == sampling_enabled,
            r.spec_service() == opt_view(service),
            r.spec_version() == opt_view(version),
            r.spec_deployment_id() == opt_view(deployment_id),
            r.spec_region() == opt_view(region),
    {
        WideEventLoggerLayer { sampling_enabled, service, version, deployment_id, region }
    }

    /// Wrap an inner handler: the logger holds the handler unchanged
    /// beside a copy of this configuration.
    pub fn layer<S>(&self, inner: S) -> (r: WideEventLogger<S>)
        ensures
            r.spec_inner() == inner,
            r.spec_sampling_enabled() == self.spec_sampling_enabled(),
            r.spec_service() == self.spec_service(),
            r.spec_version() == self.spec_version(),
            r.spec_deployment_id() == self.spec_deployment_id(),
            r.spec_region() == self.spec_region(),
    {
        WideEventLogger {
            inner,
            sampling_enabled: self.sampling_enabled,
            service: clone_opt_string(&self.service),
            version: clone_opt_string(&self.version),
            deployment_id: clone_opt_string(&self.deployment_id),
            region: clone_opt_string(&self.region),
        }
    }
}

/// Clamp an elapsed-milliseconds reading into the wide event's duration
/// field, saturating rather than overflowing on extreme durations.
pub fn saturate_duration_ms(ms: u128) -> (r: u64)
    ensures
        ms <= u64::MAX ==> r == ms,
        ms > u64::MAX ==> r == u64::MAX,
{
    if ms > u64::MAX as u128 {
        u64::MAX
    } else {
        ms as u64
    }
}

fn clone_opt_string(v: &Option<String>) -> (r: Option<String>)
    ensures
        r == *v,
{
    match v {
        None => None,
        Some(s) => Some(s.clone()),
    }
}

/// The middleware adapter around one inner handler: it opens a wide
/// event when a request arrives and closes it exactly once when the
/// request completes, never touching the handler's own response.
#[derive(Clone)]
pub struct WideEventLogger<S> {
    inner: S,
    sampling_enabled: bool,
    service: Option<String>,
    version: Option<String>,
    deployment_id: Option<String>,
    region: Option<String>,
}

impl<S> WideEventLogger<S> {
    pub closed spec fn spec_inner(&self) -> S {
        self.inner
    }

    pub closed spec fn spec_sampling_enabled(&self) -> bool {
        self.sampling_enabled
    }

    pub closed spec fn spec_service(&self) -> Option<Seq<char>> {
        opt_view(self.service)
    }

    pub closed spec fn spec_version(&self) -> Option<Seq<char>> {
        opt_view(self.version)
    }

    pub closed spec fn spec_deployment_id(&self) -> Option<Seq<char>> {
        opt_view(self.deployment_id)
    }

    pub closed spec fn spec_region(&self) -> Option<Seq<char>> {
        opt_view(self.region)
    }

    /// Borrow the wrapped inner handler.
    pub fn inner(&self) -> (r: &S)
        ensures
            *r == self.spec_inner(),
    {
        &self.inner
    }

    /// Open the wide event for one inbound request: stamp the creation
    /// timestamp, capture identity fields and attach the process-wide
    /// static labels. Exactly one wide event exists per request: this is
    /// its sole construction point on the request path.
    pub fn begin_request(&self, request_id: Option<String>, method: String, path: String) -> (r:
        WideEvent)
        ensures
            r@.service == self.spec_service(),
            r@.version == self.spec_version(),
            r@.deployment_id == self.spec_deployment_id(),
            r@.region == self.spec_region(),
            r@.request_id == opt_view(request_id),
            r@.method == method@,
            r@.path == path@,
            r@.events == Seq::<EventView>::empty(),
            r@.status_code == 0,
            r@.duration_ms == 0,
            !r@.contains_error,
            !r@.force_log,
            !r@.finalized,
            r@.wf(),
    {
        let timestamp = now_rfc3339();
        WideEvent::new(
            request_id,
            method,
            path,
            clone_opt_string(&self.service),
            clone_opt_string(&self.version),
            clone_opt_string(&self.deployment_id),
            clone_opt_string(&self.region),
            timestamp,
        )
    }

    /// Close the wide event for one completed request, exactly once: set
    /// the outcome fields, recompute the derived error flag from the
    /// event sequence, evaluate the sampling policy and, when it says to
    /// emit, hand back the serialized record for the emission sink.
    pub fn complete_request(&self, event: &mut WideEvent, status_code: u16, duration_ms: u64) -> (r:
        Option<String>)
        requires
            !old(event)@.finalized,
        ensures
            (final(event)@ == WideEventView {
                status_code: status_code,
                duration_ms: duration_ms,
                contains_error: has_error_record(old(event)@.events),
                finalized: true,
                ..old(event)@
            }),
            final(event)@.wf(),
            spec_always_emit(
                self.spec_sampling_enabled(),
                final(event)@.force_log,
                status_code,
                final(event)@.contains_error,
                duration_ms,
            ) ==> r is Some,
            exists|d: u64|
                d < DRAW_BOUND && (r is Some) == spec_should_emit(
                    self.spec_sampling_enabled(),
                    final(event)@.force_log,
                    status_code,
                    final(event)@.contains_error,
                    duration_ms,
                    d,
                ),
            r matches Some(line) ==> line@ == wide_event_json(final(event)@),
    {
        event.status_code = status_code;
        event.duration_ms = duration_ms;
        event.contains_error = compute_contains_error(&event.events);
        event.finalized = true;
        let emit = event.should_sample(self.sampling_enabled);
        let r = if emit {
            Some(event.to_json())
        } else {
            None
        };
        proof {
            let d = choose|d: u64|
                d < DRAW_BOUND && emit == spec_should_emit(
                    self.spec_sampling_enabled(),
                    event@.force_log,
                    event@.status_code,
                    event@.contains_error,
                    event@.duration_ms,
                    d,
                );
            assert(d < DRAW_BOUND && (r is Some) == spec_should_emit(
                self.spec_sampling_enabled(),
                final(event)@.force_log,
                status_code,
                final(event)@.contains_error,
                duration_ms,
                d,
            ));
        }
        r
    }
}

} // verus!
