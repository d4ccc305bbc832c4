//! The middleware adapter of the open-label-list variant: the emission
//! sink is left to the caller, which receives the serialized record and
//! decides where one line of output goes.

use vstd::prelude::*;
use crate::event::compute_contains_error;
use crate::event::has_error_record;
use crate::event::pairs_view;
use crate::event::EventView;
use crate::clock::now_rfc3339;
use crate::json::opt_view;
use crate::sampling::spec_always_emit;
use crate::sampling::spec_should_emit;
use crate::sampling::DRAW_BOUND;
use crate::wide_event::wide_event_json;
use crate::wide_event::WideEvent;
use crate::wide_event::WideEventView;

verus! {

/// Construction-time configuration: the sampling flag and the static
/// label list, shared read-only by all requests.
#[derive(Clone)]
pub struct WideEventLoggerLayer {
    sampling_enabled: bool,
    keys: Vec<(String, String)>,
}

impl WideEventLoggerLayer {
    pub closed spec fn spec_sampling_enabled(&self) -> bool {
        self.sampling_enabled
    }

    pub closed spec fn spec_keys(&self) -> Seq<(Seq<char>, Seq<char>)> {
        pairs_view(self.keys@)
    }

    /// Assemble the middleware configuration once, at server set-up.
    pub fn new(sampling_enabled: bool, keys: Vec<(String, String)>) -> (r: WideEventLoggerLayer)
        ensures
            r.spec_sampling_enabled() == sampling_enabled,
            r.spec_keys() == pairs_view(keys@),
    {
        WideEventLoggerLayer { sampling_enabled, keys }
    }

    /// Wrap an inner handler: the logger holds the handler unchanged
    /// beside a copy of this configuration.
    pub fn layer<S>(&self, inner: S) -> (r: WideEventLogger<S>)
        ensures
            r.spec_inner() == inner,
            r.spec_sampling_enabled() == self.spec_sampling_enabled(),
            r.spec_keys() == self.spec_keys(),
    {
        WideEventLogger { inner, sampling_enabled: self.sampling_enabled, keys: clone_pairs(&self.keys) }
    }
}

fn clone_pairs(v: &Vec<(String, String)>) -> (r: Vec<(String, String)>)
    ensures
        r@ == v@,
{
    let n = v.len();
    let mut r: Vec<(String, String)> = Vec::new();
    let mut i: usize = 0;
    while i < n
        invariant
            i <= n,
            n == v@.len(),
            r@ == v@.subrange(0, i as int),
        decreases n - i,
    {
        r.push((v[i].0.clone(), v[i].1.clone()));
        i = i + 1;
        proof {
            assert(v@.subrange(0, i as int) =~= v@.subrange(0, i - 1).push(v@[i - 1]));
            assert((v@[i - 1].0, v@[i - 1].1) == v@[i - 1]);
        }
    }
    proof {
        assert(v@.subrange(0, n as int) =~= v@);
    }
    r
}

/// The middleware adapter around one inner handler: it opens a wide
/// event when a request arrives and closes it exactly once when the
/// request completes, handing any emission to the caller's sink.
#[derive(Clone)]
pub struct WideEventLogger<S> {
    inner: S,
    sampling_enabled: bool,
    keys: Vec<(String, String)>,
}

impl<S> WideEventLogger<S> {
    pub closed spec fn spec_inner(&self) -> S {
        self.inner
    }

    pub closed spec fn spec_sampling_enabled(&self) -> bool {
        self.sampling_enabled
    }

    pub closed spec fn spec_keys(&self) -> Seq<(Seq<char>, Seq<char>)> {
        pairs_view(self.keys@)
    }

    /// Borrow the wrapped inner handler.
    pub fn inner(&self) -> (r: &S)
        ensures
            *r == self.spec_inner(),
    {
        &self.inner
    }

    /// Open the wide event for one inbound request: stamp the creation
    /// timestamp, capture identity fields and attach the static labels.
    /// Exactly one wide event exists per request: this is its sole
    /// construction point on the request path.
    pub fn begin_request(&self, request_id: Option<String>, method: String, path: String) -> (r:
        WideEvent)
        ensures
            r@.labels == self.spec_keys(),
            r@.request_id == opt_view(request_id),
            r@.method == method@,
            r@.path == path@,
            r@.events == Seq::<EventView>::empty(),
            r@.status_code == 0,
            r@.duration_ms == 0,
            !r@.contains_error,
            !r@.force_log,
            !r@.finalized,
            r@.wf(),
    {
        let timestamp = now_rfc3339();
        WideEvent::new(request_id, method, path, clone_pairs(&self.keys), timestamp)
    }

    /// Close the wide event for one completed request, exactly once: set
    /// the outcome fields, recompute the derived error flag, evaluate the
    /// sampling policy and, when it says to emit, hand back the
    /// serialized record for the caller's sink.
    pub fn complete_request(&self, event: &mut WideEvent, status_code: u16, duration_ms: u64) -> (r:
        Option<String>)
        requires
            !old(event)@.finalized,
        ensures
            (final(event)@ == WideEventView {
                status_code: status_code,
                duration_ms: duration_ms,
                contains_error: has_error_record(old(event)@.events),
                finalized: true,
                ..old(event)@
            }),
            final(event)@.wf(),
            spec_always_emit(
                self.spec_sampling_enabled(),
                final(event)@.force_log,
                status_code,
                final(event)@.contains_error,
                duration_ms,
            ) ==> r is Some,
            exists|d: u64|
                d < DRAW_BOUND && (r is Some) == spec_should_emit(
                    self.spec_sampling_enabled(),
                    final(event)@.force_log,
                    status_code,
                    final(event)@.contains_error,
                    duration_ms,
                    d,
                ),
            r matches Some(line) ==> line@ == wide_event_json(final(event)@),
    {
        let contains_error = compute_contains_error(event.events_ref());
        event.set_outcome(status_code, duration_ms, contains_error);
        let emit = event.should_sample(self.sampling_enabled);
        let r = if emit {
            Some(event.to_json())
        } else {
            None
        };
        proof {
            let d = choose|d: u64|
                d < DRAW_BOUND && emit == spec_should_emit(
                    self.spec_sampling_enabled(),
                    event@.force_log,
                    event@.status_code,
                    event@.contains_error,
                    event@.duration_ms,
                    d,
                );
            assert(d < DRAW_BOUND && (r is Some) == spec_should_emit(
                self.spec_sampling_enabled(),
                final(event)@.force_log,
                status_code,
                final(event)@.contains_error,
                duration_ms,
                d,
            ));
        }
        r
    }
}

} // verus!
