//! The sampling policy: a pure decision over a finalized wide event's
//! outcome fields, a process-wide enable flag and one random draw.

use vstd::prelude::*;

verus! {

/// Number of equally likely values of one sampling draw.
pub const DRAW_BOUND: u64 = 10000;

/// Draws below this value pass the baseline sample: 500 of 10000, five
/// percent of otherwise-unremarkable requests.
pub const SAMPLE_THRESHOLD: u64 = 500;

/// The sampling decision: emit when sampling is disabled, when any
/// guaranteed-capture condition holds, or when the uniform draw from
/// `[0, DRAW_BOUND)` falls below the baseline threshold.
pub open spec fn spec_should_emit(
    sampling_enabled: bool,
    force_log: bool,
    status_code: u16,
    contains_error: bool,
    duration_ms: u64,
    draw: u64,
) -> bool {
    !sampling_enabled || force_log || status_code >= 500 || contains_error || duration_ms > 2000
        || draw < SAMPLE_THRESHOLD
}

/// The outcomes on which emission is guaranteed whatever the draw.
pub open spec fn spec_always_emit(
    sampling_enabled: bool,
    force_log: bool,
    status_code: u16,
    contains_error: bool,
    duration_ms: u64,
) -> bool {
    !sampling_enabled || force_log || status_code >= 500 || contains_error || duration_ms > 2000
}

/// The pure sampling decision, with the random draw injected so that a
/// caller can substitute a deterministic or controlled source.
pub fn should_emit(
    sampling_enabled: bool,
    force_log: bool,
    status_code: u16,
    contains_error: bool,
    duration_ms: u64,
    draw: u64,
) -> (r: bool)
    ensures
        r == spec_should_emit(
            sampling_enabled,
            force_log,
            status_code,
            contains_error,
            duration_ms,
            draw,
        ),
{
    !sampling_enabled || force_log || status_code >= 500 || contains_error || duration_ms > 2000
        || draw < SAMPLE_THRESHOLD
}

/// Relies on `rand::random_range`: a uniform draw from `[0, bound)` using
/// the thread-local generator. The value depends on the generator's
/// state, so only its range is assumed.
#[verifier::external_body]
pub(crate) fn random_draw(bound: u64) -> (r: u64)
    requires
        0 < bound,
    ensures
        r < bound,
{
    rand::random_range(0..bound)
}

/// Emission guarantees of the sampling policy: disabled sampling, the
/// force-log flag, a server-error status, an observed error record or a
/// slow request each force emission whatever the draw; for all other
/// outcomes the decision is exactly the baseline draw test.
pub proof fn lemma_sampling_guarantees(
    sampling_enabled: bool,
    force_log: bool,
    status_code: u16,
    contains_error: bool,
    duration_ms: u64,
    draw: u64,
)
    ensures
        spec_always_emit(sampling_enabled, force_log, status_code, contains_error, duration_ms)
            ==> spec_should_emit(
            sampling_enabled,
            force_log,
            status_code,
            contains_error,
            duration_ms,
            draw,
        ),
        !spec_always_emit(sampling_enabled, force_log, status_code, contains_error, duration_ms)
            ==> spec_should_emit(
            sampling_enabled,
            force_log,
            status_code,
            contains_error,
            duration_ms,
            draw,
        ) == (draw < SAMPLE_THRESHOLD),
{
}

} // verus!
