//! The parent-aware sampling decision: follow an upstream sampling
//! decision where a parent context exists, otherwise sample a fraction
//! of root traces chosen by the trace id.

use vstd::prelude::*;
use crate::propagation::SpanContextData;

verus! {

/// A ratio-based sampling policy with the ratio held in fixed point:
/// `always` when the configured ratio is at least one, otherwise the
/// ratio scaled to a threshold out of `2^63`.
#[derive(PartialEq, Eq, Structural, Clone, Copy, Debug)]
pub struct SamplerConfig {
    pub always: bool,
    pub threshold: u64,
}

/// The 63-bit value a root sampling decision compares against the
/// threshold: the low 64 bits of the trace id, shifted right once.
pub open spec fn spec_trace_id_rnd(trace_id: u128) -> u64 {
    ((trace_id as u64) >> 1) as u64
}

/// The sampling decision: a parent context decides where one exists;
/// a root trace is sampled when the policy always samples or its
/// trace-id value falls below the threshold.
pub open spec fn spec_should_sample(
    parent: Option<SpanContextData>,
    config: SamplerConfig,
    trace_id: u128,
) -> bool {
    match parent {
        Some(p) => p.sampled,
        None => config.always || spec_trace_id_rnd(trace_id) < config.threshold,
    }
}

/// Decides whether the span for `trace_id` is sampled, following the
/// parent's decision when `parent` is present.
pub fn should_sample(
    parent: &Option<SpanContextData>,
    config: &SamplerConfig,
    trace_id: u128,
) -> (r: bool)
    ensures
        r == spec_should_sample(*parent, *config, trace_id),
{
    match parent {
        Some(p) => p.sampled,
        None => {
            if config.always {
                true
            } else {
                proof {
                    assert(trace_id & 0xFFFF_FFFF_FFFF_FFFFu128 == ((trace_id as u64) as u128))
                        by (bit_vector);
                }
                let low: u64 = (trace_id & 0xFFFF_FFFF_FFFF_FFFFu128) as u64;
                (low >> 1) < config.threshold
            }
        },
    }
}

/// A ratio of zero never samples a root span; a ratio of one (or more)
/// always does, whatever the trace id.
pub proof fn lemma_sample_ratio_extremes(trace_id: u128)
    ensures
        !spec_should_sample(None, SamplerConfig { always: false, threshold: 0 }, trace_id),
        spec_should_sample(None, SamplerConfig { always: true, threshold: 0 }, trace_id),
{
}

/// A parent's decision is always followed, whatever the policy.
pub proof fn lemma_parent_decision_wins(
    parent: SpanContextData,
    config: SamplerConfig,
    trace_id: u128,
)
    ensures
        spec_should_sample(Some(parent), config, trace_id) == parent.sampled,
{
}

} // verus!
