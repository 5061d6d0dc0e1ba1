//! The ingestion graph: construction parameters and the model of the
//! synthetic fault injection on its publishing path.

use vstd::prelude::*;

use crate::config::{spec_bridge_channel, bridge_channel_name, FaultInjectionSpec, IngestionConfig};
use crate::lifecycle::RecoveryPolicy;

verus! {

/// Everything the graph engine needs to assemble the ingestion graph: a
/// source node pulling the live target, a video path publishing over the
/// bridge, and an audio sink that discards audio (display-only use).
#[derive(Clone, Debug, PartialEq, Eq)]
pub struct IngestionPlan {
    /// The remote live source the source node pulls.
    pub source_uri: String,
    /// The bridge channel the video publisher writes to.
    pub publish_channel: String,
    /// The publisher must not drop buffers when no consumer keeps up.
    pub publisher_drop_on_overrun: bool,
    /// The publisher renders against the clock, as a live path must.
    pub publisher_sync_to_clock: bool,
    /// Synthetic faults applied to the publishing path's pass-through node.
    pub fault: FaultInjectionSpec,
    /// Audio is routed to a discarding sink.
    pub discard_audio: bool,
    /// Faults on this graph are recovered by automatic restart.
    pub recovery: RecoveryPolicy,
}

/// Assemble the ingestion graph's construction parameters from its
/// configuration. Construction itself is owned by the engine; any node or
/// link the engine fails to create is fatal at build time.
pub fn build_rtmp_pipeline(config: &IngestionConfig) -> (plan: IngestionPlan)
    ensures
        plan.source_uri == config.live_uri,
        plan.publish_channel@ == spec_bridge_channel(),
        !plan.publisher_drop_on_overrun,
        plan.publisher_sync_to_clock,
        plan.fault == config.fault,
        plan.discard_audio,
        plan.recovery == RecoveryPolicy::AutoRestartOnErrorAndEos,
{
    IngestionPlan {
        source_uri: config.live_uri.clone(),
        publish_channel: bridge_channel_name(),
        publisher_drop_on_overrun: false,
        publisher_sync_to_clock: true,
        fault: config.fault,
        discard_audio: true,
        recovery: RecoveryPolicy::AutoRestartOnErrorAndEos,
    }
}

/// A synthetic fault the pass-through node emits on the publishing path.
#[derive(Clone, Copy, Debug, PartialEq, Eq)]
pub enum SyntheticFault {
    /// A synthetic end-of-stream.
    EndOfStream,
    /// A synthetic error.
    Error,
}

/// The fault the pass-through node emits just after its `published`-th
/// buffer, if any. An end-of-stream request is consulted first; under a
/// well-formed `FaultInjectionSpec` the two requests never name the same
/// buffer, so the order cannot matter.
pub open spec fn spec_fault_at(fault: FaultInjectionSpec, published: i32) -> Option<
    SyntheticFault,
> {
    if fault.eos_after == Some(published) {
        Some(SyntheticFault::EndOfStream)
    } else if fault.error_after == Some(published) {
        Some(SyntheticFault::Error)
    } else {
        None
    }
}

/// Decide which synthetic fault, if any, the publishing path emits just
/// after its `published`-th buffer.
pub fn fault_at(fault: &FaultInjectionSpec, published: i32) -> (emitted: Option<SyntheticFault>)
    ensures
        emitted == spec_fault_at(*fault, published),
{
    match fault.eos_after {
        Some(n) if n == published => Some(SyntheticFault::EndOfStream),
        _ => match fault.error_after {
            Some(n) if n == published => Some(SyntheticFault::Error),
            _ => None,
        },
    }
}

/// A fault injection with `eos_after` set emits exactly one synthetic
/// end-of-stream: it appears just after the named buffer and after no
/// other.
pub proof fn lemma_eos_emitted_exactly_once(fault: FaultInjectionSpec, n: i32, k: i32)
    requires
        fault.well_formed(),
        fault.eos_after == Some(n),
    ensures
        spec_fault_at(fault, k) == Some(SyntheticFault::EndOfStream) <==> k == n,
{
}

/// A fault injection with `error_after` set emits exactly one synthetic
/// error: it appears just after the named buffer and after no other.
pub proof fn lemma_error_emitted_exactly_once(fault: FaultInjectionSpec, n: i32, k: i32)
    requires
        fault.well_formed(),
        fault.error_after == Some(n),
    ensures
        spec_fault_at(fault, k) == Some(SyntheticFault::Error) <==> k == n,
{
}

} // verus!
