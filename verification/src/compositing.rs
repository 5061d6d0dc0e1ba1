//! The compositing graph: construction parameters, the z-order invariant of
//! its two inputs, and the model of the live input's staleness deadline.

use vstd::prelude::*;

use crate::config::{
    spec_bridge_channel, bridge_channel_name, BridgeSyncPolicy, BuildError, CompositorConfig,
    LayerSpec, CANVAS_HEIGHT, CANVAS_WIDTH, FALLBACK_SOURCE_HEIGHT, FALLBACK_SOURCE_WIDTH,
    MAX_STALENESS_SECONDS, NANOS_PER_SECOND,
};
use crate::ingestion::IngestionPlan;
use crate::lifecycle::RecoveryPolicy;

verus! {

/// Everything the graph engine needs to assemble the compositing graph: a
/// bridge-consuming primary path and a synthetic fallback path, merged by a
/// compositor into one display output.
#[derive(Clone, Debug, PartialEq, Eq)]
pub struct CompositorPlan {
    /// The bridge channel the primary path reads from.
    pub subscribe_channel: String,
    /// Timestamp handling of the bridge consumer across ingestion restarts.
    pub sync_policy: BridgeSyncPolicy,
    /// The bridge consumer is a live, pull-driven source.
    pub live_source_is_live: bool,
    /// Quality-of-service signaling on the display sink. Kept off: the
    /// bridge does not yet propagate QoS events across itself, so leaving
    /// it on would starve the bridge's downstream renderer.
    pub sink_qos_enabled: bool,
    /// Placement of the bridged live input, drawn above the fallback.
    pub live_layer: LayerSpec,
    /// Placement of the synthetic fallback input, drawn below the live one.
    pub fallback_layer: LayerSpec,
    /// Width at which the fallback source generates frames, before being
    /// placed into the canvas.
    pub fallback_source_width: i32,
    /// Height at which the fallback source generates frames.
    pub fallback_source_height: i32,
    /// The fallback source produces frames in live fashion.
    pub fallback_source_is_live: bool,
    /// A fault on this graph is logged, never auto-recovered.
    pub recovery: RecoveryPolicy,
}

impl CompositorPlan {
    /// The two compositor inputs, fallback first.
    pub open spec fn layers(self) -> Seq<LayerSpec> {
        seq![self.fallback_layer, self.live_layer]
    }

    /// Layout invariant: the fallback input sits at z-order 0, the live
    /// input at z-order 1 (so live always draws above fallback), both
    /// placed at full canvas size, and only the live input ever carries a
    /// staleness deadline.
    pub open spec fn well_formed(self) -> bool {
        &&& self.fallback_layer.z_order == 0
        &&& self.live_layer.z_order == 1
        &&& self.fallback_layer.width == CANVAS_WIDTH
        &&& self.fallback_layer.height == CANVAS_HEIGHT
        &&& self.live_layer.width == CANVAS_WIDTH
        &&& self.live_layer.height == CANVAS_HEIGHT
        &&& self.fallback_layer.max_staleness_ns is None
    }
}

/// Assemble the compositing graph's construction parameters from its
/// configuration. The staleness deadline is converted from seconds to the
/// engine's nanosecond clock; a deadline too large for that clock is the
/// one configuration this step rejects, and the rejection is fatal at build
/// time.
pub fn build_compositor_pipeline(config: &CompositorConfig) -> (result: Result<
    CompositorPlan,
    BuildError,
>)
    ensures
        result is Ok <==> (config.discard_after_seconds matches Some(s) ==> s
            <= MAX_STALENESS_SECONDS),
        result is Err ==> result == Result::<CompositorPlan, BuildError>::Err(
            BuildError::StalenessTooLarge,
        ),
        result matches Ok(plan) ==> {
            &&& plan.well_formed()
            &&& plan.subscribe_channel@ == spec_bridge_channel()
            &&& plan.sync_policy == config.sync_policy
            &&& plan.live_source_is_live
            &&& !plan.sink_qos_enabled
            &&& plan.fallback_source_width == FALLBACK_SOURCE_WIDTH
            &&& plan.fallback_source_height == FALLBACK_SOURCE_HEIGHT
            &&& plan.fallback_source_is_live
            &&& plan.recovery == RecoveryPolicy::LogOnly
            &&& match config.discard_after_seconds {
                Some(s) => plan.live_layer.max_staleness_ns == Some((s * NANOS_PER_SECOND) as u64),
                None => plan.live_layer.max_staleness_ns is None,
            }
        },
{
    let max_staleness_ns: Option<u64> = match config.discard_after_seconds {
        Some(seconds) => {
            if seconds <= MAX_STALENESS_SECONDS {
                Some(seconds * NANOS_PER_SECOND)
            } else {
                return Err(BuildError::StalenessTooLarge);
            }
        },
        None => None,
    };
    Ok(
        CompositorPlan {
            subscribe_channel: bridge_channel_name(),
            sync_policy: config.sync_policy,
            live_source_is_live: true,
            sink_qos_enabled: false,
            live_layer: LayerSpec {
                z_order: 1,
                width: CANVAS_WIDTH,
                height: CANVAS_HEIGHT,
                max_staleness_ns,
            },
            fallback_layer: LayerSpec {
                z_order: 0,
                width: CANVAS_WIDTH,
                height: CANVAS_HEIGHT,
                max_staleness_ns: None,
            },
            fallback_source_width: FALLBACK_SOURCE_WIDTH,
            fallback_source_height: FALLBACK_SOURCE_HEIGHT,
            fallback_source_is_live: true,
            recovery: RecoveryPolicy::LogOnly,
        },
    )
}

/// Of any well-formed compositing plan, exactly one input sits at z-order 0
/// and exactly one at z-order 1, and both are placed at full canvas size
/// whatever their source resolution.
pub proof fn lemma_zorder_invariant(plan: CompositorPlan)
    requires
        plan.well_formed(),
    ensures
        plan.layers().len() == 2,
        exists|i: int|
            0 <= i < 2 && plan.layers()[i].z_order == 0 && forall|j: int|
                0 <= j < 2 && plan.layers()[j].z_order == 0 ==> j == i,
        exists|i: int|
            0 <= i < 2 && plan.layers()[i].z_order == 1 && forall|j: int|
                0 <= j < 2 && plan.layers()[j].z_order == 1 ==> j == i,
        forall|i: int|
            0 <= i < 2 ==> #[trigger] plan.layers()[i].width == CANVAS_WIDTH && plan.layers()[i].height
                == CANVAS_HEIGHT,
{
    assert(plan.layers()[0].z_order == 0);
    assert(plan.layers()[1].z_order == 1);
}

/// The bridge-synchronization contract between the two graphs: an
/// ingestion plan publishes on the very channel a compositing plan
/// subscribes to, since both builders take the name from
/// `bridge_channel_name`. The consumer may run while no publisher is
/// attached, and vice versa; the shared name is all that couples them.
pub proof fn lemma_bridge_channels_agree(ingestion: IngestionPlan, compositing: CompositorPlan)
    requires
        ingestion.publish_channel@ == spec_bridge_channel(),
        compositing.subscribe_channel@ == spec_bridge_channel(),
    ensures
        ingestion.publish_channel@ == compositing.subscribe_channel@,
{
}

/// Which compositor input is visible on top of the output.
#[derive(Clone, Copy, Debug, PartialEq, Eq)]
pub enum TopInput {
    /// The bridged live input, at z-order 1.
    Live,
    /// The synthetic fallback input, at z-order 0.
    Fallback,
}

/// Whether the live input still counts as present: a frame has arrived at
/// some time, and the age of the last one has not reached the staleness
/// deadline (with no deadline, a last frame repeats indefinitely).
pub open spec fn spec_live_feed_present(
    max_staleness_ns: Option<u64>,
    last_frame_age_ns: Option<u64>,
) -> bool {
    match last_frame_age_ns {
        None => false,
        Some(age) => match max_staleness_ns {
            None => true,
            Some(deadline) => age < deadline,
        },
    }
}

/// The input visible on top at one rendering tick: the live input while it
/// is present, else the fallback beneath it.
pub open spec fn spec_visible_input(
    max_staleness_ns: Option<u64>,
    last_frame_age_ns: Option<u64>,
) -> TopInput {
    if spec_live_feed_present(max_staleness_ns, last_frame_age_ns) {
        TopInput::Live
    } else {
        TopInput::Fallback
    }
}

/// Decide which input the compositor shows on top at one rendering tick,
/// given the live layer's staleness deadline and the age, in engine
/// nanoseconds, of the last live frame (`None` if none ever arrived). The
/// compositor evaluates this once per tick, so a live feed that has gone
/// stale reveals the fallback within one tick of its deadline.
pub fn visible_input(live: &LayerSpec, last_frame_age_ns: Option<u64>) -> (top: TopInput)
    ensures
        top == spec_visible_input(live.max_staleness_ns, last_frame_age_ns),
{
    match last_frame_age_ns {
        None => TopInput::Fallback,
        Some(age) => match live.max_staleness_ns {
            None => TopInput::Live,
            Some(deadline) => if age < deadline {
                TopInput::Live
            } else {
                TopInput::Fallback
            },
        },
    }
}

/// Once the live input of a well-formed plan has gone without a new frame
/// for its whole staleness deadline, the top visible input is the synthetic
/// fallback, at z-order 0.
pub proof fn lemma_staleness_reveals_fallback(plan: CompositorPlan, deadline: u64, age: u64)
    requires
        plan.well_formed(),
        plan.live_layer.max_staleness_ns == Some(deadline),
        age >= deadline,
    ensures
        spec_visible_input(plan.live_layer.max_staleness_ns, Some(age)) == TopInput::Fallback,
        plan.fallback_layer.z_order == 0,
{
}

} // verus!
