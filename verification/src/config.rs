//! Configuration values shared by the two graph builders.

use vstd::prelude::*;

verus! {

/// Width of the compositing canvas, in pixels. Every compositor input is
/// placed at this size regardless of its source resolution.
pub const CANVAS_WIDTH: i32 = 1280;

/// Height of the compositing canvas, in pixels.
pub const CANVAS_HEIGHT: i32 = 720;

/// Width at which the synthetic fallback source generates frames, before
/// being placed into the canvas.
pub const FALLBACK_SOURCE_WIDTH: i32 = 800;

/// Height at which the synthetic fallback source generates frames.
pub const FALLBACK_SOURCE_HEIGHT: i32 = 448;

/// The graph engine's native time unit is the nanosecond.
pub const NANOS_PER_SECOND: u64 = 1_000_000_000;

/// Largest staleness limit, in seconds, that still fits the engine's
/// nanosecond clock when converted. Equal to `u64::MAX / NANOS_PER_SECOND`.
pub const MAX_STALENESS_SECONDS: u64 = 18_446_744_073;

/// Fixed delay, in milliseconds, inserted before an error-triggered restart
/// of the ingestion graph (naive throttling, not exponential backoff).
pub const RESTART_THROTTLE_MILLIS: u64 = 1000;

/// The name of the in-process bridge channel over which the ingestion graph
/// publishes its decoded video and from which the compositing graph reads.
pub open spec fn spec_bridge_channel() -> Seq<char> {
    "rtmp"@
}

/// Returns the bridge channel name. Both builders take the channel from
/// here, so publisher and subscriber always agree on it.
pub fn bridge_channel_name() -> (name: String)
    ensures
        name@ == spec_bridge_channel(),
{
    String::from_str("rtmp")
}

/// Instructs the ingestion graph's pass-through node to synthetically emit
/// end-of-stream or an error after a number of published buffers; used for
/// resilience testing. Immutable once applied to a graph.
#[derive(Clone, Copy, Debug, PartialEq, Eq)]
pub struct FaultInjectionSpec {
    /// Emit one synthetic end-of-stream after this many buffers.
    pub eos_after: Option<i32>,
    /// Emit one synthetic error after this many buffers.
    pub error_after: Option<i32>,
}

impl FaultInjectionSpec {
    /// A well-formed fault injection names positive buffer counts, and never
    /// asks for an end-of-stream and an error after the same buffer.
    pub open spec fn well_formed(self) -> bool {
        &&& self.eos_after matches Some(n) ==> n >= 1
        &&& self.error_after matches Some(n) ==> n >= 1
        &&& (self.eos_after is Some && self.error_after is Some) ==> self.eos_after
            != self.error_after
    }

    /// True when either fault is requested, so the builder must configure
    /// the pass-through node at all.
    pub fn is_armed(&self) -> (armed: bool)
        ensures
            armed == (self.eos_after is Some || self.error_after is Some),
    {
        self.eos_after.is_some() || self.error_after.is_some()
    }
}

/// The timestamp handling mode of the compositing graph's bridge-consuming
/// node. Exactly one mode applies per bridge consumer; the choice decides how
/// a gap left by an ingestion restart appears downstream.
#[derive(Clone, Copy, Debug, PartialEq, Eq)]
pub enum BridgeSyncPolicy {
    /// Shift incoming timestamps onto the bridge's running clock, so a
    /// reconnect appears as a smooth continuation.
    CompensateTimestamps,
    /// Re-base timestamps to zero on each reconnect, so a reconnect appears
    /// as a visible jump.
    RestartTimestamps,
}

/// Per-compositor-input placement: layering priority, placement size on the
/// canvas, and an optional staleness deadline.
#[derive(Clone, Copy, Debug, PartialEq, Eq)]
pub struct LayerSpec {
    /// Layering priority; a higher value draws on top.
    pub z_order: u32,
    /// Width of the input's placement on the canvas, in pixels.
    pub width: i32,
    /// Height of the input's placement on the canvas, in pixels.
    pub height: i32,
    /// Longest time, in engine nanoseconds, the compositor may keep
    /// repeating this input's last frame before treating the input as
    /// absent. `None` means the last frame may repeat indefinitely.
    pub max_staleness_ns: Option<u64>,
}

/// Parameters of the ingestion graph.
#[derive(Clone, Debug, PartialEq, Eq)]
pub struct IngestionConfig {
    /// The remote live source to pull.
    pub live_uri: String,
    /// Synthetic fault injection on the publishing path.
    pub fault: FaultInjectionSpec,
}

/// Parameters of the compositing graph.
#[derive(Clone, Copy, Debug, PartialEq, Eq)]
pub struct CompositorConfig {
    /// Staleness deadline for the live input, in seconds; `None` leaves the
    /// live input free to repeat its last frame indefinitely.
    pub discard_after_seconds: Option<u64>,
    /// Timestamp handling of the bridge consumer.
    pub sync_policy: BridgeSyncPolicy,
}

/// A failure while assembling a graph's parameters. Build-time failures are
/// fatal: the process must exit before any graph runs.
#[derive(Clone, Copy, Debug, PartialEq, Eq)]
pub enum BuildError {
    /// The configured staleness deadline does not fit the engine's
    /// nanosecond clock.
    StalenessTooLarge,
}

} // verus!
