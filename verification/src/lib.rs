//! Supervisor for a pair of live media-processing graphs.
//!
//! An ingestion graph pulls a remote audio/video stream and republishes its
//! decoded video over an in-process bridge; a compositing graph merges that
//! bridged feed with a synthetic fallback layer into one display output. The
//! graphs themselves are executed by an external graph engine; this crate
//! holds the supervisor: the construction parameters of each graph, the
//! bridge-synchronization contract between the two, and the event-driven
//! recovery state machine that keeps a live feed available.

pub mod compositing;
pub mod config;
pub mod ingestion;
pub mod lifecycle;
pub mod reactor;
