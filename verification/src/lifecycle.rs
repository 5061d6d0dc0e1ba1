//! Run states, lifecycle events, and the control actions a supervisor asks
//! the graph engine to perform.

use vstd::prelude::*;

verus! {

/// The run state of a constructed graph. A graph starts `Stopped`, is
/// started into `Running`, and re-enters `Running` after a fault only
/// through an explicit stop/start pair, never by a direct transition.
/// `Paused` is entered from `Running` under buffering pressure.
#[derive(Clone, Copy, Debug, PartialEq, Eq)]
pub enum RunState {
    Stopped,
    Paused,
    Running,
}

/// A lifecycle event delivered on one graph's event channel by the graph
/// engine. Events of one graph arrive in emission order; no ordering holds
/// across graphs.
#[derive(Clone, Debug)]
pub enum LifecycleEvent {
    /// The engine asks for an end-to-end latency renegotiation.
    Latency,
    /// The graph reported a runtime error; the detail is diagnostic text
    /// that the supervisor logs but never inspects.
    Error { detail: String },
    /// Buffering pressure, as a fill percentage from 0 to 100.
    Buffering { percent: i32 },
    /// The graph reached the end of its stream.
    EndOfStream,
    /// Some node changed state. `from_own_graph` says whether the
    /// originating node is the root of the graph this supervisor owns.
    StateChanged { from_own_graph: bool, new_state: RunState },
}

/// A control action the supervisor asks the engine to perform on the graph
/// it owns, in the order returned.
#[derive(Clone, Debug)]
pub enum Action {
    /// Block for `RESTART_THROTTLE_MILLIS` before going on.
    Throttle,
    /// Take the graph to `Stopped`.
    Stop,
    /// Re-point the graph's source node at the given target.
    ApplySourceUri(String),
    /// Take the graph to `Running`.
    Start,
    /// Take the graph to `Paused`.
    Pause,
    /// Take a paused graph back to `Running`.
    Resume,
    /// Ask the engine to recalculate end-to-end latency.
    RecalculateLatency,
    /// Emit a diagnostic snapshot of the graph topology.
    DumpTopology,
}

/// How a supervisor reacts to faults on the graph it owns.
#[derive(Clone, Copy, Debug, PartialEq, Eq)]
pub enum RecoveryPolicy {
    /// Restart the graph on an error (throttled) or on end-of-stream
    /// (immediately); pause and resume it under buffering pressure.
    AutoRestartOnErrorAndEos,
    /// React only to latency and diagnostic events; a fault is logged and
    /// the graph is left alone.
    LogOnly,
}

/// Identity and recorded run state of a constructed graph. Each supervisor
/// exclusively owns one handle for the process lifetime.
#[derive(Clone, Copy, Debug)]
pub struct GraphHandle {
    /// Opaque identity of the graph within this process.
    pub id: u64,
    /// The run state the supervisor has taken the graph to.
    pub run_state: RunState,
}

impl GraphHandle {
    /// A freshly constructed graph is stopped.
    pub fn new(id: u64) -> (handle: GraphHandle)
        ensures
            handle == (GraphHandle { id, run_state: RunState::Stopped }),
    {
        GraphHandle { id, run_state: RunState::Stopped }
    }

    /// Start a stopped graph. `Running` is only ever entered this way or by
    /// `resume`, so a restart must pass through `stop` first.
    pub fn start(&mut self)
        requires
            old(self).run_state == RunState::Stopped,
        ensures
            *final(self) == (GraphHandle { run_state: RunState::Running, ..*old(self) }),
    {
        self.run_state = RunState::Running;
    }

    /// Stop the graph, whatever state it is in; teardown must always be
    /// attempted.
    pub fn stop(&mut self)
        ensures
            *final(self) == (GraphHandle { run_state: RunState::Stopped, ..*old(self) }),
    {
        self.run_state = RunState::Stopped;
    }

    /// Pause a running graph under buffering pressure.
    pub fn pause(&mut self)
        requires
            old(self).run_state == RunState::Running,
        ensures
            *final(self) == (GraphHandle { run_state: RunState::Paused, ..*old(self) }),
    {
        self.run_state = RunState::Paused;
    }

    /// Resume a paused graph once buffering has completed.
    pub fn resume(&mut self)
        requires
            old(self).run_state == RunState::Paused,
        ensures
            *final(self) == (GraphHandle { run_state: RunState::Running, ..*old(self) }),
    {
        self.run_state = RunState::Running;
    }
}

/// The run state a graph is in after the engine performs one action on it.
pub open spec fn action_effect(state: RunState, action: Action) -> RunState {
    match action {
        Action::Stop => RunState::Stopped,
        Action::Start => RunState::Running,
        Action::Pause => RunState::Paused,
        Action::Resume => RunState::Running,
        _ => state,
    }
}

/// The run state a graph is in after the engine performs a sequence of
/// actions on it, first to last.
pub open spec fn run_state_after(state: RunState, actions: Seq<Action>) -> RunState
    decreases actions.len(),
{
    if actions.len() == 0 {
        state
    } else {
        run_state_after(action_effect(state, actions[0]), actions.skip(1))
    }
}

} // verus!
