//! The event reactor: the shared default handler, the per-graph supervisor
//! with its recovery state machine, and the restart action.

use vstd::prelude::*;

use crate::lifecycle::{
    action_effect, run_state_after, Action, GraphHandle, LifecycleEvent, RecoveryPolicy, RunState,
};

verus! {

/// Actions of the shared event reactor: latency renegotiation and a
/// topology snapshot when the graph's own root reports it reached
/// `Running`. Every other event kind is a no-op here, left to a
/// graph-specific handler.
pub open spec fn shared_actions(event: LifecycleEvent) -> Seq<Action> {
    match event {
        LifecycleEvent::Latency => seq![Action::RecalculateLatency],
        LifecycleEvent::StateChanged { from_own_graph, new_state } => {
            if from_own_graph && new_state == RunState::Running {
                seq![Action::DumpTopology]
            } else {
                Seq::empty()
            }
        },
        _ => Seq::empty(),
    }
}

/// The shared event reactor, used directly by the compositing supervisor
/// and as the fallback of the ingestion supervisor for event kinds its
/// recovery state machine does not own.
pub fn default_handle_message(event: &LifecycleEvent) -> (actions: Vec<Action>)
    ensures
        actions@ == shared_actions(*event),
{
    match event {
        LifecycleEvent::Latency => vec![Action::RecalculateLatency],
        LifecycleEvent::StateChanged { from_own_graph, new_state } => {
            if *from_own_graph {
                match new_state {
                    RunState::Running => vec![Action::DumpTopology],
                    _ => Vec::new(),
                }
            } else {
                Vec::new()
            }
        },
        _ => Vec::new(),
    }
}

/// Transient capture of the ingestion source target for one recovery
/// action; it exists only for the duration of that action.
pub struct RestartAttempt {
    /// The originally configured source target, re-applied verbatim.
    pub uri: String,
}

/// The restart action sequence: stop the graph, re-point its source at the
/// captured target, start it again. `Running` is re-entered only through
/// this explicit stop/start pair.
pub open spec fn restart_actions(uri: String) -> Seq<Action> {
    seq![Action::Stop, Action::ApplySourceUri(uri), Action::Start]
}

/// Build the synchronous restart sequence for one recovery attempt,
/// consuming the attempt.
pub fn restart_pipeline(attempt: RestartAttempt) -> (actions: Vec<Action>)
    ensures
        actions@ == restart_actions(attempt.uri),
{
    vec![Action::Stop, Action::ApplySourceUri(attempt.uri), Action::Start]
}

/// One graph's supervisor: the handle it exclusively owns, the originally
/// configured source target, and its recovery policy.
pub struct Supervisor {
    /// The supervised graph.
    pub handle: GraphHandle,
    /// The source target configured at build time; never mutated, so every
    /// restart re-applies the original value.
    pub uri: String,
    /// How faults on this graph are handled.
    pub policy: RecoveryPolicy,
}

/// The run state the supervisor records after reacting to one event.
pub open spec fn step_state(sup: Supervisor, event: LifecycleEvent) -> RunState {
    match sup.policy {
        RecoveryPolicy::LogOnly => sup.handle.run_state,
        RecoveryPolicy::AutoRestartOnErrorAndEos => match event {
            LifecycleEvent::Error { .. } => RunState::Running,
            LifecycleEvent::EndOfStream => RunState::Running,
            LifecycleEvent::Buffering { percent } => {
                if sup.handle.run_state == RunState::Running && percent < 100 {
                    RunState::Paused
                } else if sup.handle.run_state == RunState::Paused && percent >= 100 {
                    RunState::Running
                } else {
                    sup.handle.run_state
                }
            },
            _ => sup.handle.run_state,
        },
    }
}

/// The actions the supervisor emits in reaction to one event: the recovery
/// state machine under `AutoRestartOnErrorAndEos`, the shared reactor alone
/// under `LogOnly`, and the shared reactor as the fallback for event kinds
/// the state machine does not own.
pub open spec fn step_actions(sup: Supervisor, event: LifecycleEvent) -> Seq<Action> {
    match sup.policy {
        RecoveryPolicy::LogOnly => shared_actions(event),
        RecoveryPolicy::AutoRestartOnErrorAndEos => match event {
            LifecycleEvent::Error { .. } => seq![Action::Throttle] + restart_actions(sup.uri),
            LifecycleEvent::EndOfStream => restart_actions(sup.uri),
            LifecycleEvent::Buffering { percent } => {
                if sup.handle.run_state == RunState::Running && percent < 100 {
                    seq![Action::Pause]
                } else if sup.handle.run_state == RunState::Paused && percent >= 100 {
                    seq![Action::Resume]
                } else {
                    Seq::empty()
                }
            },
            _ => shared_actions(event),
        },
    }
}

impl Supervisor {
    /// Attach a supervisor to a freshly constructed, stopped graph.
    pub fn new(uri: String, policy: RecoveryPolicy, graph_id: u64) -> (sup: Supervisor)
        ensures
            sup.uri == uri,
            sup.policy == policy,
            sup.handle == (GraphHandle { id: graph_id, run_state: RunState::Stopped }),
    {
        Supervisor { handle: GraphHandle::new(graph_id), uri, policy }
    }

    /// Start the supervised graph; the process driver calls this once for
    /// each graph before entering its event loop.
    pub fn start(&mut self)
        requires
            old(self).handle.run_state == RunState::Stopped,
        ensures
            *final(self) == (Supervisor {
                handle: GraphHandle { run_state: RunState::Running, ..old(self).handle },
                ..*old(self)
            }),
    {
        self.handle.start();
    }

    /// Stop the supervised graph; the process driver calls this on
    /// termination, whatever state the graph is in.
    pub fn stop(&mut self)
        ensures
            *final(self) == (Supervisor {
                handle: GraphHandle { run_state: RunState::Stopped, ..old(self).handle },
                ..*old(self)
            }),
    {
        self.handle.stop();
    }

    /// React to one lifecycle event of the supervised graph: record the
    /// resulting run state and return, in order, the actions the engine is
    /// asked to perform. The configured source target and the policy are
    /// never changed, so a restart always re-applies the original target.
    pub fn handle_event(&mut self, event: &LifecycleEvent) -> (actions: Vec<Action>)
        ensures
            final(self).uri == old(self).uri,
            final(self).policy == old(self).policy,
            final(self).handle.id == old(self).handle.id,
            final(self).handle.run_state == step_state(*old(self), *event),
            actions@ == step_actions(*old(self), *event),
    {
        match self.policy {
            RecoveryPolicy::LogOnly => default_handle_message(event),
            RecoveryPolicy::AutoRestartOnErrorAndEos => match event {
                LifecycleEvent::Error { .. } => {
                    let mut actions: Vec<Action> = vec![Action::Throttle];
                    let mut rest = restart_pipeline(RestartAttempt { uri: self.uri.clone() });
                    actions.append(&mut rest);
                    self.handle.stop();
                    self.handle.start();
                    proof {
                        assert(actions@ =~= step_actions(*old(self), *event));
                    }
                    actions
                },
                LifecycleEvent::EndOfStream => {
                    let actions = restart_pipeline(RestartAttempt { uri: self.uri.clone() });
                    self.handle.stop();
                    self.handle.start();
                    actions
                },
                LifecycleEvent::Buffering { percent } => {
                    match self.handle.run_state {
                        RunState::Running => {
                            if *percent < 100 {
                                self.handle.pause();
                                vec![Action::Pause]
                            } else {
                                Vec::new()
                            }
                        },
                        RunState::Paused => {
                            if *percent >= 100 {
                                self.handle.resume();
                                vec![Action::Resume]
                            } else {
                                Vec::new()
                            }
                        },
                        RunState::Stopped => Vec::new(),
                    }
                },
                _ => default_handle_message(event),
            },
        }
    }
}

/// Under the auto-restart policy, an end-of-stream event triggers exactly
/// one restart sequence — stop, re-apply the configured source target,
/// start — with no throttle delay before it, and the graph is recorded
/// `Running` again.
pub proof fn lemma_eos_restarts_immediately(sup: Supervisor, event: LifecycleEvent)
    requires
        sup.policy == RecoveryPolicy::AutoRestartOnErrorAndEos,
        event is EndOfStream,
    ensures
        step_actions(sup, event) == restart_actions(sup.uri),
        forall|i: int|
            0 <= i < step_actions(sup, event).len() ==> step_actions(sup, event)[i]
                != Action::Throttle,
        step_state(sup, event) == RunState::Running,
{
    assert forall|i: int| 0 <= i < step_actions(sup, event).len() implies step_actions(sup, event)[i]
        != Action::Throttle by {
        assert(restart_actions(sup.uri)[0] == Action::Stop);
        assert(restart_actions(sup.uri)[1] == Action::ApplySourceUri(sup.uri));
        assert(restart_actions(sup.uri)[2] == Action::Start);
    }
}

/// Under the auto-restart policy, an error event triggers exactly one
/// restart sequence, preceded by exactly one throttle delay, and the source
/// target it re-applies is the supervisor's originally configured one —
/// which `handle_event` never mutates.
pub proof fn lemma_error_restarts_with_original_uri(sup: Supervisor, event: LifecycleEvent)
    requires
        sup.policy == RecoveryPolicy::AutoRestartOnErrorAndEos,
        event is Error,
    ensures
        step_actions(sup, event) == seq![
            Action::Throttle,
            Action::Stop,
            Action::ApplySourceUri(sup.uri),
            Action::Start,
        ],
        step_state(sup, event) == RunState::Running,
{
    assert(step_actions(sup, event) =~= seq![
        Action::Throttle,
        Action::Stop,
        Action::ApplySourceUri(sup.uri),
        Action::Start,
    ]);
}

/// A log-only supervisor is passive: no event changes its recorded run
/// state, and the only actions it ever emits are the shared reactor's
/// latency renegotiation and topology snapshot — never a stop, start,
/// pause, resume, source re-target or throttle.
pub proof fn lemma_log_only_is_passive(sup: Supervisor, event: LifecycleEvent)
    requires
        sup.policy == RecoveryPolicy::LogOnly,
    ensures
        step_state(sup, event) == sup.handle.run_state,
        step_actions(sup, event) == shared_actions(event),
        forall|i: int|
            0 <= i < step_actions(sup, event).len() ==> (#[trigger] step_actions(sup, event)[i]
                == Action::RecalculateLatency || step_actions(sup, event)[i]
                == Action::DumpTopology),
{
}

/// Replaying a restart sequence through `action_effect` leaves the graph
/// `Running`, whatever state it was in: the stop/start pair drives it to
/// `Stopped` and then to `Running`.
pub proof fn lemma_restart_actions_end_running(state: RunState, uri: String)
    ensures
        run_state_after(state, restart_actions(uri)) == RunState::Running,
{
    let acts = restart_actions(uri);
    assert(acts.skip(1) =~= seq![Action::ApplySourceUri(uri), Action::Start]);
    assert(acts.skip(1).skip(1) =~= seq![Action::Start]);
    assert(seq![Action::Start].skip(1) =~= Seq::<Action>::empty());
    reveal_with_fuel(run_state_after, 5);
}

/// The run state the supervisor records after an event agrees with the
/// effect of the actions it emits for that event, replayed in order on the
/// state it was in: the recorded state never gets ahead of, or behind, what
/// the engine is asked to do.
pub proof fn lemma_recorded_state_matches_actions(sup: Supervisor, event: LifecycleEvent)
    ensures
        run_state_after(sup.handle.run_state, step_actions(sup, event)) == step_state(sup, event),
{
    let state = sup.handle.run_state;
    let acts = step_actions(sup, event);
    reveal_with_fuel(run_state_after, 5);
    if acts =~= Seq::<Action>::empty() {
    } else {
        match sup.policy {
            RecoveryPolicy::LogOnly => {
                lemma_shared_actions_keep_state(state, event);
            },
            RecoveryPolicy::AutoRestartOnErrorAndEos => {
                match event {
                    LifecycleEvent::Error { .. } => {
                        assert(acts.skip(1) =~= restart_actions(sup.uri));
                        lemma_restart_actions_end_running(state, sup.uri);
                    },
                    LifecycleEvent::EndOfStream => {
                        lemma_restart_actions_end_running(state, sup.uri);
                    },
                    LifecycleEvent::Buffering { .. } => {
                        assert(acts.skip(1) =~= Seq::<Action>::empty());
                    },
                    _ => {
                        lemma_shared_actions_keep_state(state, event);
                    },
                }
            },
        }
    }
}

/// The shared reactor's actions never change a graph's run state.
proof fn lemma_shared_actions_keep_state(state: RunState, event: LifecycleEvent)
    ensures
        run_state_after(state, shared_actions(event)) == state,
{
    reveal_with_fuel(run_state_after, 3);
    let acts = shared_actions(event);
    if acts.len() > 0 {
        assert(acts.skip(1) =~= Seq::<Action>::empty());
    }
}

} // verus!
