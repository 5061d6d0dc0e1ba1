use stream_supervisor::compositing::{build_compositor_pipeline, visible_input, TopInput};
use stream_supervisor::config::{
    BridgeSyncPolicy, BuildError, CompositorConfig, FaultInjectionSpec, IngestionConfig,
    CANVAS_HEIGHT, CANVAS_WIDTH, FALLBACK_SOURCE_HEIGHT, FALLBACK_SOURCE_WIDTH,
    MAX_STALENESS_SECONDS,
};
use stream_supervisor::ingestion::{build_rtmp_pipeline, fault_at, SyntheticFault};
use stream_supervisor::lifecycle::{Action, LifecycleEvent, RecoveryPolicy, RunState};
use stream_supervisor::reactor::{default_handle_message, restart_pipeline, RestartAttempt, Supervisor};

fn ingestion_config(eos_after: Option<i32>, error_after: Option<i32>) -> IngestionConfig {
    IngestionConfig {
        live_uri: String::from("rtmp://example/live"),
        fault: FaultInjectionSpec { eos_after, error_after },
    }
}

fn compositor_config(discard_after_seconds: Option<u64>) -> CompositorConfig {
    CompositorConfig {
        discard_after_seconds,
        sync_policy: BridgeSyncPolicy::RestartTimestamps,
    }
}

fn running_ingestion_supervisor(uri: &str) -> Supervisor {
    let mut sup = Supervisor::new(
        String::from(uri),
        RecoveryPolicy::AutoRestartOnErrorAndEos,
        0,
    );
    sup.start();
    sup
}

#[test]
fn eos_fault_fires_exactly_at_its_count() {
    let fault = FaultInjectionSpec { eos_after: Some(3), error_after: None };
    for published in 0..10 {
        let emitted = fault_at(&fault, published);
        if published == 3 {
            assert_eq!(emitted, Some(SyntheticFault::EndOfStream));
        } else {
            assert_eq!(emitted, None);
        }
    }
}

#[test]
fn error_fault_fires_exactly_at_its_count() {
    let fault = FaultInjectionSpec { eos_after: Some(7), error_after: Some(4) };
    for published in 0..10 {
        let emitted = fault_at(&fault, published);
        if published == 4 {
            assert_eq!(emitted, Some(SyntheticFault::Error));
        } else if published == 7 {
            assert_eq!(emitted, Some(SyntheticFault::EndOfStream));
        } else {
            assert_eq!(emitted, None);
        }
    }
}

#[test]
fn eos_restarts_without_throttle() {
    let mut sup = running_ingestion_supervisor("rtmp://example/live");
    let actions = sup.handle_event(&LifecycleEvent::EndOfStream);
    assert_eq!(actions.len(), 3);
    assert!(matches!(actions[0], Action::Stop));
    assert!(matches!(&actions[1], Action::ApplySourceUri(u) if u.as_str() == "rtmp://example/live"));
    assert!(matches!(actions[2], Action::Start));
    assert!(!actions.iter().any(|a| matches!(a, Action::Throttle)));
    assert_eq!(sup.handle.run_state, RunState::Running);
}

#[test]
fn error_restarts_once_with_original_uri() {
    let mut sup = running_ingestion_supervisor("rtmp://example/live");
    let actions = sup.handle_event(&LifecycleEvent::Error {
        detail: String::from("connection reset"),
    });
    assert_eq!(actions.len(), 4);
    assert!(matches!(actions[0], Action::Throttle));
    assert!(matches!(actions[1], Action::Stop));
    assert!(matches!(&actions[2], Action::ApplySourceUri(u) if u.as_str() == "rtmp://example/live"));
    assert!(matches!(actions[3], Action::Start));
    let stops = actions.iter().filter(|a| matches!(a, Action::Stop)).count();
    let starts = actions.iter().filter(|a| matches!(a, Action::Start)).count();
    let throttles = actions.iter().filter(|a| matches!(a, Action::Throttle)).count();
    assert_eq!((stops, starts, throttles), (1, 1, 1));
    assert_eq!(sup.handle.run_state, RunState::Running);
    assert_eq!(sup.uri, "rtmp://example/live");
}

#[test]
fn buffering_sequence_pauses_once_and_resumes_once() {
    let mut sup = running_ingestion_supervisor("rtmp://example/live");
    assert_eq!(sup.handle.run_state, RunState::Running);

    let at_30 = sup.handle_event(&LifecycleEvent::Buffering { percent: 30 });
    assert_eq!(at_30.len(), 1);
    assert!(matches!(at_30[0], Action::Pause));
    assert_eq!(sup.handle.run_state, RunState::Paused);

    let at_60 = sup.handle_event(&LifecycleEvent::Buffering { percent: 60 });
    assert!(at_60.is_empty());
    assert_eq!(sup.handle.run_state, RunState::Paused);

    let at_100 = sup.handle_event(&LifecycleEvent::Buffering { percent: 100 });
    assert_eq!(at_100.len(), 1);
    assert!(matches!(at_100[0], Action::Resume));
    assert_eq!(sup.handle.run_state, RunState::Running);
}

#[test]
fn buffering_full_while_running_is_a_no_op() {
    let mut sup = running_ingestion_supervisor("rtmp://example/live");
    let actions = sup.handle_event(&LifecycleEvent::Buffering { percent: 100 });
    assert!(actions.is_empty());
    assert_eq!(sup.handle.run_state, RunState::Running);
}

#[test]
fn staleness_deadline_reveals_fallback() {
    let config = compositor_config(Some(2));
    let plan = build_compositor_pipeline(&config).unwrap();
    assert_eq!(plan.live_layer.max_staleness_ns, Some(2_000_000_000));
    assert_eq!(plan.fallback_layer.max_staleness_ns, None);

    // A fresh frame keeps the live input on top.
    assert_eq!(visible_input(&plan.live_layer, Some(1_999_999_999)), TopInput::Live);
    // At the deadline the fallback (z-order 0) becomes visible.
    assert_eq!(visible_input(&plan.live_layer, Some(2_000_000_000)), TopInput::Fallback);
    assert_eq!(plan.fallback_layer.z_order, 0);
    // Before any live frame arrives, only the fallback can show.
    assert_eq!(visible_input(&plan.live_layer, None), TopInput::Fallback);
}

#[test]
fn no_staleness_deadline_repeats_last_frame_indefinitely() {
    let config = compositor_config(None);
    let plan = build_compositor_pipeline(&config).unwrap();
    assert_eq!(plan.live_layer.max_staleness_ns, None);
    assert_eq!(visible_input(&plan.live_layer, Some(u64::MAX)), TopInput::Live);
}

#[test]
fn zorder_and_canvas_invariant() {
    let plan = build_compositor_pipeline(&compositor_config(Some(5))).unwrap();
    let layers = [plan.fallback_layer, plan.live_layer];
    assert_eq!(layers.iter().filter(|l| l.z_order == 0).count(), 1);
    assert_eq!(layers.iter().filter(|l| l.z_order == 1).count(), 1);
    assert_eq!(plan.fallback_layer.z_order, 0);
    assert_eq!(plan.live_layer.z_order, 1);
    for layer in layers.iter() {
        assert_eq!(layer.width, CANVAS_WIDTH);
        assert_eq!(layer.height, CANVAS_HEIGHT);
        assert_eq!((layer.width, layer.height), (1280, 720));
    }
    assert_eq!(plan.fallback_source_width, FALLBACK_SOURCE_WIDTH);
    assert_eq!(plan.fallback_source_height, FALLBACK_SOURCE_HEIGHT);
    assert_eq!((plan.fallback_source_width, plan.fallback_source_height), (800, 448));
}

#[test]
fn staleness_deadline_conversion_bounds() {
    let at_limit = build_compositor_pipeline(&compositor_config(Some(MAX_STALENESS_SECONDS)));
    let plan = at_limit.unwrap();
    assert_eq!(
        plan.live_layer.max_staleness_ns,
        Some(MAX_STALENESS_SECONDS * 1_000_000_000)
    );

    let beyond = build_compositor_pipeline(&compositor_config(Some(MAX_STALENESS_SECONDS + 1)));
    assert_eq!(beyond, Err(BuildError::StalenessTooLarge));
}

#[test]
fn ingestion_plan_records_configuration() {
    let config = ingestion_config(Some(10), Some(20));
    let plan = build_rtmp_pipeline(&config);
    assert_eq!(plan.source_uri, "rtmp://example/live");
    assert_eq!(plan.publish_channel, "rtmp");
    assert!(!plan.publisher_drop_on_overrun);
    assert!(plan.publisher_sync_to_clock);
    assert!(plan.discard_audio);
    assert_eq!(plan.fault.eos_after, Some(10));
    assert_eq!(plan.fault.error_after, Some(20));
    assert!(plan.fault.is_armed());
    assert_eq!(plan.recovery, RecoveryPolicy::AutoRestartOnErrorAndEos);

    let quiet = build_rtmp_pipeline(&ingestion_config(None, None));
    assert!(!quiet.fault.is_armed());
}

#[test]
fn bridge_publisher_and_subscriber_share_the_channel() {
    let ingestion = build_rtmp_pipeline(&ingestion_config(None, None));
    let compositing = build_compositor_pipeline(&compositor_config(None)).unwrap();
    assert_eq!(ingestion.publish_channel, compositing.subscribe_channel);
}

#[test]
fn shared_reactor_handles_latency_and_own_state_change() {
    let latency = default_handle_message(&LifecycleEvent::Latency);
    assert_eq!(latency.len(), 1);
    assert!(matches!(latency[0], Action::RecalculateLatency));

    let own_running = default_handle_message(&LifecycleEvent::StateChanged {
        from_own_graph: true,
        new_state: RunState::Running,
    });
    assert_eq!(own_running.len(), 1);
    assert!(matches!(own_running[0], Action::DumpTopology));

    let foreign = default_handle_message(&LifecycleEvent::StateChanged {
        from_own_graph: false,
        new_state: RunState::Running,
    });
    assert!(foreign.is_empty());

    let own_paused = default_handle_message(&LifecycleEvent::StateChanged {
        from_own_graph: true,
        new_state: RunState::Paused,
    });
    assert!(own_paused.is_empty());

    let eos = default_handle_message(&LifecycleEvent::EndOfStream);
    assert!(eos.is_empty());
}

#[test]
fn log_only_supervisor_never_restarts() {
    let mut sup = Supervisor::new(String::new(), RecoveryPolicy::LogOnly, 1);
    sup.start();
    let on_error = sup.handle_event(&LifecycleEvent::Error { detail: String::from("boom") });
    assert!(on_error.is_empty());
    assert_eq!(sup.handle.run_state, RunState::Running);
    let on_eos = sup.handle_event(&LifecycleEvent::EndOfStream);
    assert!(on_eos.is_empty());
    let on_buffering = sup.handle_event(&LifecycleEvent::Buffering { percent: 10 });
    assert!(on_buffering.is_empty());
    assert_eq!(sup.handle.run_state, RunState::Running);
    let on_latency = sup.handle_event(&LifecycleEvent::Latency);
    assert_eq!(on_latency.len(), 1);
    assert!(matches!(on_latency[0], Action::RecalculateLatency));
}

#[test]
fn restart_attempt_is_a_stop_reapply_start_sequence() {
    let actions = restart_pipeline(RestartAttempt { uri: String::from("rtmp://a/b") });
    assert_eq!(actions.len(), 3);
    assert!(matches!(actions[0], Action::Stop));
    assert!(matches!(&actions[1], Action::ApplySourceUri(u) if u.as_str() == "rtmp://a/b"));
    assert!(matches!(actions[2], Action::Start));
}

#[test]
fn end_to_end_error_recovery_leaves_compositor_untouched() {
    // Both graphs built as the command line `--live-rtmp-uri
    // rtmp://example/live --error-after 50` asks.
    let ingestion_cfg = ingestion_config(None, Some(50));
    let ingestion_plan = build_rtmp_pipeline(&ingestion_cfg);
    let compositor_plan = build_compositor_pipeline(&compositor_config(None)).unwrap();

    let mut ingestion_sup = Supervisor::new(ingestion_plan.source_uri.clone(), ingestion_plan.recovery, 0);
    let mut compositor_sup = Supervisor::new(String::new(), compositor_plan.recovery, 1);
    ingestion_sup.start();
    compositor_sup.start();
    assert_eq!(ingestion_sup.handle.run_state, RunState::Running);
    assert_eq!(compositor_sup.handle.run_state, RunState::Running);

    // The engine reports the synthetic error after 50 buffers.
    let mut fault_event = None;
    for published in 0..=50 {
        if let Some(f) = fault_at(&ingestion_plan.fault, published) {
            assert_eq!(published, 50);
            fault_event = Some(f);
        }
    }
    assert_eq!(fault_event, Some(SyntheticFault::Error));

    let actions = ingestion_sup.handle_event(&LifecycleEvent::Error {
        detail: String::from("synthetic error after 50 buffers"),
    });
    assert_eq!(actions.len(), 4);
    assert!(matches!(actions[0], Action::Throttle));
    assert!(matches!(actions[1], Action::Stop));
    assert!(matches!(&actions[2], Action::ApplySourceUri(u) if u.as_str() == "rtmp://example/live"));
    assert!(matches!(actions[3], Action::Start));
    assert_eq!(ingestion_sup.handle.run_state, RunState::Running);

    // The compositing graph is untouched throughout.
    assert_eq!(compositor_sup.handle.run_state, RunState::Running);
    assert_eq!(compositor_sup.handle.id, 1);
}

#[test]
fn driver_teardown_stops_both_graphs() {
    let mut ingestion_sup = running_ingestion_supervisor("rtmp://example/live");
    let mut compositor_sup = Supervisor::new(String::new(), RecoveryPolicy::LogOnly, 1);
    compositor_sup.start();
    ingestion_sup.stop();
    compositor_sup.stop();
    assert_eq!(ingestion_sup.handle.run_state, RunState::Stopped);
    assert_eq!(compositor_sup.handle.run_state, RunState::Stopped);
}
