use cortex_mem::trigger::{
    elapsed_secs_between, inactive_due_at, AutoTriggerConfig, SessionRegistry, SessionState,
    TriggerState, NANOS_PER_SEC,
};

fn secs(n: u64) -> u64 {
    n * NANOS_PER_SEC
}

fn tid(s: &str) -> String {
    s.to_string()
}

#[test]
fn default_config_values() {
    let c = AutoTriggerConfig::default();
    assert_eq!(c.message_count_threshold, 10);
    assert_eq!(c.min_process_interval_secs, 300);
    assert_eq!(c.inactivity_timeout_secs, 120);
    assert!(c.enable_auto_trigger);
}

#[test]
fn elapsed_rounds_down_and_saturates() {
    assert_eq!(elapsed_secs_between(0, secs(5) + 999_999_999), 5);
    assert_eq!(elapsed_secs_between(secs(10), secs(3)), 0);
    assert_eq!(elapsed_secs_between(secs(7), secs(7)), 0);
}

#[test]
fn tenth_message_triggers_processing() {
    let mut t = TriggerState::with_config(AutoTriggerConfig::default());
    let id = tid("s1");
    for i in 1..10u64 {
        assert!(!t.check_and_trigger_processing(&id, secs(i), 1000 + i));
        assert_eq!(t.sessions.get(&id).unwrap().message_count, i as usize);
    }
    assert_eq!(t.last_global_process, 0);
    assert!(t.check_and_trigger_processing(&id, secs(10), 5555));
    let s = t.sessions.get(&id).unwrap();
    assert_eq!(s.message_count, 0);
    assert_eq!(s.last_processed, Some(secs(10)));
    assert_eq!(s.last_message, secs(10));
    assert_eq!(t.last_global_process, 5555);
}

#[test]
fn min_interval_blocks_repeated_processing() {
    let config = AutoTriggerConfig {
        message_count_threshold: 2,
        min_process_interval_secs: 300,
        inactivity_timeout_secs: 120,
        enable_auto_trigger: true,
    };
    let mut t = TriggerState::with_config(config);
    let id = tid("s");
    assert!(!t.check_and_trigger_processing(&id, secs(1), 1));
    assert!(t.check_and_trigger_processing(&id, secs(2), 2));
    assert!(!t.check_and_trigger_processing(&id, secs(3), 3));
    // Threshold reached again but only 299 s after the processing.
    assert!(!t.check_and_trigger_processing(&id, secs(301), 4));
    assert_eq!(t.sessions.get(&id).unwrap().message_count, 2);
    // 300 s after it: allowed.
    assert!(t.check_and_trigger_processing(&id, secs(302), 5));
    assert_eq!(t.last_global_process, 5);
}

#[test]
fn disabled_config_changes_nothing() {
    let mut config = AutoTriggerConfig::default();
    config.enable_auto_trigger = false;
    config.message_count_threshold = 0;
    let mut t = TriggerState::with_config(config);
    let id = tid("x");
    assert!(!t.check_and_trigger_processing(&id, secs(1), 1));
    assert!(t.sessions.get(&id).is_none());
    assert_eq!(t.sessions.len(), 0);
    assert!(t.collect_inactive_sessions(secs(10_000)).is_empty());
}

#[test]
fn other_sessions_keep_their_state() {
    let mut t = TriggerState::with_config(AutoTriggerConfig::default());
    let a = tid("a");
    let b = tid("b");
    t.check_and_trigger_processing(&a, secs(1), 1);
    t.check_and_trigger_processing(&a, secs(2), 2);
    t.check_and_trigger_processing(&b, secs(3), 3);
    assert_eq!(t.sessions.get(&a).unwrap().message_count, 2);
    assert_eq!(t.sessions.get(&a).unwrap().last_message, secs(2));
    assert_eq!(t.sessions.get(&b).unwrap().message_count, 1);
    assert_eq!(t.sessions.len(), 2);
}

#[test]
fn inactivity_sweep_selects_idle_sessions_once() {
    let mut t = TriggerState::with_config(AutoTriggerConfig::default());
    let idle = tid("idle");
    let busy = tid("busy");
    t.check_and_trigger_processing(&idle, secs(0), 0);
    t.check_and_trigger_processing(&busy, secs(100), 0);
    // At 125 s: idle has been quiet for 125 s, busy for 25 s.
    let due = t.collect_inactive_sessions(secs(125));
    assert_eq!(due, vec![idle.clone()]);
    let s = t.sessions.get(&idle).unwrap();
    assert_eq!(s.message_count, 0);
    assert_eq!(s.last_processed, Some(secs(125)));
    assert_eq!(t.sessions.get(&busy).unwrap().message_count, 1);
    // A second sweep at the same time selects nothing.
    assert!(t.collect_inactive_sessions(secs(125)).is_empty());
}

#[test]
fn inactivity_sweep_respects_min_interval_and_empty_sessions() {
    let config = AutoTriggerConfig {
        message_count_threshold: 1,
        min_process_interval_secs: 300,
        inactivity_timeout_secs: 10,
        enable_auto_trigger: true,
    };
    let mut t = TriggerState::with_config(config);
    let id = tid("s");
    // The first message triggers at once.
    assert!(t.check_and_trigger_processing(&id, secs(0), 0));
    // Nothing to process: counter is zero.
    assert!(t.collect_inactive_sessions(secs(50)).is_empty());
    let mut registry = SessionRegistry::new();
    registry.put(
        &id,
        SessionState { message_count: 3, last_processed: Some(secs(0)), last_message: secs(20) },
    );
    t.sessions = registry;
    // Idle long enough, but within the minimum interval.
    assert!(t.collect_inactive_sessions(secs(100)).is_empty());
    assert_eq!(t.collect_inactive_sessions(secs(300)), vec![id.clone()]);
}

#[test]
fn due_predicate_examples() {
    let c = AutoTriggerConfig::default();
    let s = SessionState { message_count: 1, last_processed: None, last_message: 0 };
    assert!(!inactive_due_at(&c, &s, secs(119)));
    assert!(inactive_due_at(&c, &s, secs(120)));
    let empty = SessionState::started_at(0);
    assert!(!inactive_due_at(&c, &empty, secs(1_000)));
}

#[test]
fn should_trigger_inner_examples() {
    let t = TriggerState::with_config(AutoTriggerConfig::default());
    let s = SessionState { message_count: 10, last_processed: Some(secs(0)), last_message: 0 };
    assert!(!t.should_trigger_processing_inner(&s, secs(299)));
    assert!(t.should_trigger_processing_inner(&s, secs(300)));
    let few = SessionState { message_count: 9, last_processed: None, last_message: 0 };
    assert!(!t.should_trigger_processing_inner(&few, secs(1)));
}

#[test]
fn registry_put_replaces() {
    let mut r = SessionRegistry::new();
    let id = tid("k");
    r.put(&id, SessionState::started_at(5));
    r.put(&id, SessionState { message_count: 4, last_processed: None, last_message: 9 });
    assert_eq!(r.len(), 1);
    assert_eq!(r.get(&id).unwrap().message_count, 4);
    assert!(r.get(&tid("other")).is_none());
}

#[test]
fn idle_session_is_processed_on_next_store() {
    let mut t = TriggerState::with_config(AutoTriggerConfig::default());
    let id = tid("t");
    let mut registry = SessionRegistry::new();
    registry.put(&id, SessionState { message_count: 3, last_processed: None, last_message: secs(1000) });
    t.sessions = registry;
    // The last message came 200 s ago, past the 120 s inactivity timeout.
    assert!(t.check_and_trigger_processing(&id, secs(1200), 42));
    let s = t.sessions.get(&id).unwrap();
    assert_eq!(s.message_count, 0);
    assert_eq!(s.last_processed, Some(secs(1200)));
    assert_eq!(s.last_message, secs(1200));
    assert_eq!(t.last_global_process, 42);
}

#[test]
fn store_within_timeout_only_counts() {
    let mut t = TriggerState::with_config(AutoTriggerConfig::default());
    let id = tid("t");
    let mut registry = SessionRegistry::new();
    registry.put(&id, SessionState { message_count: 3, last_processed: None, last_message: secs(1000) });
    t.sessions = registry;
    assert!(!t.check_and_trigger_processing(&id, secs(1119), 1));
    let s = t.sessions.get(&id).unwrap();
    assert_eq!(s.message_count, 4);
    assert_eq!(s.last_message, secs(1119));
}

#[test]
fn idle_store_waits_for_min_interval() {
    let mut t = TriggerState::with_config(AutoTriggerConfig::default());
    let id = tid("t");
    let mut registry = SessionRegistry::new();
    registry.put(&id, SessionState { message_count: 3, last_processed: Some(secs(900)), last_message: secs(950) });
    t.sessions = registry;
    // Idle for 200 s, but only 250 s since the last processing.
    assert!(!t.check_and_trigger_processing(&id, secs(1150), 1));
    assert_eq!(t.sessions.get(&id).unwrap().message_count, 4);
}

#[test]
fn first_store_of_a_session_is_never_idle() {
    let mut t = TriggerState::with_config(AutoTriggerConfig::default());
    let id = tid("new");
    assert!(!t.check_and_trigger_processing(&id, secs(1_000_000), 1));
    assert_eq!(t.sessions.get(&id).unwrap().message_count, 1);
}

#[test]
fn stores_and_sweeps_interleaved() {
    let mut t = TriggerState::with_config(AutoTriggerConfig::default());
    let id = tid("s");
    assert!(!t.check_and_trigger_processing(&id, secs(0), 0));
    assert_eq!(t.collect_inactive_sessions(secs(130)), vec![id.clone()]);
    // No store since the processing: nothing to do, however long the wait.
    assert!(t.collect_inactive_sessions(secs(500)).is_empty());
    // The next store finds the session idle for 501 s and 371 s past the processing.
    assert!(t.check_and_trigger_processing(&id, secs(501), 1));
    assert!(!t.check_and_trigger_processing(&id, secs(502), 2));
    // Idle, but only 139 s since the processing.
    assert!(t.collect_inactive_sessions(secs(640)).is_empty());
    assert_eq!(t.collect_inactive_sessions(secs(801)), vec![id.clone()]);
    // A store finds the session idle, but the minimum interval has not passed.
    assert!(!t.check_and_trigger_processing(&id, secs(900), 3));
    assert_eq!(t.sessions.get(&id).unwrap().message_count, 1);
    assert_eq!(t.last_global_process, 1);
}
