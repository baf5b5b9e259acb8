use cortex_mem::close_wait::{is_close_wait_ready, CloseAndWaitResponse};

fn status(text: &str, count: usize, confirmed: bool) -> CloseAndWaitResponse {
    CloseAndWaitResponse {
        thread_id: "t1".to_string(),
        status: text.to_string(),
        user_id: "default".to_string(),
        agent_id: "default".to_string(),
        waited_ms: 0,
        user_index_exists: true,
        user_memory_count: 3,
        session_summary_exists: true,
        session_summary_memory_count: count,
        vector_sync_confirmed: confirmed,
        timeline_abstract_exists: false,
        timeline_overview_exists: false,
    }
}

#[test]
fn ready_when_closed_and_synced() {
    assert!(is_close_wait_ready(&status("Closed", 2, true)));
    assert!(is_close_wait_ready(&status("CLOSED", 1, true)));
}

#[test]
fn not_ready_without_memories_or_sync() {
    assert!(!is_close_wait_ready(&status("Closed", 0, true)));
    assert!(!is_close_wait_ready(&status("Closed", 2, false)));
    assert!(!is_close_wait_ready(&status("Active", 2, true)));
}

use cortex_mem::close_wait::{
    close_wait_status, memories_to_sync, next_close_wait_step, owner_or_default,
    resolve_close_wait_request, session_summary, timeline_layer_path, user_index_path,
    vector_check_plan, CloseAndWaitRequest, CloseWaitStep, MemoryFile, SessionExtraction,
    SessionSummaryEntry, UserMemoryIndex,
};
use cortex_mem::sessions::AppError;

#[test]
fn default_request_and_validation() {
    let r = resolve_close_wait_request(None).unwrap();
    assert_eq!((r.timeout_secs, r.poll_interval_ms), (120, 500));
    let given = CloseAndWaitRequest { timeout_secs: 5, poll_interval_ms: 50 };
    let r = resolve_close_wait_request(Some(given)).unwrap();
    assert_eq!((r.timeout_secs, r.poll_interval_ms), (5, 50));
    match resolve_close_wait_request(Some(CloseAndWaitRequest { timeout_secs: 0, poll_interval_ms: 0 })) {
        Err(AppError::BadRequest(m)) => assert_eq!(m, "timeout_secs must be greater than 0"),
        _ => panic!(),
    }
    match resolve_close_wait_request(Some(CloseAndWaitRequest { timeout_secs: 1, poll_interval_ms: 0 })) {
        Err(AppError::BadRequest(m)) => assert_eq!(m, "poll_interval_ms must be greater than 0"),
        _ => panic!(),
    }
}

#[test]
fn owners_default() {
    assert_eq!(owner_or_default(None), "default");
    assert_eq!(owner_or_default(Some("u7".to_string())), "u7");
}

#[test]
fn wait_steps() {
    let req = CloseAndWaitRequest { timeout_secs: 2, poll_interval_ms: 10 };
    assert!(matches!(next_close_wait_step("t", &status("Closed", 1, true), &req, 5_000_000_000), CloseWaitStep::Respond));
    assert!(matches!(next_close_wait_step("t", &status("Closed", 0, true), &req, 1_999_999_999), CloseWaitStep::Sleep));
    match next_close_wait_step("t9", &status("Active", 1, true), &req, 2_345_678_901) {
        CloseWaitStep::Fail(AppError::Internal(m)) => {
            assert_eq!(m, "Timed out waiting for session t9 memory readiness after 2345 ms")
        }
        _ => panic!("expected a timeout"),
    }
}

fn index() -> UserMemoryIndex {
    UserMemoryIndex {
        memories: vec![
            MemoryFile { id: "m1".to_string(), file: "preferences/m1.md".to_string() },
            MemoryFile { id: "m2".to_string(), file: "entities/m2.md".to_string() },
        ],
        session_summaries: vec![SessionSummaryEntry {
            thread_id: "t1".to_string(),
            summary: SessionExtraction {
                memories_created: vec!["m1".to_string(), "gone".to_string()],
                memories_updated: vec!["m2".to_string()],
            },
        }],
    }
}

#[test]
fn summaries_and_sync_uris() {
    let ix = index();
    assert!(session_summary(&ix, "t2").is_none());
    let s = session_summary(&ix, "t1").unwrap();
    assert_eq!(
        memories_to_sync("alice", &ix, s),
        vec!["cortex://user/alice/preferences/m1.md", "cortex://user/alice/entities/m2.md"]
    );
    let plan = vector_check_plan("alice", &ix, s);
    assert_eq!(plan.uris, vec!["cortex://user/alice/preferences/m1.md"]);
    assert!(!plan.all_indexed);
    assert!(plan.has_memories);
    assert!(!plan.confirmed(true));
}

#[test]
fn full_plan_confirms_when_all_present() {
    let ix = index();
    let s = SessionExtraction { memories_created: vec!["m2".to_string()], memories_updated: vec!["m1".to_string()] };
    let plan = vector_check_plan("bob", &ix, &s);
    assert_eq!(plan.uris, vec!["cortex://user/bob/entities/m2.md", "cortex://user/bob/preferences/m1.md"]);
    assert!(plan.confirmed(true));
    assert!(!plan.confirmed(false));
    let empty = SessionExtraction { memories_created: vec![], memories_updated: vec![] };
    let plan = vector_check_plan("bob", &ix, &empty);
    assert!(plan.uris.is_empty());
    assert!(!plan.confirmed(true));
}

#[test]
fn status_assembly() {
    let ix = index();
    let st = close_wait_status("t1", Some("Closed".to_string()), "alice", "agent", 42, Some(&ix), true, true, false);
    assert_eq!(st.status, "Closed");
    assert!(st.user_index_exists);
    assert_eq!(st.user_memory_count, 2);
    assert!(st.session_summary_exists);
    assert_eq!(st.session_summary_memory_count, 3);
    assert_eq!(st.waited_ms, 42);
    assert!(is_close_wait_ready(&st));
    let none = close_wait_status("t1", None, "alice", "agent", 0, None, false, false, false);
    assert_eq!(none.status, "Unknown");
    assert!(!none.user_index_exists);
    assert_eq!(none.user_memory_count, 0);
    assert_eq!(none.session_summary_memory_count, 0);
    let other = close_wait_status("t2", None, "a", "b", 0, Some(&ix), false, false, false);
    assert!(other.user_index_exists && !other.session_summary_exists);
}

#[test]
fn path_components() {
    assert_eq!(user_index_path("u"), vec!["user", "u", ".memory_index.json"]);
    assert_eq!(timeline_layer_path("t", ".abstract.md"), vec!["session", "t", "timeline", ".abstract.md"]);
}
