use cortex_mem::sessions::{
    day_dir_uri, is_listed_session_dir, message_saved_text, message_uri, parse_role,
    resolve_thread_id, timeline_parts, AppError, MessageRole, MessageTimestamp,
};

#[test]
fn roles_parse_without_case() {
    assert_eq!(parse_role("user").unwrap(), MessageRole::User);
    assert_eq!(parse_role("Assistant").unwrap(), MessageRole::Assistant);
    assert_eq!(parse_role("SYSTEM").unwrap(), MessageRole::System);
}

#[test]
fn unknown_role_is_bad_request() {
    match parse_role("robot") {
        Err(AppError::BadRequest(m)) => assert_eq!(m, "Invalid role: robot"),
        _ => panic!("expected a bad request"),
    }
    assert!(matches!(parse_role("users"), Err(AppError::BadRequest(_))));
    assert!(matches!(parse_role(""), Err(AppError::BadRequest(_))));
}

#[test]
fn timeline_parts_of_known_instant() {
    // 2023-11-14 22:13:20 UTC
    let p = timeline_parts(&MessageTimestamp { secs: 1_700_000_000, nanos: 0 }).unwrap();
    assert_eq!(p.month, "2023-11");
    assert_eq!(p.day, "14");
    assert_eq!(p.time, "22_13_20");
    let epoch = timeline_parts(&MessageTimestamp { secs: 0, nanos: 0 }).unwrap();
    assert_eq!(epoch.month, "1970-01");
    assert_eq!(epoch.day, "01");
    assert_eq!(epoch.time, "00_00_00");
}

#[test]
fn unrepresentable_instant_has_no_parts() {
    assert!(timeline_parts(&MessageTimestamp { secs: i64::MAX, nanos: 0 }).is_none());
}

#[test]
fn message_and_day_uris() {
    let p = timeline_parts(&MessageTimestamp { secs: 1_700_000_000, nanos: 5 }).unwrap();
    assert_eq!(day_dir_uri("t-1", &p), "cortex://session/t-1/timeline/2023-11/14");
    let uri = message_uri("t-1", &p, "0123456789abcdef");
    assert_eq!(uri, "cortex://session/t-1/timeline/2023-11/14/22_13_20_01234567.md");
    assert_eq!(message_saved_text(&uri), format!("Message saved to {}", uri));
}

#[test]
fn given_thread_id_is_kept() {
    assert_eq!(resolve_thread_id(Some("abc".to_string())), "abc");
}

#[test]
fn fresh_thread_id_is_a_v4_uuid() {
    let a = resolve_thread_id(None);
    let b = resolve_thread_id(None);
    assert_eq!(a.len(), 36);
    let chars: Vec<char> = a.chars().collect();
    for (i, c) in chars.iter().enumerate() {
        if [8, 13, 18, 23].contains(&i) {
            assert_eq!(*c, '-');
        } else {
            assert!(c.is_ascii_hexdigit() && !c.is_ascii_uppercase());
        }
    }
    assert_eq!(chars[14], '4');
    assert!("89ab".contains(chars[19]));
    assert_ne!(a, b);
}

#[test]
fn hidden_session_dirs_are_skipped() {
    assert!(is_listed_session_dir("thread-1"));
    assert!(!is_listed_session_dir(".hidden"));
    assert!(is_listed_session_dir(""));
}
