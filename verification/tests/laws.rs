use cortex_mem::cli::{group_by_collection, pruned_count, DanglingPoint};
use cortex_mem::close_wait::{memories_to_sync, vector_check_plan, MemoryFile, SessionExtraction, UserMemoryIndex};
use cortex_mem::mcp::{ls_args, search_args, store_result, store_target, LsArgsMcp, SearchArgsMcp, StoreArgs};
use cortex_mem::sessions::{message_uri, timeline_parts, MessageTimestamp};
use cortex_mem::tools::{get_mcp_tool_definition, DefaultValue};

#[test]
fn stored_message_id_is_its_file_name() {
    let parts = timeline_parts(&MessageTimestamp { secs: 1_700_000_000, nanos: 0 }).unwrap();
    let uri = message_uri("thread", &parts, "abcdef0123456789");
    assert_eq!(store_result(uri).message_id, "22_13_20_abcdef01");
}

#[test]
fn tool_defaults_match_catalog() {
    let search = get_mcp_tool_definition("search").unwrap();
    let request = search_args(&SearchArgsMcp { query: "q".into(), scope: None, limit: None, min_score_bits: None, return_layers: None });
    match &search.input_schema.properties[2].default {
        Some(DefaultValue::Integer(n)) => assert_eq!(Some(*n as usize), request.limit),
        _ => panic!(),
    }
    match &search.input_schema.properties[4].default {
        Some(DefaultValue::TextList(v)) => assert_eq!(Some(v.clone()), request.return_layers),
        _ => panic!(),
    }
    let ls = get_mcp_tool_definition("ls").unwrap();
    let listed = ls_args(&LsArgsMcp { uri: None, recursive: None, include_abstracts: None });
    assert!(matches!(&ls.input_schema.properties[0].default, Some(DefaultValue::Text(u)) if *u == listed.uri));
    let store = get_mcp_tool_definition("store").unwrap();
    let (_, role) = store_target(&StoreArgs { content: "c".into(), thread_id: None, role: None });
    assert!(matches!(&store.input_schema.properties[2].default, Some(DefaultValue::Text(r)) if *r == role));
}

#[test]
fn pruned_count_equals_acknowledged_batch_sizes() {
    let pts: Vec<DanglingPoint> = [("a", 0), ("b", 1), ("a", 2), ("c", 3)]
        .iter()
        .map(|(c, n)| DanglingPoint { collection: c.to_string(), point: *n })
        .collect();
    let acknowledged = vec!["a".to_string(), "c".to_string()];
    let batch_sum: usize = group_by_collection(&pts)
        .iter()
        .filter(|b| acknowledged.contains(&b.collection))
        .map(|b| b.points.len())
        .sum();
    assert_eq!(batch_sum, 3);
    assert_eq!(pruned_count(&pts, &acknowledged), batch_sum);
}

#[test]
fn checked_vectors_were_synced_first() {
    let ix = UserMemoryIndex {
        memories: vec![
            MemoryFile { id: "m1".into(), file: "f1.md".into() },
            MemoryFile { id: "m3".into(), file: "f3.md".into() },
        ],
        session_summaries: vec![],
    };
    let s = SessionExtraction { memories_created: vec!["m1".into(), "m2".into()], memories_updated: vec!["m3".into()] };
    let synced = memories_to_sync("u", &ix, &s);
    let plan = vector_check_plan("u", &ix, &s);
    assert_eq!(synced, vec!["cortex://user/u/f1.md", "cortex://user/u/f3.md"]);
    assert_eq!(plan.uris, synced[..plan.uris.len()].to_vec());
    assert_eq!(plan.uris.len(), 1);
}
