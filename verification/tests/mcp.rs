use cortex_mem::mcp::{
    abstract_result, commit_result, commit_thread, content_result, delete_result, explore_args,
    explore_result, index_message, index_result, layers_message, layers_result, ls_args,
    ls_result, message_id_from_uri, overview_result, recall_layers, recall_search_args,
    search_args, search_result_list, server_instructions, store_result, store_target,
    tool_failure_message, CommitArgs, ExplorationPathItem, ExploreArgsMcp, ExploreResponse,
    IndexStats, LayerStats, LsArgsMcp, LsEntry, SearchArgsMcp, SearchHit, StoreArgs, ToolFailure,
    COMMIT_MESSAGE,
};

fn s(x: &str) -> String {
    x.to_string()
}

#[test]
fn store_defaults_and_explicit_values() {
    let (t, r) = store_target(&StoreArgs { content: s("hi"), thread_id: None, role: None });
    assert_eq!((t.as_str(), r.as_str()), ("default", "user"));
    let (t, r) = store_target(&StoreArgs { content: s("hi"), thread_id: Some(s("t7")), role: Some(s("system")) });
    assert_eq!((t.as_str(), r.as_str()), ("t7", "system"));
}

#[test]
fn message_ids_from_uris() {
    assert_eq!(message_id_from_uri("cortex://session/t/timeline/2024-01/02/10_11_12_abcd1234.md"), "10_11_12_abcd1234");
    assert_eq!(message_id_from_uri("plain.md"), "plain");
    assert_eq!(message_id_from_uri("a/b/c.txt"), "unknown");
    assert_eq!(message_id_from_uri("a/b/"), "unknown");
    assert_eq!(message_id_from_uri("x/.md"), "");
    assert_eq!(message_id_from_uri(""), "unknown");
    let r = store_result(s("cortex://session/t/x/y_z.md"));
    assert!(r.success);
    assert_eq!(r.uri, "cortex://session/t/x/y_z.md");
    assert_eq!(r.message_id, "y_z");
}

#[test]
fn search_request_defaults() {
    let a = search_args(&SearchArgsMcp { query: s("q"), scope: None, limit: None, min_score_bits: None, return_layers: None });
    assert_eq!(a.query, "q");
    assert_eq!(a.recursive, Some(true));
    assert_eq!(a.limit, Some(10));
    assert_eq!(a.return_layers, Some(vec![s("L0")]));
    assert!(a.scope.is_none());
    let b = search_args(&SearchArgsMcp {
        query: s("q"),
        scope: Some(s("t1")),
        limit: Some(3),
        min_score_bits: Some(0.9f32.to_bits()),
        return_layers: Some(vec![s("L0"), s("L1")]),
    });
    assert_eq!(b.limit, Some(3));
    assert_eq!(b.scope, Some(s("t1")));
    assert_eq!(b.return_layers, Some(vec![s("L0"), s("L1")]));
}

#[test]
fn recall_is_a_search_for_abstract_and_content() {
    let r = recall_search_args("what", s("cortex://session/t1"), Some(4));
    assert_eq!(r.query, "what");
    assert_eq!(r.recursive, Some(true));
    assert_eq!(r.return_layers, Some(vec![s("L0"), s("L2")]));
    assert_eq!(r.scope, Some(s("cortex://session/t1")));
    assert_eq!(r.limit, Some(4));
    assert_eq!(recall_layers(), vec![s("L0"), s("L2")]);
}

fn hit(uri: &str, abs: Option<&str>) -> SearchHit {
    SearchHit {
        uri: s(uri),
        score_bits: 0.75f32.to_bits(),
        abstract_text: abs.map(s),
        overview_text: Some(s("ov")),
        content: None,
    }
}

#[test]
fn search_results_carry_hits() {
    let hits = vec![hit("u1", Some("abs")), hit("u2", None)];
    let list = search_result_list(s("q"), &hits, &vec![s("L0"), s("L2")]);
    assert!(list.success);
    assert_eq!(list.query, "q");
    assert_eq!(list.total, 2);
    assert_eq!(list.results[0].uri, "u1");
    assert_eq!(f32::from_bits(list.results[0].score_bits), 0.75);
    assert_eq!(list.results[0].snippet, "abs");
    assert_eq!(list.results[1].snippet, "");
    assert_eq!(list.results[1].overview, Some(s("ov")));
    assert_eq!(list.results[1].content, None);
    assert_eq!(list.results[1].layers, vec![s("L0"), s("L2")]);
    let empty = search_result_list(s("none"), &vec![], &vec![]);
    assert_eq!(empty.total, 0);
}

#[test]
fn ls_defaults_and_entries() {
    let a = ls_args(&LsArgsMcp { uri: None, recursive: Some(true), include_abstracts: None });
    assert_eq!(a.uri, "cortex://session");
    assert_eq!(a.recursive, Some(true));
    assert_eq!(a.include_abstracts, Some(false));
    let entries = vec![LsEntry { name: s("n"), uri: s("cortex://user/n"), is_directory: true, child_count: Some(3), abstract_text: None }];
    let r = ls_result("cortex://user", &entries);
    assert_eq!(r.uri, "cortex://user");
    assert_eq!(r.total, 1);
    assert_eq!(r.entries[0].size, Some(3));
    assert!(r.entries[0].is_directory);
}

#[test]
fn explore_request_and_answer() {
    let args = ExploreArgsMcp { query: s("x"), start_uri: Some(s("cortex://user")), return_layers: None };
    let e = explore_args(&args);
    assert_eq!(e.max_depth, Some(3));
    assert_eq!(e.start_uri, Some(s("cortex://user")));
    assert!(e.return_layers.is_none());
    let response = ExploreResponse {
        exploration_path: vec![ExplorationPathItem { uri: s("p1"), relevance_score_bits: 1.0f32.to_bits(), abstract_text: Some(s("a")) }],
        matches: vec![hit("m1", None)],
        total_explored: 7,
        total_matches: 1,
    };
    let r = explore_result(s("x"), &None, &response);
    assert_eq!(r.exploration_path[0].uri, "p1");
    assert_eq!(r.matches[0].layers, vec![s("L0")]);
    assert_eq!((r.total_explored, r.total_matches), (7, 1));
}

#[test]
fn tiered_results() {
    let a = abstract_result("u", s("short"), s("L0"), 12);
    assert!(a.success && a.uri == "u" && a.abstract_text == "short" && a.token_count == 12);
    let o = overview_result("u", s("longer"), s("L1"), 99);
    assert_eq!(o.overview_text, "longer");
    let c = content_result("u", s("one two\tthree\n"));
    assert_eq!(c.layer, "L2");
    assert_eq!(c.token_count, 3);
    assert_eq!(c.content, "one two\tthree\n");
    assert!(delete_result("gone").success);
}

#[test]
fn commit_layers_index_messages() {
    assert_eq!(commit_thread(&CommitArgs { thread_id: None }), "default");
    let c = commit_result(s("t3"));
    assert_eq!(c.thread_id, "t3");
    assert_eq!(c.message, COMMIT_MESSAGE);
    assert_eq!(layers_message(&Some(s("t3"))), "Generated layers for session t3");
    assert_eq!(layers_message(&None), "Generated layers for all sessions");
    assert_eq!(index_message(&Some(s("t3"))), "Indexed memories for session t3");
    assert_eq!(index_message(&None), "Indexed all memory files");
    let l = layers_result(s("m"), LayerStats { total: 3, generated: 2, failed: 1 });
    assert_eq!((l.total, l.generated, l.failed), (3, 2, 1));
    let i = index_result(s("m"), IndexStats { total_files: 4, indexed_files: 1, skipped_files: 2, error_files: 1 });
    assert_eq!((i.total_files, i.indexed_files, i.skipped_files, i.error_files), (4, 1, 2, 1));
}

#[test]
fn failure_texts() {
    assert_eq!(tool_failure_message(ToolFailure::Search, "boom"), "Search failed: boom");
    assert_eq!(tool_failure_message(ToolFailure::Store, "x"), "Failed to store memory: x");
    assert_eq!(tool_failure_message(ToolFailure::Layers, "y"), "Failed to generate layers: y");
    assert_eq!(tool_failure_message(ToolFailure::Index, "z"), "Failed to index memories: z");
}

#[test]
fn instructions_mention_every_tool() {
    let text = server_instructions();
    assert!(text.starts_with("Cortex Memory MCP Server"));
    for t in ["search", "recall", "store", "commit", "ls", "explore", "abstract", "overview", "content", "delete", "layers", "index"] {
        assert!(text.contains(&format!("- {}:", t)), "{}", t);
    }
}

#[test]
fn instructions_full_text() {
    let expected = "Cortex Memory MCP Server - Unified memory management tools.\n\n**Tool Naming Convention:** Simple verb style (search, store, ls, etc.)\n\n**Layer System:**\n- L0: Abstract (~100 tokens) - for quick relevance checking\n- L1: Overview (~2000 tokens) - for understanding core information\n- L2: Full content - complete original content\n\n**Automatic Processing:**\nThe server automatically triggers memory extraction and layer generation when:\n- Message count reaches threshold (default: 10 messages)\n- Session becomes inactive (default: 2 minutes without new messages)\n\n**Available tools:**\n- search: Layered semantic search with return_layers support\n- recall: Quick recall with L0+L2 content\n- store: Add a message to memory\n- commit: Commit session and trigger processing\n- ls: Browse memory filesystem\n- explore: Smart exploration of memory space\n- abstract: Get L0 abstract (~100 tokens)\n- overview: Get L1 overview (~2000 tokens)\n- content: Get L2 full content\n- delete: Delete a memory\n- layers: Generate L0/L1 layer files\n- index: Index memories to vector database\n";
    assert_eq!(server_instructions(), expected);
}

#[test]
fn instruction_tools_are_the_catalog() {
    let text = server_instructions();
    let listed: Vec<String> = text
        .split("**Available tools:**\n")
        .nth(1)
        .unwrap()
        .lines()
        .map(|l| l.trim_start_matches("- ").split(':').next().unwrap().to_string())
        .collect();
    let catalog: Vec<String> = cortex_mem::tools::get_mcp_tool_definitions().iter().map(|t| t.name.clone()).collect();
    let mut a = listed.clone();
    let mut b = catalog.clone();
    a.sort();
    b.sort();
    assert_eq!(a, b);
}
