use cortex_mem::cli::{
    add_removed_stale, choose_get_view, collection_names, group_by_collection, has_next_page, is_acknowledged, is_dangling, page_step, prune_outcome, pruned_count, qdrant_url, require_collections, session_create_message, stale_to_delete, uri_to_check, CollectionStats, DanglingPoint, GetView, PageStep, PruneOutcome,
};

#[test]
fn get_view_precedence() {
    assert_eq!(choose_get_view(true, true), GetView::Overview);
    assert_eq!(choose_get_view(true, false), GetView::Abstract);
    assert_eq!(choose_get_view(false, false), GetView::Content);
}

#[test]
fn create_messages() {
    assert_eq!(session_create_message(Some("Trip")), "Session: Trip");
    assert_eq!(session_create_message(None), "Session created");
}

#[test]
fn qdrant_address() {
    assert_eq!(qdrant_url(None), "http://localhost:6333");
    assert_eq!(qdrant_url(Some("http://q:1".to_string())), "http://q:1");
}

#[test]
fn names_and_uris() {
    let names = collection_names(&vec![Some("a".to_string()), None, Some("b".to_string())]);
    assert_eq!(names, vec!["a", "b"]);
    assert_eq!(uri_to_check(None), None);
    assert_eq!(uri_to_check(Some(String::new())), None);
    assert_eq!(uri_to_check(Some("cortex://x".to_string())), Some("cortex://x".to_string()));
}

fn p(c: &str, n: usize) -> DanglingPoint {
    DanglingPoint { collection: c.to_string(), point: n }
}

#[test]
fn grouping_by_collection() {
    let pts = vec![p("a", 0), p("b", 1), p("a", 2), p("c", 3), p("b", 4)];
    let g = group_by_collection(&pts);
    assert_eq!(g.len(), 3);
    assert_eq!(g[0].collection, "a");
    assert_eq!(g[0].points, vec![0, 2]);
    assert_eq!(g[1].collection, "b");
    assert_eq!(g[1].points, vec![1, 4]);
    assert_eq!(g[2].points, vec![3]);
    assert!(group_by_collection(&vec![]).is_empty());
}

#[test]
fn pruned_counts_acknowledged_collections() {
    let pts = vec![p("a", 0), p("b", 1), p("a", 2)];
    assert_eq!(pruned_count(&pts, &vec!["a".to_string()]), 2);
    assert_eq!(pruned_count(&pts, &vec!["a".to_string(), "b".to_string()]), 3);
    assert_eq!(pruned_count(&pts, &vec![]), 0);
}

#[test]
fn prune_scan_steps() {
    assert_eq!(page_step(0), PageStep::EndCollection);
    assert_eq!(page_step(3), PageStep::Process);
    assert!(is_dangling(Some(false)));
    assert!(!is_dangling(Some(true)));
    assert!(!is_dangling(None));
    assert!(has_next_page(Some(false)));
    assert!(!has_next_page(Some(true)));
    assert!(!has_next_page(None));
}

#[test]
fn prune_outcomes() {
    assert_eq!(prune_outcome(0, true), PruneOutcome::NothingDangling);
    assert_eq!(prune_outcome(0, false), PruneOutcome::NothingDangling);
    assert_eq!(prune_outcome(4, true), PruneOutcome::DryRun);
    assert_eq!(prune_outcome(4, false), PruneOutcome::Delete);
}

#[test]
fn stale_vector_bookkeeping() {
    assert!(is_acknowledged(Some("ok")));
    assert!(!is_acknowledged(Some("error")));
    assert!(!is_acknowledged(None));
    assert_eq!(stale_to_delete(None), None);
    assert_eq!(stale_to_delete(Some(0)), None);
    assert_eq!(stale_to_delete(Some(7)), Some(7));
    assert_eq!(add_removed_stale(5, 7, true), 12);
    assert_eq!(add_removed_stale(5, 7, false), 5);
}

#[test]
fn collection_stats_sums() {
    assert_eq!(require_collections(&vec![]), Err("No Qdrant collections found".to_string()));
    assert_eq!(require_collections(&vec!["a".to_string()]), Ok(()));
    let mut st = CollectionStats::new();
    st.add_collection(Some(10), Some(2));
    st.add_collection(None, Some(1));
    st.add_collection(Some(5), None);
    assert_eq!(st.total_points, 15);
    assert_eq!(st.missing_uri, 3);
}
