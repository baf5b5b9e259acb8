//! The tools of the MCP memory server: the arguments they take, the
//! defaults they fill in, the requests they hand to the memory operations,
//! and the results they answer with.
//!
//! Scores and relevances are floating-point numbers; they are carried here
//! unchanged as their IEEE-754 bit patterns.

use crate::text::{clone_opt_text, clone_texts, count_words};
use vstd::prelude::*;

verus! {

// ==================== Arguments and results ====================

/// Arguments of `store`.
pub struct StoreArgs {
    /// Content to store.
    pub content: String,
    /// Thread/session id; `default` when absent.
    pub thread_id: Option<String>,
    /// Message role: `user` (when absent), `assistant` or `system`.
    pub role: Option<String>,
}

/// Answer of `store`.
pub struct StoreResult {
    pub success: bool,
    pub uri: String,
    pub message_id: String,
}

/// Arguments of `search`.
pub struct SearchArgsMcp {
    pub query: String,
    /// Thread id or scope to search in.
    pub scope: Option<String>,
    /// Maximum number of results; 10 when absent.
    pub limit: Option<usize>,
    /// Bit pattern of the minimum relevance score (an `f32` from 0 to 1, 0.5 when absent):
    /// hits scoring below it are left out of the answer.
    pub min_score_bits: Option<u32>,
    /// Layers to return; `["L0"]` when absent.
    pub return_layers: Option<Vec<String>>,
}

/// One search hit as the server answers it.
pub struct SearchResultMcp {
    pub uri: String,
    /// Bit pattern of the `f32` score.
    pub score_bits: u32,
    pub snippet: String,
    pub overview: Option<String>,
    pub content: Option<String>,
    pub layers: Vec<String>,
}

/// Answer of `search` and `recall`.
pub struct SearchResultMcpList {
    pub success: bool,
    pub query: String,
    pub results: Vec<SearchResultMcp>,
    pub total: usize,
}

/// Arguments of `recall`.
pub struct RecallArgs {
    pub query: String,
    pub scope: Option<String>,
    pub limit: Option<usize>,
}

/// Arguments of `ls`.
pub struct LsArgsMcp {
    /// URI to list; `cortex://session` when absent.
    pub uri: Option<String>,
    pub recursive: Option<bool>,
    /// Whether to include abstracts; no when absent.
    pub include_abstracts: Option<bool>,
}

/// One listed entry as the server answers it.
pub struct LsEntryMcp {
    pub name: String,
    pub uri: String,
    pub is_directory: bool,
    pub size: Option<usize>,
    pub abstract_text: Option<String>,
}

/// Answer of `ls`.
pub struct LsResult {
    pub success: bool,
    pub uri: String,
    pub entries: Vec<LsEntryMcp>,
    pub total: usize,
}

/// Arguments of `explore`.
pub struct ExploreArgsMcp {
    pub query: String,
    pub start_uri: Option<String>,
    pub return_layers: Option<Vec<String>>,
}

/// One step of an exploration as the server answers it.
pub struct ExplorationPathItemMcp {
    pub uri: String,
    /// Bit pattern of the `f32` relevance score.
    pub relevance_score_bits: u32,
    pub abstract_text: Option<String>,
}

/// Answer of `explore`.
pub struct ExploreResult {
    pub success: bool,
    pub query: String,
    pub exploration_path: Vec<ExplorationPathItemMcp>,
    pub matches: Vec<SearchResultMcp>,
    pub total_explored: usize,
    pub total_matches: usize,
}

/// Arguments of `abstract`.
pub struct AbstractArgs {
    pub uri: String,
}

/// Answer of `abstract`.
pub struct AbstractResult {
    pub success: bool,
    pub uri: String,
    pub abstract_text: String,
    pub layer: String,
    pub token_count: usize,
}

/// Arguments of `overview`.
pub struct OverviewArgs {
    pub uri: String,
}

/// Answer of `overview`.
pub struct OverviewResult {
    pub success: bool,
    pub uri: String,
    pub overview_text: String,
    pub layer: String,
    pub token_count: usize,
}

/// Arguments of `content`.
pub struct ContentArgs {
    pub uri: String,
}

/// Answer of `content`.
pub struct ContentResult {
    pub success: bool,
    pub uri: String,
    pub content: String,
    pub layer: String,
    pub token_count: usize,
}

/// Arguments of `delete`.
pub struct DeleteArgs {
    pub uri: String,
}

/// Answer of `delete`.
pub struct DeleteResult {
    pub success: bool,
    pub uri: String,
}

/// Arguments of `commit`.
pub struct CommitArgs {
    pub thread_id: Option<String>,
}

/// Answer of `commit`.
pub struct CommitResult {
    pub success: bool,
    pub thread_id: String,
    pub message: String,
}

/// Arguments of `layers`.
pub struct LayersArgs {
    pub thread_id: Option<String>,
}

/// Answer of `layers`.
pub struct LayersResult {
    pub success: bool,
    pub message: String,
    pub total: usize,
    pub generated: usize,
    pub failed: usize,
}

/// Arguments of `index`.
pub struct IndexArgs {
    pub thread_id: Option<String>,
}

/// Answer of `index`.
pub struct IndexResult {
    pub success: bool,
    pub message: String,
    pub total_files: usize,
    pub indexed_files: usize,
    pub skipped_files: usize,
    pub error_files: usize,
}

// ==================== What the memory operations take and give ====================

/// A search request to the memory operations.
pub struct SearchArgs {
    pub query: String,
    pub recursive: Option<bool>,
    pub return_layers: Option<Vec<String>>,
    pub scope: Option<String>,
    pub limit: Option<usize>,
}

/// A search hit from the memory operations.
pub struct SearchHit {
    pub uri: String,
    /// Bit pattern of the `f32` score.
    pub score_bits: u32,
    pub abstract_text: Option<String>,
    pub overview_text: Option<String>,
    pub content: Option<String>,
}

/// A listing request to the memory operations.
pub struct LsArgs {
    pub uri: String,
    pub recursive: Option<bool>,
    pub include_abstracts: Option<bool>,
}

/// A listed entry from the memory operations.
pub struct LsEntry {
    pub name: String,
    pub uri: String,
    pub is_directory: bool,
    pub child_count: Option<usize>,
    pub abstract_text: Option<String>,
}

/// An exploration request to the memory operations.
pub struct ExploreArgs {
    pub query: String,
    pub start_uri: Option<String>,
    pub max_depth: Option<usize>,
    pub return_layers: Option<Vec<String>>,
}

/// One explored location from the memory operations.
pub struct ExplorationPathItem {
    pub uri: String,
    /// Bit pattern of the `f32` relevance score.
    pub relevance_score_bits: u32,
    pub abstract_text: Option<String>,
}

/// The outcome of an exploration from the memory operations.
pub struct ExploreResponse {
    pub exploration_path: Vec<ExplorationPathItem>,
    pub matches: Vec<SearchHit>,
    pub total_explored: usize,
    pub total_matches: usize,
}

/// Counts of a layer generation run.
#[derive(Clone, Copy, Debug)]
pub struct LayerStats {
    pub total: usize,
    pub generated: usize,
    pub failed: usize,
}

/// Counts of an indexing run.
#[derive(Clone, Copy, Debug)]
pub struct IndexStats {
    pub total_files: usize,
    pub indexed_files: usize,
    pub skipped_files: usize,
    pub error_files: usize,
}

// ==================== Defaults ====================

/// Results a search returns when no limit is given.
pub open spec fn default_search_limit() -> usize {
    10
}

/// Layers a search or an exploration returns when none are requested: the abstract.
pub open spec fn default_return_layers() -> Seq<Seq<char>> {
    seq!["L0"@]
}

/// The URI `ls` lists when none is given.
pub open spec fn default_ls_uri() -> Seq<char> {
    "cortex://session"@
}

/// The role a message is stored with when none is given.
pub open spec fn default_role() -> Seq<char> {
    "user"@
}

/// The session a message is stored in, or committed, when none is given.
pub open spec fn default_thread() -> Seq<char> {
    "default"@
}

/// The text of an optional string, or `default`.
pub open spec fn text_or(o: Option<String>, default: Seq<char>) -> Seq<char> {
    match o {
        Some(s) => s@,
        None => default,
    }
}

/// The layers of an optional list, or `default`.
pub open spec fn layers_or(o: Option<Vec<String>>, default: Seq<Seq<char>>) -> Seq<Seq<char>> {
    match o {
        Some(v) => crate::text::texts_view(v@),
        None => default,
    }
}

fn text_or_default(o: &Option<String>, default: &str) -> (r: String)
    ensures
        r@ == text_or(*o, default@),
{
    match o {
        Some(s) => s.clone(),
        None => String::from_str(default),
    }
}

/// The layers a search returns by default: the abstract only.
pub fn default_layers() -> (r: Vec<String>)
    ensures
        crate::text::texts_view(r@) == default_return_layers(),
{
    let r = vec![String::from_str("L0")];
    assert(crate::text::texts_view(r@) =~= seq!["L0"@]);
    r
}

/// The layers a recall returns: the abstract and the full content.
pub fn recall_layers() -> (r: Vec<String>)
    ensures
        crate::text::texts_view(r@) == seq!["L0"@, "L2"@],
{
    let r = vec![String::from_str("L0"), String::from_str("L2")];
    assert(crate::text::texts_view(r@) =~= seq!["L0"@, "L2"@]);
    r
}

fn layers_or_default(o: &Option<Vec<String>>) -> (r: Vec<String>)
    ensures
        crate::text::texts_view(r@) == layers_or(*o, default_return_layers()),
{
    match o {
        Some(v) => clone_texts(v),
        None => default_layers(),
    }
}

fn clone_opt_texts(o: &Option<Vec<String>>) -> (r: Option<Vec<String>>)
    ensures
        match (r, *o) {
            (Some(a), Some(b)) => crate::text::texts_view(a@) == crate::text::texts_view(b@),
            (None, None) => true,
            _ => false,
        },
{
    match o {
        Some(v) => Some(clone_texts(v)),
        None => None,
    }
}

// ==================== store ====================

/// The thread and role a message is stored under: `default` and `user`
/// unless the arguments name them.
pub fn store_target(args: &StoreArgs) -> (r: (String, String))
    ensures
        r.0@ == text_or(args.thread_id, default_thread()),
        r.1@ == text_or(args.role, default_role()),
{
    (text_or_default(&args.thread_id, "default"), text_or_default(&args.role, "user"))
}

/// Position of the last occurrence of `c` in `s`, or -1.
pub open spec fn last_index_of(s: Seq<char>, c: char) -> int
    decreases s.len(),
{
    if s.len() == 0 {
        -1
    } else if s.last() == c {
        s.len() - 1
    } else {
        last_index_of(s.drop_last(), c)
    }
}

/// What follows the last `/` of `s`, or all of `s`.
pub open spec fn last_segment(s: Seq<char>) -> Seq<char> {
    s.subrange(last_index_of(s, '/') + 1, s.len() as int)
}

/// The message id of a stored message's URI: its last path segment
/// without the `.md` suffix, or `unknown` when the segment lacks it.
pub open spec fn message_id_of(uri: Seq<char>) -> Seq<char> {
    let seg = last_segment(uri);
    if seg.len() >= 3 && seg.subrange(seg.len() - 3, seg.len() as int) == seq!['.', 'm', 'd'] {
        seg.subrange(0, seg.len() - 3)
    } else {
        "unknown"@
    }
}

proof fn lemma_last_index_bounds(s: Seq<char>, c: char)
    ensures
        -1 <= last_index_of(s, c) < s.len(),
    decreases s.len(),
{
    if s.len() > 0 {
        lemma_last_index_bounds(s.drop_last(), c);
    }
}

/// Extracts the message id from a stored message's URI.
pub fn message_id_from_uri(uri: &str) -> (r: String)
    requires
        uri@.len() <= usize::MAX,
    ensures
        r@ == message_id_of(uri@),
{
    let mut start: usize = 0;
    let mut seen: usize = 0;
    for c in it: uri.chars()
        invariant
            it.seq() == uri@,
            uri@.len() <= usize::MAX,
            seen == it.index(),
            start == last_index_of(uri@.take(it.index() as int), '/') + 1,
    {
        proof {
            assert(uri@.take(it.index() + 1).drop_last() =~= uri@.take(it.index() as int));
            lemma_last_index_bounds(uri@.take(it.index() as int), '/');
        }
        if c == '/' {
            start = seen + 1;
        }
        seen = seen + 1;
    }
    proof {
        assert(uri@.take(uri@.len() as int) =~= uri@);
        lemma_last_index_bounds(uri@, '/');
    }
    let len = seen;
    let seg = uri.substring_char(start, len);
    let n = len - start;
    if n >= 3 && seg.get_char(n - 3) == '.' && seg.get_char(n - 2) == 'm' && seg.get_char(n - 1)
        == 'd' {
        let id = seg.substring_char(0, n - 3);
        proof {
            assert(seg@.subrange(n - 3, n as int) =~= seq!['.', 'm', 'd']);
        }
        String::from_str(id)
    } else {
        proof {
            if n >= 3 {
                let tail = seg@.subrange(n - 3, n as int);
                if tail == seq!['.', 'm', 'd'] {
                    assert(tail[0] == seg@[n - 3]);
                    assert(tail[1] == seg@[n - 2]);
                    assert(tail[2] == seg@[n - 1]);
                }
            }
        }
        String::from_str("unknown")
    }
}

/// The answer to a stored message.
pub fn store_result(message_uri: String) -> (r: StoreResult)
    requires
        message_uri@.len() <= usize::MAX,
    ensures
        r.success,
        r.uri == message_uri,
        r.message_id@ == message_id_of(message_uri@),
{
    let message_id = message_id_from_uri(message_uri.as_str());
    StoreResult { success: true, uri: message_uri, message_id }
}

// ==================== search and recall ====================

/// `r` is a recursive search for `query`, returning `layers`, within
/// `scope`, with at most `limit` results.
pub open spec fn describes_search(
    r: SearchArgs,
    query: Seq<char>,
    layers: Seq<Seq<char>>,
    scope: Option<Seq<char>>,
    limit: Option<usize>,
) -> bool {
    &&& r.query@ == query
    &&& r.recursive == Some(true)
    &&& r.return_layers matches Some(l) && crate::text::texts_view(l@) == layers
    &&& crate::text::opt_text(r.scope) == scope
    &&& r.limit == limit
}

/// The search the `search` tool asks for: the requested layers (the
/// abstract by default) and at most `limit` results (10 by default).
pub open spec fn search_tool_request(r: SearchArgs, args: SearchArgsMcp) -> bool {
    describes_search(
        r,
        args.query@,
        layers_or(args.return_layers, default_return_layers()),
        crate::text::opt_text(args.scope),
        Some(
            match args.limit {
                Some(n) => n,
                None => default_search_limit(),
            },
        ),
    )
}

/// The search `recall` asks for: the abstract and the full content.
pub open spec fn recall_request(
    r: SearchArgs,
    query: Seq<char>,
    normalized_scope: Seq<char>,
    limit: Option<usize>,
) -> bool {
    describes_search(r, query, seq!["L0"@, "L2"@], Some(normalized_scope), limit)
}

/// The search request for the `search` tool: recursive, at most `limit`
/// (10 by default) results, with the requested layers (the abstract by
/// default).
pub fn search_args(args: &SearchArgsMcp) -> (r: SearchArgs)
    ensures
        search_tool_request(r, *args),
        r.query == args.query,
{
    let limit = match args.limit {
        Some(n) => n,
        None => 10,
    };
    SearchArgs {
        query: args.query.clone(),
        recursive: Some(true),
        return_layers: Some(layers_or_default(&args.return_layers)),
        scope: clone_opt_text(&args.scope),
        limit: Some(limit),
    }
}

/// The search request behind `recall`: recursive, returning the abstract
/// and the full content, within the normalized scope.
pub fn recall_search_args(query: &str, normalized_scope: String, limit: Option<usize>) -> (r:
    SearchArgs)
    ensures
        recall_request(r, query@, normalized_scope@, limit),
        r.scope == Some(normalized_scope),
{
    SearchArgs {
        query: String::from_str(query),
        recursive: Some(true),
        return_layers: Some(recall_layers()),
        scope: Some(normalized_scope),
        limit,
    }
}

/// Recalling is searching for the abstract and the full content: for any
/// query, scope and limit, the request `recall` makes is the one the
/// `search` tool makes when asked for layers `L0` and `L2` with that scope
/// and limit.
pub proof fn law_recall_is_search_for_abstract_and_content(
    r: SearchArgs,
    args: SearchArgsMcp,
    query: Seq<char>,
    normalized_scope: Seq<char>,
    limit: usize,
)
    requires
        args.query@ == query,
        args.scope matches Some(s) && s@ == normalized_scope,
        args.limit == Some(limit),
        args.return_layers matches Some(l) && crate::text::texts_view(l@) == seq!["L0"@, "L2"@],
    ensures
        recall_request(r, query, normalized_scope, Some(limit)) <==> search_tool_request(r, args),
{
}

/// A hit as answered: its abstract becomes the snippet (empty when it has
/// none) and it is labelled with `layers`.
pub open spec fn answers_hit(r: SearchResultMcp, hit: SearchHit, layers: Seq<Seq<char>>) -> bool {
    &&& r.uri@ == hit.uri@
    &&& r.score_bits == hit.score_bits
    &&& r.snippet@ == text_or(hit.abstract_text, Seq::empty())
    &&& crate::text::opt_text(r.overview) == crate::text::opt_text(hit.overview_text)
    &&& crate::text::opt_text(r.content) == crate::text::opt_text(hit.content)
    &&& crate::text::texts_view(r.layers@) == layers
}

/// Answers one hit, labelled with `layers`.
pub fn search_result(hit: &SearchHit, layers: &Vec<String>) -> (r: SearchResultMcp)
    ensures
        answers_hit(r, *hit, crate::text::texts_view(layers@)),
{
    proof {
        reveal_strlit("");
        assert(""@ =~= Seq::<char>::empty());
    }
    SearchResultMcp {
        uri: hit.uri.clone(),
        score_bits: hit.score_bits,
        snippet: text_or_default(&hit.abstract_text, ""),
        overview: clone_opt_text(&hit.overview_text),
        content: clone_opt_text(&hit.content),
        layers: clone_texts(layers),
    }
}

/// Answers every hit, in order, labelled with `layers`.
pub fn search_results(hits: &Vec<SearchHit>, layers: &Vec<String>) -> (r: Vec<SearchResultMcp>)
    ensures
        r.len() == hits.len(),
        forall|i: int|
            0 <= i < hits.len() ==> answers_hit(
                #[trigger] r@[i],
                hits@[i],
                crate::text::texts_view(layers@),
            ),
{
    let mut r: Vec<SearchResultMcp> = Vec::new();
    let mut i: usize = 0;
    while i < hits.len()
        invariant
            i <= hits.len(),
            r.len() == i,
            forall|j: int|
                0 <= j < i ==> answers_hit(
                    #[trigger] r@[j],
                    hits@[j],
                    crate::text::texts_view(layers@),
                ),
        decreases hits.len() - i,
    {
        r.push(search_result(&hits[i], layers));
        i = i + 1;
    }
    r
}

/// The answer to `search` or `recall`: every hit, labelled with `layers`,
/// and their number.
pub fn search_result_list(query: String, hits: &Vec<SearchHit>, layers: &Vec<String>) -> (r:
    SearchResultMcpList)
    ensures
        r.success,
        r.query == query,
        r.total == hits.len(),
        r.results.len() == hits.len(),
        forall|i: int|
            0 <= i < hits.len() ==> answers_hit(
                #[trigger] r.results@[i],
                hits@[i],
                crate::text::texts_view(layers@),
            ),
{
    let results = search_results(hits, layers);
    let total = results.len();
    SearchResultMcpList { success: true, query, results, total }
}

// ==================== ls ====================

/// The listing request for `ls`: the given URI (`cortex://session` by
/// default), abstracts only when asked for.
pub fn ls_args(args: &LsArgsMcp) -> (r: LsArgs)
    ensures
        r.uri@ == text_or(args.uri, default_ls_uri()),
        r.recursive == args.recursive,
        r.include_abstracts == Some(
            match args.include_abstracts {
                Some(b) => b,
                None => false,
            },
        ),
{
    let include_abstracts = match args.include_abstracts {
        Some(b) => b,
        None => false,
    };
    LsArgs {
        uri: text_or_default(&args.uri, "cortex://session"),
        recursive: args.recursive,
        include_abstracts: Some(include_abstracts),
    }
}

/// A listed entry as answered: its child count becomes its size.
pub open spec fn answers_entry(r: LsEntryMcp, e: LsEntry) -> bool {
    &&& r.name@ == e.name@
    &&& r.uri@ == e.uri@
    &&& r.is_directory == e.is_directory
    &&& r.size == e.child_count
    &&& crate::text::opt_text(r.abstract_text) == crate::text::opt_text(e.abstract_text)
}

/// The answer to `ls`: every entry in order, and their number.
pub fn ls_result(uri: &str, entries: &Vec<LsEntry>) -> (r: LsResult)
    ensures
        r.success,
        r.uri@ == uri@,
        r.total == entries.len(),
        r.entries.len() == entries.len(),
        forall|i: int| 0 <= i < entries.len() ==> answers_entry(#[trigger] r.entries@[i], entries@[i]),
{
    let mut out: Vec<LsEntryMcp> = Vec::new();
    let mut i: usize = 0;
    while i < entries.len()
        invariant
            i <= entries.len(),
            out.len() == i,
            forall|j: int| 0 <= j < i ==> answers_entry(#[trigger] out@[j], entries@[j]),
        decreases entries.len() - i,
    {
        let e = &entries[i];
        out.push(
            LsEntryMcp {
                name: e.name.clone(),
                uri: e.uri.clone(),
                is_directory: e.is_directory,
                size: e.child_count,
                abstract_text: clone_opt_text(&e.abstract_text),
            },
        );
        i = i + 1;
    }
    let total = out.len();
    LsResult { success: true, uri: String::from_str(uri), entries: out, total }
}

// ==================== explore ====================

/// The exploration request for `explore`: at most three levels deep.
pub fn explore_args(args: &ExploreArgsMcp) -> (r: ExploreArgs)
    ensures
        r.query == args.query,
        crate::text::opt_text(r.start_uri) == crate::text::opt_text(args.start_uri),
        r.max_depth == Some(3usize),
        match (r.return_layers, args.return_layers) {
            (Some(a), Some(b)) => crate::text::texts_view(a@) == crate::text::texts_view(b@),
            (None, None) => true,
            _ => false,
        },
{
    ExploreArgs {
        query: args.query.clone(),
        start_uri: clone_opt_text(&args.start_uri),
        max_depth: Some(3),
        return_layers: clone_opt_texts(&args.return_layers),
    }
}

/// An explored location as answered.
pub open spec fn answers_step(r: ExplorationPathItemMcp, p: ExplorationPathItem) -> bool {
    &&& r.uri@ == p.uri@
    &&& r.relevance_score_bits == p.relevance_score_bits
    &&& crate::text::opt_text(r.abstract_text) == crate::text::opt_text(p.abstract_text)
}

/// The answer to `explore`: the path, and the matches labelled with the
/// requested layers (the abstract by default); the totals are the ones the
/// exploration reported.
pub fn explore_result(
    query: String,
    return_layers: &Option<Vec<String>>,
    response: &ExploreResponse,
) -> (r: ExploreResult)
    ensures
        r.success,
        r.query == query,
        r.exploration_path.len() == response.exploration_path.len(),
        forall|i: int|
            0 <= i < response.exploration_path.len() ==> answers_step(
                #[trigger] r.exploration_path@[i],
                response.exploration_path@[i],
            ),
        r.matches.len() == response.matches.len(),
        forall|i: int|
            0 <= i < response.matches.len() ==> answers_hit(
                #[trigger] r.matches@[i],
                response.matches@[i],
                layers_or(*return_layers, default_return_layers()),
            ),
        r.total_explored == response.total_explored,
        r.total_matches == response.total_matches,
{
    let mut path: Vec<ExplorationPathItemMcp> = Vec::new();
    let mut i: usize = 0;
    while i < response.exploration_path.len()
        invariant
            i <= response.exploration_path.len(),
            path.len() == i,
            forall|j: int|
                0 <= j < i ==> answers_step(#[trigger] path@[j], response.exploration_path@[j]),
        decreases response.exploration_path.len() - i,
    {
        let p = &response.exploration_path[i];
        path.push(
            ExplorationPathItemMcp {
                uri: p.uri.clone(),
                relevance_score_bits: p.relevance_score_bits,
                abstract_text: clone_opt_text(&p.abstract_text),
            },
        );
        i = i + 1;
    }
    let layers = layers_or_default(return_layers);
    let matches = search_results(&response.matches, &layers);
    ExploreResult {
        success: true,
        query,
        exploration_path: path,
        matches,
        total_explored: response.total_explored,
        total_matches: response.total_matches,
    }
}

// ==================== tiered access ====================

/// The answer to `abstract`.
pub fn abstract_result(uri: &str, abstract_text: String, layer: String, token_count: usize) -> (r:
    AbstractResult)
    ensures
        r.success,
        r.uri@ == uri@,
        r.abstract_text == abstract_text,
        r.layer == layer,
        r.token_count == token_count,
{
    AbstractResult { success: true, uri: String::from_str(uri), abstract_text, layer, token_count }
}

/// The answer to `overview`.
pub fn overview_result(uri: &str, overview_text: String, layer: String, token_count: usize) -> (r:
    OverviewResult)
    ensures
        r.success,
        r.uri@ == uri@,
        r.overview_text == overview_text,
        r.layer == layer,
        r.token_count == token_count,
{
    OverviewResult { success: true, uri: String::from_str(uri), overview_text, layer, token_count }
}

/// The answer to `content`: the full text, layer `L2`, and its number of
/// whitespace-separated words as token count.
pub fn content_result(uri: &str, content: String) -> (r: ContentResult)
    requires
        content@.len() <= usize::MAX,
    ensures
        r.success,
        r.uri@ == uri@,
        r.content == content,
        r.layer@ == "L2"@,
        r.token_count == crate::text::word_count(content@),
{
    let token_count = count_words(content.as_str());
    ContentResult {
        success: true,
        uri: String::from_str(uri),
        content,
        layer: String::from_str("L2"),
        token_count,
    }
}

// ==================== management ====================

/// The answer to `delete`.
pub fn delete_result(uri: &str) -> (r: DeleteResult)
    ensures
        r.success,
        r.uri@ == uri@,
{
    DeleteResult { success: true, uri: String::from_str(uri) }
}

/// The session `commit` closes: the given one, or `default`.
pub fn commit_thread(args: &CommitArgs) -> (r: String)
    ensures
        r@ == text_or(args.thread_id, default_thread()),
{
    text_or_default(&args.thread_id, "default")
}

/// What `commit` reports once the session is processed.
pub const COMMIT_MESSAGE: &'static str =
    "Session committed. All processing (memory extraction, L0/L1 generation, vector sync) completed.";

/// The answer to `commit`.
pub fn commit_result(thread_id: String) -> (r: CommitResult)
    ensures
        r.success,
        r.thread_id == thread_id,
        r.message@ == COMMIT_MESSAGE@,
{
    CommitResult { success: true, thread_id, message: String::from_str(COMMIT_MESSAGE) }
}

/// What `layers` reports for one session or for all of them.
pub open spec fn layers_message_of(thread_id: Option<String>) -> Seq<char> {
    match thread_id {
        Some(t) => "Generated layers for session "@ + t@,
        None => "Generated layers for all sessions"@,
    }
}

/// The message of a finished `layers` run.
pub fn layers_message(thread_id: &Option<String>) -> (r: String)
    ensures
        r@ == layers_message_of(*thread_id),
{
    match thread_id {
        Some(t) => {
            let mut m = String::from_str("Generated layers for session ");
            m.append(t.as_str());
            m
        },
        None => String::from_str("Generated layers for all sessions"),
    }
}

/// The answer to `layers`.
pub fn layers_result(message: String, stats: LayerStats) -> (r: LayersResult)
    ensures
        r.success,
        r.message == message,
        r.total == stats.total,
        r.generated == stats.generated,
        r.failed == stats.failed,
{
    LayersResult {
        success: true,
        message,
        total: stats.total,
        generated: stats.generated,
        failed: stats.failed,
    }
}

/// What `index` reports for one session or for all files.
pub open spec fn index_message_of(thread_id: Option<String>) -> Seq<char> {
    match thread_id {
        Some(t) => "Indexed memories for session "@ + t@,
        None => "Indexed all memory files"@,
    }
}

/// The message of a finished `index` run.
pub fn index_message(thread_id: &Option<String>) -> (r: String)
    ensures
        r@ == index_message_of(*thread_id),
{
    match thread_id {
        Some(t) => {
            let mut m = String::from_str("Indexed memories for session ");
            m.append(t.as_str());
            m
        },
        None => String::from_str("Indexed all memory files"),
    }
}

/// The answer to `index`.
pub fn index_result(message: String, stats: IndexStats) -> (r: IndexResult)
    ensures
        r.success,
        r.message == message,
        r.total_files == stats.total_files,
        r.indexed_files == stats.indexed_files,
        r.skipped_files == stats.skipped_files,
        r.error_files == stats.error_files,
{
    IndexResult {
        success: true,
        message,
        total_files: stats.total_files,
        indexed_files: stats.indexed_files,
        skipped_files: stats.skipped_files,
        error_files: stats.error_files,
    }
}

// ==================== failures ====================

/// The tool operation that failed.
#[derive(Clone, Copy, Debug, PartialEq, Eq, Structural)]
pub enum ToolFailure {
    Search,
    Recall,
    Store,
    Commit,
    List,
    Explore,
    Abstract,
    Overview,
    Content,
    Delete,
    Layers,
    Index,
}

/// The leading words of a failed tool's error text.
pub open spec fn failure_prefix(kind: ToolFailure) -> Seq<char> {
    match kind {
        ToolFailure::Search => "Search failed"@,
        ToolFailure::Recall => "Recall failed"@,
        ToolFailure::Store => "Failed to store memory"@,
        ToolFailure::Commit => "Failed to commit session"@,
        ToolFailure::List => "Failed to list"@,
        ToolFailure::Explore => "Explore failed"@,
        ToolFailure::Abstract => "Failed to get abstract"@,
        ToolFailure::Overview => "Failed to get overview"@,
        ToolFailure::Content => "Failed to get content"@,
        ToolFailure::Delete => "Failed to delete memory"@,
        ToolFailure::Layers => "Failed to generate layers"@,
        ToolFailure::Index => "Failed to index memories"@,
    }
}

/// The error text a failed tool answers with: what failed, then the cause.
pub fn tool_failure_message(kind: ToolFailure, cause: &str) -> (r: String)
    ensures
        r@ == failure_prefix(kind) + ": "@ + cause@,
{
    let prefix = match kind {
        ToolFailure::Search => "Search failed",
        ToolFailure::Recall => "Recall failed",
        ToolFailure::Store => "Failed to store memory",
        ToolFailure::Commit => "Failed to commit session",
        ToolFailure::List => "Failed to list",
        ToolFailure::Explore => "Explore failed",
        ToolFailure::Abstract => "Failed to get abstract",
        ToolFailure::Overview => "Failed to get overview",
        ToolFailure::Content => "Failed to get content",
        ToolFailure::Delete => "Failed to delete memory",
        ToolFailure::Layers => "Failed to generate layers",
        ToolFailure::Index => "Failed to index memories",
    };
    let mut m = String::from_str(prefix);
    m.append(": ");
    m.append(cause);
    m
}

// ==================== server ====================

/// The instructions the server gives its clients, up to the list of tools.
pub const INSTRUCTIONS_HEAD: &'static str = "Cortex Memory MCP Server - Unified memory management tools.\n\n**Tool Naming Convention:** Simple verb style (search, store, ls, etc.)\n\n**Layer System:**\n- L0: Abstract (~100 tokens) - for quick relevance checking\n- L1: Overview (~2000 tokens) - for understanding core information\n- L2: Full content - complete original content\n\n**Automatic Processing:**\nThe server automatically triggers memory extraction and layer generation when:\n- Message count reaches threshold (default: 10 messages)\n- Session becomes inactive (default: 2 minutes without new messages)\n\n**Available tools:**\n";

/// The tools the instructions list, each with its one-line summary.
pub open spec fn instruction_entries() -> Seq<(Seq<char>, Seq<char>)> {
    seq![
        ("search"@, "Layered semantic search with return_layers support"@),
        ("recall"@, "Quick recall with L0+L2 content"@),
        ("store"@, "Add a message to memory"@),
        ("commit"@, "Commit session and trigger processing"@),
        ("ls"@, "Browse memory filesystem"@),
        ("explore"@, "Smart exploration of memory space"@),
        ("abstract"@, "Get L0 abstract (~100 tokens)"@),
        ("overview"@, "Get L1 overview (~2000 tokens)"@),
        ("content"@, "Get L2 full content"@),
        ("delete"@, "Delete a memory"@),
        ("layers"@, "Generate L0/L1 layer files"@),
        ("index"@, "Index memories to vector database"@)
    ]
}

/// One line of the tool list: `- <name>: <summary>`.
pub open spec fn instruction_line(entry: (Seq<char>, Seq<char>)) -> Seq<char> {
    "- "@ + entry.0 + ": "@ + entry.1 + "\n"@
}

/// The lines of the tool list, in order.
pub open spec fn instruction_lines(entries: Seq<(Seq<char>, Seq<char>)>) -> Seq<char>
    decreases entries.len(),
{
    if entries.len() == 0 {
        Seq::empty()
    } else {
        instruction_lines(entries.drop_last()) + instruction_line(entries.last())
    }
}

/// The full instructions text.
pub open spec fn instructions_text() -> Seq<char> {
    INSTRUCTIONS_HEAD@ + instruction_lines(instruction_entries())
}

/// The server's instructions as an owned string.
pub fn server_instructions() -> (r: String)
    ensures
        r@ == instructions_text(),
{
    let entries: Vec<(&str, &str)> = vec![
        ("search", "Layered semantic search with return_layers support"),
        ("recall", "Quick recall with L0+L2 content"),
        ("store", "Add a message to memory"),
        ("commit", "Commit session and trigger processing"),
        ("ls", "Browse memory filesystem"),
        ("explore", "Smart exploration of memory space"),
        ("abstract", "Get L0 abstract (~100 tokens)"),
        ("overview", "Get L1 overview (~2000 tokens)"),
        ("content", "Get L2 full content"),
        ("delete", "Delete a memory"),
        ("layers", "Generate L0/L1 layer files"),
        ("index", "Index memories to vector database")
    ];
    let ghost spec_entries = instruction_entries();
    assert(entries@.map_values(|e: (&str, &str)| (e.0@, e.1@)) =~= spec_entries);
    let mut r = String::from_str(INSTRUCTIONS_HEAD);
    let mut i: usize = 0;
    while i < entries.len()
        invariant
            i <= entries.len(),
            spec_entries == instruction_entries(),
            entries@.map_values(|e: (&str, &str)| (e.0@, e.1@)) == spec_entries,
            r@ == INSTRUCTIONS_HEAD@ + instruction_lines(spec_entries.take(i as int)),
        decreases entries.len() - i,
    {
        let (name, summary) = entries[i];
        assert(spec_entries[i as int] == (name@, summary@));
        assert(spec_entries.take(i + 1).drop_last() =~= spec_entries.take(i as int));
        r.append("- ");
        r.append(name);
        r.append(": ");
        r.append(summary);
        r.append("\n");
        assert(r@ =~= INSTRUCTIONS_HEAD@ + instruction_lines(spec_entries.take(i + 1)));
        i = i + 1;
    }
    assert(spec_entries.take(i as int) =~= spec_entries);
    r
}

/// The instructions list exactly the tools of the catalog, each once.
pub proof fn law_instructions_list_the_catalog()
    ensures
        instruction_entries().map_values(|e: (Seq<char>, Seq<char>)| e.0).to_set()
            == crate::tools::tool_catalog().map_values(|t: crate::tools::ToolView| t.name).to_set(),
        instruction_entries().len() == crate::tools::tool_catalog().len(),
        instruction_entries().map_values(|e: (Seq<char>, Seq<char>)| e.0).no_duplicates(),
{
    let listed = instruction_entries().map_values(|e: (Seq<char>, Seq<char>)| e.0);
    let names = crate::tools::tool_catalog().map_values(|t: crate::tools::ToolView| t.name);
    crate::tools::law_tool_names_distinct();
    reveal_strlit("delete");
    reveal_strlit("index");
    reveal_strlit("overview");
    reveal_strlit("recall");
    reveal_strlit("content");
    reveal_strlit("layers");
    reveal_strlit("search");
    reveal_strlit("ls");
    reveal_strlit("abstract");
    reveal_strlit("commit");
    reveal_strlit("store");
    reveal_strlit("explore");
    assert(listed[0] == names[0]);
    assert(listed[1] == names[1]);
    assert(listed[2] == names[2]);
    assert(listed[3] == names[3]);
    assert(listed[4] == names[4]);
    assert(listed[5] == names[8]);
    assert(listed[6] == names[5]);
    assert(listed[7] == names[6]);
    assert(listed[8] == names[7]);
    assert(listed[9] == names[9]);
    assert(listed[10] == names[10]);
    assert(listed[11] == names[11]);
    assert forall|x: Seq<char>| listed.to_set().contains(x) <==> names.to_set().contains(x) by {
        if listed.contains(x) {
            let a = choose|a: int| 0 <= a < listed.len() && listed[a] == x;
        }
        if names.contains(x) {
            let b = choose|b: int| 0 <= b < names.len() && names[b] == x;
        }
    }
    assert(listed.to_set() =~= names.to_set());
    assert forall|a: int, b: int| 0 <= a < listed.len() && 0 <= b < listed.len() && a != b implies listed[a] != listed[b] by {
        assert(listed[a].len() != listed[b].len() || listed[a][0] != listed[b][0]);
    }
}

} // verus!
