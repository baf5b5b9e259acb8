//! Closing a session and waiting until its extracted memories can be
//! retrieved: the request, the status that is polled, and the decision
//! taken after each poll.

use crate::sessions::AppError;
use crate::text::{decimal_text, eq_ignore_ascii_case};
use vstd::prelude::*;

verus! {

/// How long to wait for readiness, and how often to look.
#[derive(Clone, Copy, Debug)]
pub struct CloseAndWaitRequest {
    pub timeout_secs: u64,
    pub poll_interval_ms: u64,
}

/// What one poll found out about a closed session.
pub struct CloseAndWaitResponse {
    pub thread_id: String,
    /// The session's status as the session manager reports it, or `Unknown`.
    pub status: String,
    pub user_id: String,
    pub agent_id: String,
    pub waited_ms: u64,
    pub user_index_exists: bool,
    pub user_memory_count: usize,
    pub session_summary_exists: bool,
    pub session_summary_memory_count: usize,
    pub vector_sync_confirmed: bool,
    pub timeline_abstract_exists: bool,
    pub timeline_overview_exists: bool,
}

/// The request used when the client sends none.
pub open spec fn default_close_wait_request() -> CloseAndWaitRequest {
    CloseAndWaitRequest { timeout_secs: 120, poll_interval_ms: 500 }
}

/// Takes the client's request, or the default one (120 s, every 500 ms),
/// and refuses a zero timeout or a zero poll interval.
pub fn resolve_close_wait_request(payload: Option<CloseAndWaitRequest>) -> (r: Result<
    CloseAndWaitRequest,
    AppError,
>)
    ensures
        ({
            let req = match payload {
                Some(p) => p,
                None => default_close_wait_request(),
            };
            if req.timeout_secs == 0 {
                r matches Err(AppError::BadRequest(m)) && m@
                    == "timeout_secs must be greater than 0"@
            } else if req.poll_interval_ms == 0 {
                r matches Err(AppError::BadRequest(m)) && m@
                    == "poll_interval_ms must be greater than 0"@
            } else {
                r matches Ok(x) && x == req
            }
        }),
{
    let request = match payload {
        Some(p) => p,
        None => CloseAndWaitRequest { timeout_secs: 120, poll_interval_ms: 500 },
    };
    if request.timeout_secs == 0 {
        return Err(AppError::BadRequest(String::from_str("timeout_secs must be greater than 0")));
    }
    if request.poll_interval_ms == 0 {
        return Err(
            AppError::BadRequest(String::from_str("poll_interval_ms must be greater than 0")),
        );
    }
    Ok(request)
}

/// The user or agent a closed session belongs to, or `default`.
pub fn owner_or_default(id: Option<String>) -> (r: String)
    ensures
        match id {
            Some(s) => r == s,
            None => r@ == "default"@,
        },
{
    match id {
        Some(s) => s,
        None => String::from_str("default"),
    }
}

/// The session is closed and its extracted memories are indexed and
/// present in the vector store.
pub open spec fn close_wait_ready(s: CloseAndWaitResponse) -> bool {
    &&& crate::text::eq_ignoring_ascii_case(s.status@, "Closed"@)
    &&& s.user_index_exists
    &&& s.session_summary_exists
    &&& s.session_summary_memory_count > 0
    &&& s.vector_sync_confirmed
}

/// Whether a closed session's memories are ready for retrieval.
pub fn is_close_wait_ready(status: &CloseAndWaitResponse) -> (r: bool)
    ensures
        r == close_wait_ready(*status),
{
    eq_ignore_ascii_case(status.status.as_str(), "Closed") && status.user_index_exists
        && status.session_summary_exists && status.session_summary_memory_count > 0
        && status.vector_sync_confirmed
}

/// What to do after a poll.
pub enum CloseWaitStep {
    /// Answer with the polled status.
    Respond,
    /// Give up with this error.
    Fail(AppError),
    /// Sleep for the poll interval and poll again.
    Sleep,
}

/// The text of a timed-out wait.
pub open spec fn timeout_message(thread: Seq<char>, waited_ms: nat) -> Seq<char> {
    "Timed out waiting for session "@ + thread + " memory readiness after "@
        + crate::text::decimal(waited_ms) + " ms"@
}

/// The decision after a poll that found `status`, `elapsed_nanos` after
/// the wait began: answer once ready; fail once the timeout has passed;
/// otherwise poll again.
pub fn next_close_wait_step(
    thread_id: &str,
    status: &CloseAndWaitResponse,
    request: &CloseAndWaitRequest,
    elapsed_nanos: u64,
) -> (step: CloseWaitStep)
    ensures
        close_wait_ready(*status) ==> step is Respond,
        !close_wait_ready(*status) && elapsed_nanos / 1_000_000_000 >= request.timeout_secs
            ==> (step matches CloseWaitStep::Fail(AppError::Internal(m)) && m@ == timeout_message(
            thread_id@,
            (elapsed_nanos / 1_000_000) as nat,
        )),
        !close_wait_ready(*status) && elapsed_nanos / 1_000_000_000 < request.timeout_secs
            ==> step is Sleep,
{
    if is_close_wait_ready(status) {
        return CloseWaitStep::Respond;
    }
    if elapsed_nanos / 1_000_000_000 >= request.timeout_secs {
        let mut m = String::from_str("Timed out waiting for session ");
        m.append(thread_id);
        m.append(" memory readiness after ");
        let ms = decimal_text(elapsed_nanos / 1_000_000);
        m.append(ms.as_str());
        m.append(" ms");
        return CloseWaitStep::Fail(AppError::Internal(m));
    }
    CloseWaitStep::Sleep
}

/// A memory of the user index: its id and the file that holds it, relative
/// to the user's directory.
pub struct MemoryFile {
    pub id: String,
    pub file: String,
}

/// The memories that the extraction of one session created and updated.
pub struct SessionExtraction {
    pub memories_created: Vec<String>,
    pub memories_updated: Vec<String>,
}

/// The extraction summary recorded for one session.
pub struct SessionSummaryEntry {
    pub thread_id: String,
    pub summary: SessionExtraction,
}

/// The user's memory index, as far as the wait reads it.
pub struct UserMemoryIndex {
    pub memories: Vec<MemoryFile>,
    pub session_summaries: Vec<SessionSummaryEntry>,
}

/// The file of memory `id`, by the first entry that names it.
pub open spec fn file_of(memories: Seq<MemoryFile>, id: Seq<char>) -> Option<Seq<char>>
    decreases memories.len(),
{
    if memories.len() == 0 {
        None
    } else if memories[0].id@ == id {
        Some(memories[0].file@)
    } else {
        file_of(memories.drop_first(), id)
    }
}

/// The summary of session `thread`, by the first entry that names it.
pub open spec fn summary_of(entries: Seq<SessionSummaryEntry>, thread: Seq<char>) -> Option<
    SessionExtraction,
>
    decreases entries.len(),
{
    if entries.len() == 0 {
        None
    } else if entries[0].thread_id@ == thread {
        Some(entries[0].summary)
    } else {
        summary_of(entries.drop_first(), thread)
    }
}

/// The ids of the memories a session's extraction touched: created ones, then updated ones.
pub open spec fn touched_ids(s: SessionExtraction) -> Seq<Seq<char>> {
    crate::text::texts_view(s.memories_created@) + crate::text::texts_view(s.memories_updated@)
}

/// The URI of a memory file of a user.
pub open spec fn memory_file_uri_of(user: Seq<char>, file: Seq<char>) -> Seq<char> {
    "cortex://user/"@ + user + "/"@ + file
}

/// The URIs of the touched memories that the index knows, in order.
pub open spec fn sync_uris(user: Seq<char>, memories: Seq<MemoryFile>, ids: Seq<Seq<char>>) -> Seq<
    Seq<char>,
>
    decreases ids.len(),
{
    if ids.len() == 0 {
        Seq::empty()
    } else {
        let rest = sync_uris(user, memories, ids.drop_last());
        match file_of(memories, ids.last()) {
            Some(f) => rest.push(memory_file_uri_of(user, f)),
            None => rest,
        }
    }
}

/// Number of leading touched ids that the index knows.
pub open spec fn indexed_prefix_len(memories: Seq<MemoryFile>, ids: Seq<Seq<char>>) -> nat
    decreases ids.len(),
{
    if ids.len() == 0 {
        0
    } else if file_of(memories, ids[0]) is Some {
        1 + indexed_prefix_len(memories, ids.drop_first())
    } else {
        0
    }
}

/// Looks up the summary of session `thread_id`.
pub fn session_summary<'a>(index: &'a UserMemoryIndex, thread_id: &str) -> (r: Option<
    &'a SessionExtraction,
>)
    ensures
        match r {
            Some(s) => summary_of(index.session_summaries@, thread_id@) == Some(*s),
            None => summary_of(index.session_summaries@, thread_id@) is None,
        },
{
    let key = String::from_str(thread_id);
    let mut i: usize = 0;
    assert(index.session_summaries@.skip(0) =~= index.session_summaries@);
    while i < index.session_summaries.len()
        invariant
            i <= index.session_summaries.len(),
            key@ == thread_id@,
            summary_of(index.session_summaries@, thread_id@) == summary_of(
                index.session_summaries@.skip(i as int),
                thread_id@,
            ),
        decreases index.session_summaries.len() - i,
    {
        assert(index.session_summaries@.skip(i as int).drop_first() =~= index.session_summaries@.skip(
            i + 1,
        ));
        if index.session_summaries[i].thread_id.eq(&key) {
            return Some(&index.session_summaries[i].summary);
        }
        i = i + 1;
    }
    None
}

/// Looks up the file of memory `id`.
fn memory_file<'a>(memories: &'a Vec<MemoryFile>, id: &String) -> (r: Option<&'a String>)
    ensures
        match r {
            Some(f) => file_of(memories@, id@) == Some(f@),
            None => file_of(memories@, id@) is None,
        },
{
    let mut i: usize = 0;
    assert(memories@.skip(0) =~= memories@);
    while i < memories.len()
        invariant
            i <= memories.len(),
            file_of(memories@, id@) == file_of(memories@.skip(i as int), id@),
        decreases memories.len() - i,
    {
        assert(memories@.skip(i as int).drop_first() =~= memories@.skip(i + 1));
        if memories[i].id.eq(id) {
            return Some(&memories[i].file);
        }
        i = i + 1;
    }
    None
}

/// The ids a session's extraction touched, created ones first.
pub fn touched_memory_ids(summary: &SessionExtraction) -> (ids: Vec<String>)
    ensures
        crate::text::texts_view(ids@) == touched_ids(*summary),
{
    let mut ids: Vec<String> = Vec::new();
    let mut i: usize = 0;
    while i < summary.memories_created.len()
        invariant
            i <= summary.memories_created.len(),
            crate::text::texts_view(ids@) == crate::text::texts_view(
                summary.memories_created@.take(i as int),
            ),
        decreases summary.memories_created.len() - i,
    {
        let ghost before = ids@;
        let x = summary.memories_created[i].clone();
        ids.push(x);
        assert(summary.memories_created@.take(i + 1) =~= summary.memories_created@.take(i as int).push(x));
        assert(crate::text::texts_view(ids@) =~= crate::text::texts_view(before).push(x@));
        assert(crate::text::texts_view(ids@) =~= crate::text::texts_view(
            summary.memories_created@.take(i + 1),
        ));
        i = i + 1;
    }
    assert(summary.memories_created@.take(i as int) =~= summary.memories_created@);
    let ghost created = crate::text::texts_view(summary.memories_created@);
    let mut j: usize = 0;
    while j < summary.memories_updated.len()
        invariant
            j <= summary.memories_updated.len(),
            crate::text::texts_view(ids@) == created + crate::text::texts_view(
                summary.memories_updated@.take(j as int),
            ),
        decreases summary.memories_updated.len() - j,
    {
        let ghost before = ids@;
        let x = summary.memories_updated[j].clone();
        ids.push(x);
        assert(summary.memories_updated@.take(j + 1) =~= summary.memories_updated@.take(j as int).push(x));
        assert(crate::text::texts_view(ids@) =~= crate::text::texts_view(before).push(x@));
        assert(crate::text::texts_view(summary.memories_updated@.take(j + 1)) =~= crate::text::texts_view(summary.memories_updated@.take(j as int)).push(x@));
        assert(crate::text::texts_view(ids@) =~= created + crate::text::texts_view(
            summary.memories_updated@.take(j + 1),
        ));
        j = j + 1;
    }
    assert(summary.memories_updated@.take(j as int) =~= summary.memories_updated@);
    ids
}

/// The URI of a memory file of a user.
pub fn memory_file_uri(user_id: &str, file: &str) -> (r: String)
    ensures
        r@ == memory_file_uri_of(user_id@, file@),
{
    let mut r = String::from_str("cortex://user/");
    r.append(user_id);
    r.append("/");
    r.append(file);
    r
}

/// The memory files whose vectors are brought up to date before the wait
/// checks them: each touched memory that the index knows, in order.
pub fn memories_to_sync(user_id: &str, index: &UserMemoryIndex, summary: &SessionExtraction) -> (uris:
    Vec<String>)
    ensures
        crate::text::texts_view(uris@) == sync_uris(
            user_id@,
            index.memories@,
            touched_ids(*summary),
        ),
{
    let ids = touched_memory_ids(summary);
    let ghost all = touched_ids(*summary);
    let mut uris: Vec<String> = Vec::new();
    let mut i: usize = 0;
    while i < ids.len()
        invariant
            crate::text::texts_view(ids@) == all,
            i <= ids.len(),
            crate::text::texts_view(uris@) == sync_uris(
                user_id@,
                index.memories@,
                all.take(i as int),
            ),
        decreases ids.len() - i,
    {
        assert(all.take(i + 1).drop_last() =~= all.take(i as int));
        assert(all.take(i + 1).last() == ids@[i as int]@);
        match memory_file(&index.memories, &ids[i]) {
            Some(f) => {
                let uri = memory_file_uri(user_id, f.as_str());
                uris.push(uri);
                assert(crate::text::texts_view(uris@) =~= sync_uris(
                    user_id@,
                    index.memories@,
                    all.take(i as int),
                ).push(memory_file_uri_of(user_id@, f@)));
            },
            None => {},
        }
        i = i + 1;
    }
    assert(all.take(i as int) =~= all);
    uris
}

/// What the wait checks in the vector store for a session: the memory
/// files of the touched memories up to the first one the index does not
/// know, whether the index knew all of them, and whether there were any.
pub struct VectorCheckPlan {
    pub uris: Vec<String>,
    pub all_indexed: bool,
    pub has_memories: bool,
}

/// Plans the vector check for a session's summary.
pub fn vector_check_plan(user_id: &str, index: &UserMemoryIndex, summary: &SessionExtraction) -> (plan:
    VectorCheckPlan)
    ensures
        plan.has_memories == (touched_ids(*summary).len() > 0),
        plan.all_indexed == (indexed_prefix_len(index.memories@, touched_ids(*summary))
            == touched_ids(*summary).len()),
        crate::text::texts_view(plan.uris@) == sync_uris(
            user_id@,
            index.memories@,
            touched_ids(*summary).take(
                indexed_prefix_len(index.memories@, touched_ids(*summary)) as int,
            ),
        ),
{
    let ids = touched_memory_ids(summary);
    let ghost all = touched_ids(*summary);
    let mut uris: Vec<String> = Vec::new();
    let mut i: usize = 0;
    proof {
        lemma_indexed_prefix(index.memories@, all);
    }
    while i < ids.len()
        invariant
            crate::text::texts_view(ids@) == all,
            all == touched_ids(*summary),
            i <= ids.len(),
            i <= indexed_prefix_len(index.memories@, all),
            crate::text::texts_view(uris@) == sync_uris(
                user_id@,
                index.memories@,
                all.take(i as int),
            ),
            indexed_prefix_len(index.memories@, all) <= all.len(),
            forall|j: int| 0 <= j < indexed_prefix_len(index.memories@, all) ==> #[trigger] file_of(index.memories@, all[j]) is Some,
            indexed_prefix_len(index.memories@, all) < all.len() ==> file_of(index.memories@, all[indexed_prefix_len(index.memories@, all) as int]) is None,
        decreases ids.len() - i,
    {
        assert(all.take(i + 1).drop_last() =~= all.take(i as int));
        assert(all.take(i + 1).last() == ids@[i as int]@);
        assert(all[i as int] == ids@[i as int]@);
        match memory_file(&index.memories, &ids[i]) {
            Some(f) => {
                let uri = memory_file_uri(user_id, f.as_str());
                uris.push(uri);
                assert(crate::text::texts_view(uris@) =~= sync_uris(
                    user_id@,
                    index.memories@,
                    all.take(i as int),
                ).push(memory_file_uri_of(user_id@, f@)));
                proof {
                    if i as int == indexed_prefix_len(index.memories@, all) {
                        assert(file_of(index.memories@, all[i as int]) is None);
                    }
                }
            },
            None => {
                assert(i as int == indexed_prefix_len(index.memories@, all)) by {
                    if (i as int) < indexed_prefix_len(index.memories@, all) {
                        assert(file_of(index.memories@, all[i as int]) is Some);
                    }
                }
                assert(all.len() > 0);
                return VectorCheckPlan { uris, all_indexed: false, has_memories: true };
            },
        }
        i = i + 1;
    }
    VectorCheckPlan { uris, all_indexed: true, has_memories: ids.len() > 0 }
}

proof fn lemma_indexed_prefix(memories: Seq<MemoryFile>, ids: Seq<Seq<char>>)
    ensures
        indexed_prefix_len(memories, ids) <= ids.len(),
        forall|j: int| 0 <= j < indexed_prefix_len(memories, ids) ==> #[trigger] file_of(memories, ids[j]) is Some,
        indexed_prefix_len(memories, ids) < ids.len() ==> file_of(memories, ids[indexed_prefix_len(memories, ids) as int]) is None,
    decreases ids.len(),
{
    if ids.len() > 0 && file_of(memories, ids[0]) is Some {
        let rest = ids.drop_first();
        lemma_indexed_prefix(memories, rest);
        assert forall|j: int| 0 <= j < indexed_prefix_len(memories, ids) implies #[trigger] file_of(memories, ids[j]) is Some by {
            if j > 0 {
                assert(ids[j] == rest[j - 1]);
            }
        }
        if indexed_prefix_len(memories, ids) < ids.len() {
            assert(ids[indexed_prefix_len(memories, ids) as int] == rest[indexed_prefix_len(memories, rest) as int]);
        }
    }
}

impl VectorCheckPlan {
    /// The vector sync is confirmed when the session touched memories, the
    /// index knows all of them, and every planned vector was found
    /// (`all_present`).
    pub fn confirmed(&self, all_present: bool) -> (r: bool)
        ensures
            r == (self.has_memories && self.all_indexed && all_present),
    {
        self.has_memories && self.all_indexed && all_present
    }
}

/// Assembles the status of one poll.  The session status is the one the
/// session manager reported, or `Unknown` when the session could not be
/// loaded; the counts come from the user's memory index when it exists.
pub fn close_wait_status(
    thread_id: &str,
    session_status: Option<String>,
    user_id: &str,
    agent_id: &str,
    waited_ms: u64,
    index: Option<&UserMemoryIndex>,
    vector_sync_confirmed: bool,
    timeline_abstract_exists: bool,
    timeline_overview_exists: bool,
) -> (r: CloseAndWaitResponse)
    ensures
        r.thread_id@ == thread_id@,
        r.status@ == (match session_status {
            Some(s) => s@,
            None => "Unknown"@,
        }),
        r.user_id@ == user_id@,
        r.agent_id@ == agent_id@,
        r.waited_ms == waited_ms,
        r.user_index_exists == index is Some,
        r.user_memory_count == (match index {
            Some(ix) => ix.memories.len(),
            None => 0,
        }),
        r.session_summary_exists == (match index {
            Some(ix) => summary_of(ix.session_summaries@, thread_id@) is Some,
            None => false,
        }),
        r.session_summary_memory_count == (match index {
            Some(ix) => match summary_of(ix.session_summaries@, thread_id@) {
                Some(s) => touched_ids(s).len(),
                None => 0,
            },
            None => 0,
        }),
        r.vector_sync_confirmed == vector_sync_confirmed,
        r.timeline_abstract_exists == timeline_abstract_exists,
        r.timeline_overview_exists == timeline_overview_exists,
{
    let status = match session_status {
        Some(s) => s,
        None => String::from_str("Unknown"),
    };
    let (user_index_exists, user_memory_count, session_summary_exists, session_summary_memory_count) =
        match index {
        Some(ix) => match session_summary(ix, thread_id) {
            Some(s) => {
                let ids = touched_memory_ids(s);
                (true, ix.memories.len(), true, ids.len())
            },
            None => (true, ix.memories.len(), false, 0),
        },
        None => (false, 0, false, 0),
    };
    CloseAndWaitResponse {
        thread_id: String::from_str(thread_id),
        status,
        user_id: String::from_str(user_id),
        agent_id: String::from_str(agent_id),
        waited_ms,
        user_index_exists,
        user_memory_count,
        session_summary_exists,
        session_summary_memory_count,
        vector_sync_confirmed,
        timeline_abstract_exists,
        timeline_overview_exists,
    }
}

/// Path components, below the tenant root, of the user's memory index.
pub fn user_index_path(user_id: &str) -> (r: Vec<String>)
    ensures
        crate::text::texts_view(r@) == seq!["user"@, user_id@, ".memory_index.json"@],
{
    let r = vec![
        String::from_str("user"),
        String::from_str(user_id),
        String::from_str(".memory_index.json"),
    ];
    assert(crate::text::texts_view(r@) =~= seq!["user"@, user_id@, ".memory_index.json"@]);
    r
}

/// Path components, below the tenant root, of a session timeline's layer
/// file `layer_file` (`.abstract.md` or `.overview.md`).
pub fn timeline_layer_path(thread_id: &str, layer_file: &str) -> (r: Vec<String>)
    ensures
        crate::text::texts_view(r@) == seq!["session"@, thread_id@, "timeline"@, layer_file@],
{
    let r = vec![
        String::from_str("session"),
        String::from_str(thread_id),
        String::from_str("timeline"),
        String::from_str(layer_file),
    ];
    assert(crate::text::texts_view(r@) =~= seq!["session"@, thread_id@, "timeline"@, layer_file@]);
    r
}

/// The vectors the wait checks are among those it brought up to date just
/// before: the checked memory files are a prefix of the synced ones, and
/// all of them when the index knows every touched memory.
pub proof fn law_checked_vectors_were_synced(
    user: Seq<char>,
    memories: Seq<MemoryFile>,
    ids: Seq<Seq<char>>,
)
    ensures
        sync_uris(user, memories, ids).take(
            sync_uris(user, memories, ids.take(indexed_prefix_len(memories, ids) as int)).len() as int,
        ) == sync_uris(user, memories, ids.take(indexed_prefix_len(memories, ids) as int)),
        sync_uris(user, memories, ids.take(indexed_prefix_len(memories, ids) as int)).len()
            <= sync_uris(user, memories, ids).len(),
        indexed_prefix_len(memories, ids) == ids.len() ==> sync_uris(
            user,
            memories,
            ids.take(indexed_prefix_len(memories, ids) as int),
        ) == sync_uris(user, memories, ids),
{
    lemma_indexed_prefix(memories, ids);
    lemma_sync_uris_prefix(user, memories, ids, indexed_prefix_len(memories, ids) as int);
    assert(ids.take(ids.len() as int) =~= ids);
}

proof fn lemma_sync_uris_prefix(user: Seq<char>, memories: Seq<MemoryFile>, ids: Seq<Seq<char>>, n: int)
    requires
        0 <= n <= ids.len(),
    ensures
        sync_uris(user, memories, ids.take(n)).len() <= sync_uris(user, memories, ids).len(),
        sync_uris(user, memories, ids).take(sync_uris(user, memories, ids.take(n)).len() as int)
            == sync_uris(user, memories, ids.take(n)),
    decreases ids.len(),
{
    if n == ids.len() {
        assert(ids.take(n) =~= ids);
        assert(sync_uris(user, memories, ids).take(sync_uris(user, memories, ids).len() as int)
            =~= sync_uris(user, memories, ids));
    } else {
        let shorter = ids.drop_last();
        lemma_sync_uris_prefix(user, memories, shorter, n);
        assert(shorter.take(n) =~= ids.take(n));
        let a = sync_uris(user, memories, ids.take(n));
        let b = sync_uris(user, memories, shorter);
        let c = sync_uris(user, memories, ids);
        assert(c.take(a.len() as int) =~= b.take(a.len() as int));
    }
}

} // verus!
