//! Decisions of the command-line client: which layer `get` shows, the
//! message that creates a session, the vector database address, and the
//! bookkeeping of pruning dangling vectors.

use vstd::prelude::*;

verus! {

/// Which layer of a memory `get` shows.
#[derive(Clone, Copy, Debug, PartialEq, Eq, Structural)]
pub enum GetView {
    /// The L1 overview.
    Overview,
    /// The L0 abstract.
    Abstract,
    /// The full content.
    Content,
}

/// The overview when asked for, else the abstract when asked for, else the
/// full content.
pub fn choose_get_view(abstract_only: bool, overview: bool) -> (r: GetView)
    ensures
        r == (if overview {
            GetView::Overview
        } else if abstract_only {
            GetView::Abstract
        } else {
            GetView::Content
        }),
{
    if overview {
        GetView::Overview
    } else if abstract_only {
        GetView::Abstract
    } else {
        GetView::Content
    }
}

/// The system message that creates a session: `Session: <title>`, or
/// `Session created` without a title.
pub fn session_create_message(title: Option<&str>) -> (r: String)
    ensures
        r@ == (match title {
            Some(t) => "Session: "@ + t@,
            None => "Session created"@,
        }),
{
    match title {
        Some(t) => {
            let mut m = String::from_str("Session: ");
            m.append(t);
            m
        },
        None => String::from_str("Session created"),
    }
}

/// The vector database address: the configured one, or the local default.
pub fn qdrant_url(configured: Option<String>) -> (r: String)
    ensures
        r@ == (match configured {
            Some(u) => u@,
            None => "http://localhost:6333"@,
        }),
{
    match configured {
        Some(u) => u,
        None => String::from_str("http://localhost:6333"),
    }
}

/// The names of the listed collections, skipping entries without a name.
pub fn collection_names(entries: &Vec<Option<String>>) -> (r: Vec<String>)
    ensures
        crate::text::texts_view(r@) == named_entries(entries@),
{
    let mut r: Vec<String> = Vec::new();
    let mut i: usize = 0;
    while i < entries.len()
        invariant
            i <= entries.len(),
            crate::text::texts_view(r@) == named_entries(entries@.take(i as int)),
        decreases entries.len() - i,
    {
        assert(entries@.take(i + 1).drop_last() =~= entries@.take(i as int));
        match &entries[i] {
            Some(name) => {
                let ghost before = r@;
                r.push(name.clone());
                assert(crate::text::texts_view(r@) =~= crate::text::texts_view(before).push(
                    name@,
                ));
            },
            None => {},
        }
        i = i + 1;
    }
    assert(entries@.take(i as int) =~= entries@);
    r
}

/// The names among `entries`, in order.
pub open spec fn named_entries(entries: Seq<Option<String>>) -> Seq<Seq<char>>
    decreases entries.len(),
{
    if entries.len() == 0 {
        Seq::empty()
    } else {
        let rest = named_entries(entries.drop_last());
        match entries.last() {
            Some(n) => rest.push(n@),
            None => rest,
        }
    }
}

/// The URI of a stored vector that pruning checks: only a present,
/// non-empty one.
pub fn uri_to_check(uri: Option<String>) -> (r: Option<String>)
    ensures
        r == (match uri {
            Some(u) => if u@.len() > 0 {
                Some(u)
            } else {
                None
            },
            None => None,
        }),
{
    match uri {
        Some(u) => if u.as_str().is_empty() {
            None
        } else {
            Some(u)
        },
        None => None,
    }
}

/// A vector whose file is gone: its collection, and its position in the
/// caller's table of point ids.
pub struct DanglingPoint {
    pub collection: String,
    pub point: usize,
}

/// The dangling vectors of one collection, deleted together.
pub struct CollectionBatch {
    pub collection: String,
    pub points: Vec<usize>,
}

/// The points of collection `c`, in order.
pub open spec fn points_of(points: Seq<DanglingPoint>, c: Seq<char>) -> Seq<usize>
    decreases points.len(),
{
    if points.len() == 0 {
        Seq::empty()
    } else {
        let rest = points_of(points.drop_last(), c);
        if points.last().collection@ == c {
            rest.push(points.last().point)
        } else {
            rest
        }
    }
}

/// Some dangling point belongs to collection `c`.
pub open spec fn has_collection(points: Seq<DanglingPoint>, c: Seq<char>) -> bool {
    exists|i: int| 0 <= i < points.len() && #[trigger] points[i].collection@ == c
}

fn collects_points(points: &Vec<DanglingPoint>, c: &String) -> (r: Vec<usize>)
    ensures
        r@ == points_of(points@, c@),
{
    let mut r: Vec<usize> = Vec::new();
    let mut i: usize = 0;
    while i < points.len()
        invariant
            i <= points.len(),
            r@ == points_of(points@.take(i as int), c@),
        decreases points.len() - i,
    {
        assert(points@.take(i + 1).drop_last() =~= points@.take(i as int));
        if points[i].collection.eq(c) {
            r.push(points[i].point);
        }
        i = i + 1;
    }
    assert(points@.take(i as int) =~= points@);
    r
}

proof fn lemma_points_of_nonempty(points: Seq<DanglingPoint>, i: int)
    requires
        0 <= i < points.len(),
    ensures
        points_of(points, points[i].collection@).len() > 0,
    decreases points.len(),
{
    if i < points.len() - 1 {
        lemma_points_of_nonempty(points.drop_last(), i);
    }
}

/// Groups the dangling points by collection, for one deletion per
/// collection.  Each collection appears in one batch only, every batch
/// holds all points of its collection in their order, and every
/// collection of the input gets a batch.
pub fn group_by_collection(points: &Vec<DanglingPoint>) -> (r: Vec<CollectionBatch>)
    ensures
        forall|i: int, j: int|
            0 <= i < j < r.len() ==> #[trigger] r@[i].collection@ != #[trigger] r@[j].collection@,
        forall|i: int|
            0 <= i < r.len() ==> (#[trigger] r@[i]).points@ == points_of(
                points@,
                r@[i].collection@,
            ) && r@[i].points.len() > 0,
        forall|c: Seq<char>|
            has_collection(points@, c) <==> exists|i: int|
                0 <= i < r.len() && #[trigger] r@[i].collection@ == c,
{
    let mut r: Vec<CollectionBatch> = Vec::new();
    let mut i: usize = 0;
    while i < points.len()
        invariant
            i <= points.len(),
            forall|a: int, b: int|
                0 <= a < b < r.len() ==> #[trigger] r@[a].collection@ != #[trigger] r@[b].collection@,
            forall|a: int|
                0 <= a < r.len() ==> (#[trigger] r@[a]).points@ == points_of(
                    points@,
                    r@[a].collection@,
                ) && r@[a].points.len() > 0,
            forall|a: int|
                0 <= a < r.len() ==> has_collection(points@, #[trigger] r@[a].collection@),
            forall|k: int|
                #![trigger points@[k]]
                0 <= k < i ==> exists|a: int|
                    0 <= a < r.len() && #[trigger] r@[a].collection@ == points@[k].collection@,
        decreases points.len() - i,
    {
        let mut seen = false;
        let mut a: usize = 0;
        while a < r.len()
            invariant
                a <= r.len(),
                i < points.len(),
                !seen ==> forall|b: int| 0 <= b < a ==> #[trigger] r@[b].collection@ != points@[i as int].collection@,
                seen ==> exists|b: int| 0 <= b < r.len() && #[trigger] r@[b].collection@ == points@[i as int].collection@,
            decreases r.len() - a,
        {
            if r[a].collection.eq(&points[i].collection) {
                seen = true;
            }
            a = a + 1;
        }
        if !seen {
            let c = points[i].collection.clone();
            let group = collects_points(points, &c);
            proof {
                lemma_points_of_nonempty(points@, i as int);
            }
            let ghost before = r@;
            r.push(CollectionBatch { collection: c, points: group });
            proof {
                assert(r@[before.len() as int].collection@ == points@[i as int].collection@);
                assert forall|a: int, b: int|
                    0 <= a < b < r.len() implies #[trigger] r@[a].collection@ != #[trigger] r@[b].collection@ by {
                    if b == before.len() {
                        assert(r@[a] == before[a]);
                    } else {
                        assert(r@[a] == before[a] && r@[b] == before[b]);
                    }
                }
                assert forall|a: int| 0 <= a < r.len() implies has_collection(points@, #[trigger] r@[a].collection@) by {
                    if a == before.len() {
                        assert(points@[i as int].collection@ == r@[a].collection@);
                    } else {
                        assert(r@[a] == before[a]);
                    }
                }
                assert forall|k: int| #![trigger points@[k]] 0 <= k < i + 1 implies exists|a: int|
                    0 <= a < r.len() && #[trigger] r@[a].collection@ == points@[k].collection@ by {
                    if k == i {
                        assert(r@[before.len() as int].collection@ == points@[k].collection@);
                    } else {
                        let a = choose|a: int| 0 <= a < before.len() && #[trigger] before[a].collection@ == points@[k].collection@;
                        assert(r@[a] == before[a]);
                    }
                }
            }
        }
        i = i + 1;
    }
    proof {
        assert forall|c: Seq<char>|
            has_collection(points@, c) <==> exists|a: int|
                0 <= a < r.len() && #[trigger] r@[a].collection@ == c by {
            if has_collection(points@, c) {
                let k = choose|k: int| 0 <= k < points.len() && #[trigger] points@[k].collection@ == c;
                let a = choose|a: int| 0 <= a < r.len() && #[trigger] r@[a].collection@ == points@[k].collection@;
            }
        }
    }
    r
}

/// Number of dangling points whose collection is among `deleted`.
pub open spec fn pruned_of(points: Seq<DanglingPoint>, deleted: Seq<Seq<char>>) -> nat
    decreases points.len(),
{
    if points.len() == 0 {
        0
    } else {
        pruned_of(points.drop_last(), deleted) + if deleted.contains(points.last().collection@) {
            1nat
        } else {
            0nat
        }
    }
}

proof fn lemma_pruned_le_len(points: Seq<DanglingPoint>, deleted: Seq<Seq<char>>)
    ensures
        pruned_of(points, deleted) <= points.len(),
    decreases points.len(),
{
    if points.len() > 0 {
        lemma_pruned_le_len(points.drop_last(), deleted);
    }
}

fn contains_text(v: &Vec<String>, x: &String) -> (r: bool)
    ensures
        r == crate::text::texts_view(v@).contains(x@),
{
    let mut i: usize = 0;
    while i < v.len()
        invariant
            i <= v.len(),
            forall|j: int| 0 <= j < i ==> v@[j]@ != x@,
        decreases v.len() - i,
    {
        if v[i].eq(x) {
            assert(crate::text::texts_view(v@)[i as int] == x@);
            return true;
        }
        i = i + 1;
    }
    proof {
        if crate::text::texts_view(v@).contains(x@) {
            let j = choose|j: int| 0 <= j < v.len() && crate::text::texts_view(v@)[j] == x@;
            assert(v@[j]@ == x@);
        }
    }
    false
}

/// How many dangling vectors were removed: those whose collection's
/// deletion the database acknowledged.
pub fn pruned_count(points: &Vec<DanglingPoint>, deleted: &Vec<String>) -> (n: usize)
    ensures
        n == pruned_of(points@, crate::text::texts_view(deleted@)),
{
    let mut n: usize = 0;
    let mut i: usize = 0;
    while i < points.len()
        invariant
            i <= points.len(),
            n == pruned_of(points@.take(i as int), crate::text::texts_view(deleted@)),
        decreases points.len() - i,
    {
        assert(points@.take(i + 1).drop_last() =~= points@.take(i as int));
        proof {
            lemma_pruned_le_len(points@.take(i as int), crate::text::texts_view(deleted@));
        }
        if contains_text(deleted, &points[i].collection) {
            n = n + 1;
        }
        i = i + 1;
    }
    assert(points@.take(i as int) =~= points@);
    n
}

/// Points removed when the batches of the acknowledged collections are
/// deleted: the sizes of those batches, added up.
pub open spec fn batch_total(batches: Seq<CollectionBatch>, deleted: Seq<Seq<char>>) -> nat
    decreases batches.len(),
{
    if batches.len() == 0 {
        0
    } else {
        batch_total(batches.drop_last(), deleted) + if deleted.contains(
            batches.last().collection@,
        ) {
            batches.last().points@.len()
        } else {
            0nat
        }
    }
}

/// The points of the acknowledged collections among `cs`, collection by collection.
pub open spec fn per_collection_total(
    cs: Seq<Seq<char>>,
    points: Seq<DanglingPoint>,
    deleted: Seq<Seq<char>>,
) -> nat
    decreases cs.len(),
{
    if cs.len() == 0 {
        0
    } else {
        per_collection_total(cs.drop_last(), points, deleted) + if deleted.contains(cs.last()) {
            points_of(points, cs.last()).len()
        } else {
            0nat
        }
    }
}

/// Number of names in `cs` that are acknowledged and equal to `x`.
spec fn hits(cs: Seq<Seq<char>>, x: Seq<char>, deleted: Seq<Seq<char>>) -> nat
    decreases cs.len(),
{
    if cs.len() == 0 {
        0
    } else {
        hits(cs.drop_last(), x, deleted) + if deleted.contains(cs.last()) && cs.last() == x {
            1nat
        } else {
            0nat
        }
    }
}

proof fn lemma_per_collection_step(
    cs: Seq<Seq<char>>,
    points: Seq<DanglingPoint>,
    deleted: Seq<Seq<char>>,
)
    requires
        points.len() > 0,
    ensures
        per_collection_total(cs, points, deleted) == per_collection_total(
            cs,
            points.drop_last(),
            deleted,
        ) + hits(cs, points.last().collection@, deleted),
    decreases cs.len(),
{
    if cs.len() > 0 {
        lemma_per_collection_step(cs.drop_last(), points, deleted);
    }
}

proof fn lemma_hits_once(cs: Seq<Seq<char>>, x: Seq<char>, deleted: Seq<Seq<char>>)
    requires
        cs.no_duplicates(),
        cs.contains(x),
    ensures
        hits(cs, x, deleted) == if deleted.contains(x) {
            1nat
        } else {
            0nat
        },
    decreases cs.len(),
{
    let init = cs.drop_last();
    if cs.last() == x {
        assert(!init.contains(x)) by {
            if init.contains(x) {
                let k = choose|k: int| 0 <= k < init.len() && init[k] == x;
                assert(cs[k] == cs[cs.len() - 1]);
            }
        }
        lemma_hits_absent(init, x, deleted);
    } else {
        let k = choose|k: int| 0 <= k < cs.len() && cs[k] == x;
        assert(k < cs.len() - 1);
        assert(init[k] == x);
        assert(init.no_duplicates()) by {
            assert forall|a: int, b: int| 0 <= a < init.len() && 0 <= b < init.len() && a != b
                implies init[a] != init[b] by {
                assert(init[a] == cs[a] && init[b] == cs[b]);
            }
        }
        lemma_hits_once(init, x, deleted);
    }
}

proof fn lemma_hits_absent(cs: Seq<Seq<char>>, x: Seq<char>, deleted: Seq<Seq<char>>)
    requires
        !cs.contains(x),
    ensures
        hits(cs, x, deleted) == 0,
    decreases cs.len(),
{
    if cs.len() > 0 {
        let init = cs.drop_last();
        assert(!init.contains(x)) by {
            if init.contains(x) {
                let k = choose|k: int| 0 <= k < init.len() && init[k] == x;
                assert(cs[k] == x);
            }
        }
        assert(cs.last() != x) by {
            if cs.last() == x {
                assert(cs[cs.len() - 1] == x);
            }
        }
        lemma_hits_absent(init, x, deleted);
    }
}

proof fn lemma_per_collection_covers(
    cs: Seq<Seq<char>>,
    points: Seq<DanglingPoint>,
    deleted: Seq<Seq<char>>,
)
    requires
        cs.no_duplicates(),
        forall|k: int| 0 <= k < points.len() ==> cs.contains(#[trigger] points[k].collection@),
    ensures
        per_collection_total(cs, points, deleted) == pruned_of(points, deleted),
    decreases points.len(),
{
    if points.len() == 0 {
        lemma_per_collection_empty(cs, deleted);
        assert(points =~= Seq::<DanglingPoint>::empty());
    } else {
        let init = points.drop_last();
        assert forall|k: int| 0 <= k < init.len() implies cs.contains(#[trigger] init[k].collection@) by {
            assert(init[k] == points[k]);
        }
        lemma_per_collection_covers(cs, init, deleted);
        lemma_per_collection_step(cs, points, deleted);
        assert(cs.contains(points[points.len() - 1].collection@));
        lemma_hits_once(cs, points.last().collection@, deleted);
    }
}

proof fn lemma_per_collection_empty(cs: Seq<Seq<char>>, deleted: Seq<Seq<char>>)
    ensures
        per_collection_total(cs, Seq::<DanglingPoint>::empty(), deleted) == 0,
    decreases cs.len(),
{
    if cs.len() > 0 {
        lemma_per_collection_empty(cs.drop_last(), deleted);
    }
}

/// The names of the collections of `batches`.
pub open spec fn batch_names(batches: Seq<CollectionBatch>) -> Seq<Seq<char>> {
    batches.map_values(|b: CollectionBatch| b.collection@)
}

proof fn lemma_batch_total(
    batches: Seq<CollectionBatch>,
    points: Seq<DanglingPoint>,
    deleted: Seq<Seq<char>>,
)
    requires
        forall|i: int|
            0 <= i < batches.len() ==> (#[trigger] batches[i]).points@ == points_of(
                points,
                batches[i].collection@,
            ),
    ensures
        batch_total(batches, deleted) == per_collection_total(batch_names(batches), points, deleted),
    decreases batches.len(),
{
    if batches.len() > 0 {
        let init = batches.drop_last();
        assert forall|i: int| 0 <= i < init.len() implies (#[trigger] init[i]).points@ == points_of(
            points,
            init[i].collection@,
        ) by {
            assert(init[i] == batches[i]);
        }
        lemma_batch_total(init, points, deleted);
        assert(batch_names(batches).drop_last() =~= batch_names(init));
        assert(batches.last() == batches[batches.len() - 1]);
    }
}

/// Counting the removed points one by one gives what adding up the sizes
/// of the acknowledged batches gives, for batches as
/// [`group_by_collection`] forms them.
pub proof fn law_pruned_count_is_sum_of_deleted_batches(
    points: Seq<DanglingPoint>,
    batches: Seq<CollectionBatch>,
    deleted: Seq<Seq<char>>,
)
    requires
        forall|i: int, j: int|
            0 <= i < j < batches.len() ==> #[trigger] batches[i].collection@
                != #[trigger] batches[j].collection@,
        forall|i: int|
            0 <= i < batches.len() ==> (#[trigger] batches[i]).points@ == points_of(
                points,
                batches[i].collection@,
            ),
        forall|c: Seq<char>|
            has_collection(points, c) <==> exists|i: int|
                0 <= i < batches.len() && #[trigger] batches[i].collection@ == c,
    ensures
        batch_total(batches, deleted) == pruned_of(points, deleted),
{
    let cs = batch_names(batches);
    assert(cs.no_duplicates()) by {
        assert forall|a: int, b: int| 0 <= a < cs.len() && 0 <= b < cs.len() && a != b implies cs[a]
            != cs[b] by {
            if a < b {
                assert(batches[a].collection@ != batches[b].collection@);
            } else {
                assert(batches[b].collection@ != batches[a].collection@);
            }
        }
    }
    assert forall|k: int| 0 <= k < points.len() implies cs.contains(#[trigger] points[k].collection@) by {
        assert(has_collection(points, points[k].collection@));
        let i = choose|i: int| 0 <= i < batches.len() && #[trigger] batches[i].collection@ == points[k].collection@;
        assert(cs[i] == points[k].collection@);
    }
    lemma_batch_total(batches, points, deleted);
    lemma_per_collection_covers(cs, points, deleted);
}

// ==================== scanning, cleaning, statistics ====================

/// What the pruning scan does with a page of points.
#[derive(Clone, Copy, Debug, PartialEq, Eq, Structural)]
pub enum PageStep {
    /// The page is empty: the collection is done.
    EndCollection,
    /// Check each point of the page.
    Process,
}

/// An empty page ends the scan of a collection.
pub fn page_step(points_in_page: usize) -> (r: PageStep)
    ensures
        r == (if points_in_page == 0 {
            PageStep::EndCollection
        } else {
            PageStep::Process
        }),
{
    if points_in_page == 0 {
        PageStep::EndCollection
    } else {
        PageStep::Process
    }
}

/// A vector is dangling only when its file is known to be gone; a failed
/// existence check (`None`) counts as present.
pub fn is_dangling(exists: Option<bool>) -> (r: bool)
    ensures
        r == (exists == Some(false)),
{
    match exists {
        Some(e) => !e,
        None => false,
    }
}

/// Whether the scan of a collection goes on after a page: only when the
/// page names a next offset that is not null (`Some(false)`).
pub fn has_next_page(next_offset_is_null: Option<bool>) -> (r: bool)
    ensures
        r == (next_offset_is_null == Some(false)),
{
    match next_offset_is_null {
        Some(null) => !null,
        None => false,
    }
}

/// How a finished scan ends.
#[derive(Clone, Copy, Debug, PartialEq, Eq, Structural)]
pub enum PruneOutcome {
    /// Nothing dangles: report it and stop.
    NothingDangling,
    /// Dry run: report what would be deleted and stop.
    DryRun,
    /// Delete the dangling vectors.
    Delete,
}

/// Nothing to do without dangling vectors; a dry run only reports.
pub fn prune_outcome(dangling: usize, dry_run: bool) -> (r: PruneOutcome)
    ensures
        r == (if dangling == 0 {
            PruneOutcome::NothingDangling
        } else if dry_run {
            PruneOutcome::DryRun
        } else {
            PruneOutcome::Delete
        }),
{
    if dangling == 0 {
        PruneOutcome::NothingDangling
    } else if dry_run {
        PruneOutcome::DryRun
    } else {
        PruneOutcome::Delete
    }
}

/// The database acknowledged a request: its status is `ok`.
pub fn is_acknowledged(status: Option<&str>) -> (r: bool)
    ensures
        r == (status matches Some(st) && st@ == "ok"@),
{
    match status {
        Some(st) => String::from_str(st).eq(&String::from_str("ok")),
        None => false,
    }
}

/// A count the database reported, or zero when it reported none.
pub open spec fn or_zero(count: Option<u64>) -> u64 {
    match count {
        Some(c) => c,
        None => 0,
    }
}

/// The stale vectors (without a URI) of a collection that cleaning
/// deletes: none when the reported count is zero or missing.
pub fn stale_to_delete(count: Option<u64>) -> (r: Option<u64>)
    ensures
        r == (if or_zero(count) > 0 {
            Some(or_zero(count))
        } else {
            None
        }),
{
    match count {
        Some(c) => if c > 0 {
            Some(c)
        } else {
            None
        },
        None => None,
    }
}

/// The number of stale vectors removed so far, after a collection's
/// deletion of `count` of them was acknowledged or not.
pub fn add_removed_stale(removed: usize, count: u64, acknowledged: bool) -> (r: usize)
    requires
        acknowledged ==> removed + (count as usize) <= usize::MAX,
    ensures
        r == (if acknowledged {
            removed + (count as usize)
        } else {
            removed as int
        }),
{
    if acknowledged {
        removed + (count as usize)
    } else {
        removed
    }
}

/// The statistics need at least one collection.
pub fn require_collections(names: &Vec<String>) -> (r: Result<(), String>)
    ensures
        names.len() == 0 ==> (r matches Err(m) && m@ == "No Qdrant collections found"@),
        names.len() > 0 ==> r is Ok,
{
    if names.len() == 0 {
        Err(String::from_str("No Qdrant collections found"))
    } else {
        Ok(())
    }
}

/// Vectors counted over the collections: all of them, and those without a URI.
#[derive(Clone, Copy, Debug)]
pub struct CollectionStats {
    pub total_points: u64,
    pub missing_uri: u64,
}

impl CollectionStats {
    /// Nothing counted yet.
    pub fn new() -> (r: Self)
        ensures
            r.total_points == 0,
            r.missing_uri == 0,
    {
        CollectionStats { total_points: 0, missing_uri: 0 }
    }

    /// Adds one collection's reported counts; a count not reported adds zero.
    pub fn add_collection(&mut self, points: Option<u64>, missing_uri: Option<u64>)
        requires
            old(self).total_points + or_zero(points) <= u64::MAX,
            old(self).missing_uri + or_zero(missing_uri) <= u64::MAX,
        ensures
            final(self).total_points == old(self).total_points + or_zero(points),
            final(self).missing_uri == old(self).missing_uri + or_zero(missing_uri),
    {
        let p = match points {
            Some(c) => c,
            None => 0,
        };
        let q = match missing_uri {
            Some(c) => c,
            None => 0,
        };
        self.total_points = self.total_points + p;
        self.missing_uri = self.missing_uri + q;
    }
}

} // verus!
