//! Automatic processing triggers of the MCP memory server.
//!
//! Clients that never close a session still get their memories extracted:
//! every stored message bumps a per-session counter, and a session is
//! processed once the counter reaches a threshold, or once it has been idle
//! for a while.  Processing of one session is never repeated before a minimum
//! interval has passed.
//!
//! Clock readings are handed in by the caller as nanoseconds on a monotonic
//! clock; elapsed times are whole seconds, rounded down, and zero when the
//! clock reading lies before the remembered one.

use vstd::prelude::*;

verus! {

/// One second on the monotonic clock.
pub const NANOS_PER_SEC: u64 = 1_000_000_000;

/// Whole seconds from `since` to `now`; zero when `now` is earlier.
pub open spec fn elapsed_secs(since: u64, now: u64) -> int {
    if now >= since {
        (now - since) as int / NANOS_PER_SEC as int
    } else {
        0
    }
}

/// Executable form of [`elapsed_secs`].
pub fn elapsed_secs_between(since: u64, now: u64) -> (r: u64)
    ensures
        r == elapsed_secs(since, now),
{
    if now >= since {
        (now - since) / NANOS_PER_SEC
    } else {
        0
    }
}

/// Configuration for automatic processing triggers.
#[derive(Clone, Copy, Debug)]
pub struct AutoTriggerConfig {
    /// Minimum message count before triggering processing.
    pub message_count_threshold: usize,
    /// Minimum time between two processings of one session, in seconds.
    pub min_process_interval_secs: u64,
    /// A session idle for this many seconds is processed.
    pub inactivity_timeout_secs: u64,
    /// Whether stored messages may trigger processing at all.
    pub enable_auto_trigger: bool,
}

impl Default for AutoTriggerConfig {
    /// Ten messages, at most once every five minutes, two minutes of
    /// inactivity, enabled.
    fn default() -> (r: Self)
        ensures
            r.message_count_threshold == 10,
            r.min_process_interval_secs == 300,
            r.inactivity_timeout_secs == 120,
            r.enable_auto_trigger,
    {
        AutoTriggerConfig {
            message_count_threshold: 10,
            min_process_interval_secs: 300,
            inactivity_timeout_secs: 120,
            enable_auto_trigger: true,
        }
    }
}

/// What the server remembers of one session.
#[derive(Clone, Copy, Debug)]
pub struct SessionState {
    /// Messages stored since the session was last processed.
    pub message_count: usize,
    /// Clock reading of the last processing, if any.
    pub last_processed: Option<u64>,
    /// Clock reading of the last stored message.
    pub last_message: u64,
}

impl SessionState {
    /// The state of a session first seen at `now`: no messages, never processed.
    pub fn started_at(now: u64) -> (r: Self)
        ensures
            r == fresh_state(now),
    {
        SessionState { message_count: 0, last_processed: None, last_message: now }
    }
}

/// The state of a session first seen at `now`.
pub open spec fn fresh_state(now: u64) -> SessionState {
    SessionState { message_count: 0, last_processed: None, last_message: now }
}

/// The state after one more message stored at `now`.
pub open spec fn after_message(s: SessionState, now: u64) -> SessionState {
    SessionState {
        message_count: (s.message_count + 1) as usize,
        last_processed: s.last_processed,
        last_message: now,
    }
}

/// The state after the session was handed to processing at `now`.
pub open spec fn after_processing(s: SessionState, now: u64) -> SessionState {
    SessionState { message_count: 0, last_processed: Some(now), last_message: s.last_message }
}

/// The minimum interval since the last processing has passed (or there was none).
pub open spec fn interval_passed(config: AutoTriggerConfig, s: SessionState, now: u64) -> bool {
    match s.last_processed {
        Some(t) => elapsed_secs(t, now) >= config.min_process_interval_secs,
        None => true,
    }
}

/// The message counter of `s` calls for processing at `now`.
pub open spec fn count_trigger(config: AutoTriggerConfig, s: SessionState, now: u64) -> bool {
    s.message_count >= config.message_count_threshold && interval_passed(config, s, now)
}

/// `s` has been idle long enough, holds unprocessed messages, and may be processed at `now`.
pub open spec fn inactive_due(config: AutoTriggerConfig, s: SessionState, now: u64) -> bool {
    &&& elapsed_secs(s.last_message, now) >= config.inactivity_timeout_secs
    &&& s.message_count > 0
    &&& interval_passed(config, s, now)
}

/// The remembered state of session `k`, or a fresh one.
pub open spec fn prior_state(m: Map<Seq<char>, SessionState>, k: Seq<char>, now: u64) -> SessionState {
    if m.contains_key(k) {
        m[k]
    } else {
        fresh_state(now)
    }
}

/// A known session whose last message lies at least the inactivity
/// timeout before `now`, and which may be processed at `now`.
pub open spec fn idle_trigger(
    config: AutoTriggerConfig,
    m: Map<Seq<char>, SessionState>,
    k: Seq<char>,
    now: u64,
) -> bool {
    &&& m.contains_key(k)
    &&& elapsed_secs(m[k].last_message, now) >= config.inactivity_timeout_secs
    &&& interval_passed(config, m[k], now)
}

/// Whether a message stored for `k` at `now` triggers processing: the
/// message brings the counter to the threshold, or it arrives after the
/// session has been idle for the inactivity timeout; in both cases only once
/// the minimum interval since the last processing has passed.
pub open spec fn record_triggers(
    config: AutoTriggerConfig,
    m: Map<Seq<char>, SessionState>,
    k: Seq<char>,
    now: u64,
) -> bool {
    &&& config.enable_auto_trigger
    &&& (count_trigger(config, after_message(prior_state(m, k, now), now), now) || idle_trigger(
        config,
        m,
        k,
        now,
    ))
}

/// The sessions after a message was stored for `k` at `now`.
pub open spec fn record_sessions(
    config: AutoTriggerConfig,
    m: Map<Seq<char>, SessionState>,
    k: Seq<char>,
    now: u64,
) -> Map<Seq<char>, SessionState> {
    if !config.enable_auto_trigger {
        m
    } else {
        let bumped = after_message(prior_state(m, k, now), now);
        if record_triggers(config, m, k, now) {
            m.insert(k, after_processing(bumped, now))
        } else {
            m.insert(k, bumped)
        }
    }
}

/// The sessions after an inactivity sweep at `now`.
pub open spec fn sweep_sessions(
    config: AutoTriggerConfig,
    m: Map<Seq<char>, SessionState>,
    now: u64,
) -> Map<Seq<char>, SessionState> {
    if !config.enable_auto_trigger {
        m
    } else {
        Map::new(
            |k: Seq<char>| m.contains_key(k),
            |k: Seq<char>|
                if inactive_due(config, m[k], now) {
                    after_processing(m[k], now)
                } else {
                    m[k]
                },
        )
    }
}

/// Whether an inactivity sweep at `now` hands session `k` to processing.
pub open spec fn sweep_selects(
    config: AutoTriggerConfig,
    m: Map<Seq<char>, SessionState>,
    k: Seq<char>,
    now: u64,
) -> bool {
    config.enable_auto_trigger && m.contains_key(k) && inactive_due(config, m[k], now)
}

/// The views of a list of strings.
pub open spec fn string_views(v: Seq<String>) -> Seq<Seq<char>> {
    v.map_values(|s: String| s@)
}

/// The states of all sessions seen so far, keyed by thread id; no thread id
/// occurs twice. Its view is the map from thread id to state.
///
/// The sweep for idle sessions must visit every entry, so the registry keeps
/// two parallel vectors rather than a string-keyed hash map: a walk over
/// them has a fixed order that the proofs can follow, and its view is a
/// plain `Map` whose every entry a loop invariant can reach.
pub struct SessionRegistry {
    thread_ids: Vec<String>,
    states: Vec<SessionState>,
}

impl SessionRegistry {
    #[verifier::type_invariant]
    spec fn well_formed(self) -> bool {
        &&& self.thread_ids.len() == self.states.len()
        &&& forall|i: int, j: int|
            0 <= i < j < self.thread_ids.len() ==> self.thread_ids@[i]@ != self.thread_ids@[j]@
    }

    spec fn holds(self, k: Seq<char>) -> bool {
        exists|i: int| 0 <= i < self.thread_ids.len() && self.thread_ids@[i]@ == k
    }

    spec fn position(self, k: Seq<char>) -> int {
        choose|i: int| 0 <= i < self.thread_ids.len() && self.thread_ids@[i]@ == k
    }

    proof fn lemma_position(self, i: int)
        requires
            self.well_formed(),
            0 <= i < self.thread_ids.len(),
        ensures
            self.holds(self.thread_ids@[i]@),
            self.position(self.thread_ids@[i]@) == i,
            self@.contains_key(self.thread_ids@[i]@),
            self@[self.thread_ids@[i]@] == self.states@[i],
    {
        let k = self.thread_ids@[i]@;
        assert(self.holds(k));
        let p = self.position(k);
        assert(0 <= p < self.thread_ids.len() && self.thread_ids@[p]@ == k);
        if p < i {
            assert(self.thread_ids@[p]@ != self.thread_ids@[i]@);
        } else if p > i {
            assert(self.thread_ids@[i]@ != self.thread_ids@[p]@);
        }
    }

    /// A registry without sessions.
    pub fn new() -> (r: Self)
        ensures
            r@ == Map::<Seq<char>, SessionState>::empty(),
    {
        let r = SessionRegistry { thread_ids: Vec::new(), states: Vec::new() };
        assert(r@ =~= Map::<Seq<char>, SessionState>::empty());
        r
    }

    /// Number of sessions.
    pub fn len(&self) -> (n: usize)
        ensures
            n == self@.len(),
            self@.dom().finite(),
    {
        proof {
            use_type_invariant(self);
            self.lemma_dom();
        }
        self.thread_ids.len()
    }

    proof fn lemma_dom(self)
        requires
            self.well_formed(),
        ensures
            self@.dom() == string_views(self.thread_ids@).to_set(),
            self@.dom().finite(),
            self@.dom().len() == self.thread_ids.len(),
    {
        let keys = string_views(self.thread_ids@);
        assert forall|k: Seq<char>| self@.dom().contains(k) <==> keys.to_set().contains(k) by {
            if self@.dom().contains(k) {
                let p = self.position(k);
                assert(keys[p] == k);
            }
            if keys.to_set().contains(k) {
                let j = choose|j: int| 0 <= j < keys.len() && keys[j] == k;
                self.lemma_position(j);
            }
        }
        assert(self@.dom() =~= keys.to_set());
        assert(keys.no_duplicates());
        keys.unique_seq_to_set();
    }

    /// Position of `thread_id`, if the session is known.
    fn find(&self, thread_id: &String) -> (r: Option<usize>)
        ensures
            match r {
                Some(i) => i < self.thread_ids.len() && self.thread_ids@[i as int]@ == thread_id@,
                None => !self@.contains_key(thread_id@),
            },
    {
        proof {
            use_type_invariant(self);
        }
        let mut i: usize = 0;
        while i < self.thread_ids.len()
            invariant
                i <= self.thread_ids.len(),
                forall|j: int| 0 <= j < i ==> self.thread_ids@[j]@ != thread_id@,
            decreases self.thread_ids.len() - i,
        {
            if self.thread_ids[i].eq(thread_id) {
                return Some(i);
            }
            i = i + 1;
        }
        proof {
            if self@.contains_key(thread_id@) {
                let p = self.position(thread_id@);
                assert(self.thread_ids@[p]@ == thread_id@);
            }
        }
        None
    }

    /// The remembered state of `thread_id`.
    pub fn get(&self, thread_id: &String) -> (r: Option<SessionState>)
        ensures
            r == (if self@.contains_key(thread_id@) {
                Some(self@[thread_id@])
            } else {
                None
            }),
    {
        proof {
            use_type_invariant(self);
        }
        match self.find(thread_id) {
            Some(i) => {
                proof {
                    self.lemma_position(i as int);
                }
                Some(self.states[i])
            },
            None => None,
        }
    }

    /// Stores `state` for `thread_id`, replacing what was there.
    pub fn put(&mut self, thread_id: &String, state: SessionState)
        ensures
            final(self)@ == old(self)@.insert(thread_id@, state),
    {
        proof {
            use_type_invariant(&*self);
        }
        let ghost before = *self;
        let found = self.find(thread_id);
        let mut taken = SessionRegistry::new();
        std::mem::swap(&mut taken, self);
        let SessionRegistry { thread_ids: mut ids, states: mut sts } = taken;
        match found {
            Some(i) => {
                sts.set(i, state);
                *self = SessionRegistry { thread_ids: ids, states: sts };
                proof {
                    assert(self.thread_ids@ == before.thread_ids@);
                    assert forall|k: Seq<char>| #[trigger] self@.contains_key(k) <==> before@.insert(thread_id@, state).contains_key(k) by {
                        if self.holds(k) {
                            let p = self.position(k);
                            assert(before.thread_ids@[p]@ == k);
                            before.lemma_position(p);
                        }
                        if before@.insert(thread_id@, state).contains_key(k) && k != thread_id@ {
                            let p = before.position(k);
                            assert(self.thread_ids@[p]@ == k);
                        }
                    }
                    assert forall|k: Seq<char>| #[trigger] self@.contains_key(k) implies self@[k] == before@.insert(thread_id@, state)[k] by {
                        let p = self.position(k);
                        self.lemma_position(p);
                        before.lemma_position(p);
                        before.lemma_position(i as int);
                    }
                    assert(self@ =~= before@.insert(thread_id@, state));
                }
            },
            None => {
                ids.push(thread_id.clone());
                sts.push(state);
                proof {
                    let n = before.thread_ids.len() as int;
                    assert forall|a: int, b: int| 0 <= a < b < ids.len() implies ids@[a]@ != ids@[b]@ by {
                        if b == n {
                            assert(ids@[a] == before.thread_ids@[a]);
                        }
                    }
                }
                *self = SessionRegistry { thread_ids: ids, states: sts };
                proof {
                    let n = before.thread_ids.len() as int;
                    assert forall|j: int| 0 <= j < n implies #[trigger] self.thread_ids@[j] == before.thread_ids@[j] && self.states@[j] == before.states@[j] by {}
                    assert(self.thread_ids@[n]@ == thread_id@);
                    assert forall|k: Seq<char>| #[trigger] self@.contains_key(k) <==> before@.insert(thread_id@, state).contains_key(k) by {
                        if self.holds(k) {
                            let p = self.position(k);
                            if p < n {
                                before.lemma_position(p);
                            }
                        }
                        if before@.insert(thread_id@, state).contains_key(k) {
                            if k == thread_id@ {
                                assert(self.thread_ids@[n]@ == k);
                            } else {
                                let p = before.position(k);
                                assert(self.thread_ids@[p]@ == k);
                            }
                        }
                    }
                    assert forall|k: Seq<char>| #[trigger] self@.contains_key(k) implies self@[k] == before@.insert(thread_id@, state)[k] by {
                        let p = self.position(k);
                        self.lemma_position(p);
                        if p < n {
                            before.lemma_position(p);
                        }
                    }
                    assert(self@ =~= before@.insert(thread_id@, state));
                }
            },
        }
    }
}

impl SessionRegistry {
    /// Hands every session that is due for inactivity processing at `now`
    /// to processing: its counter is reset and `now` is remembered as its
    /// last processing.  Returns the thread ids of those sessions.
    pub fn process_inactive(&mut self, config: &AutoTriggerConfig, now: u64) -> (due: Vec<String>)
        ensures
            final(self)@ == sweep_sessions(*config, old(self)@, now),
            string_views(due@).no_duplicates(),
            forall|k: Seq<char>|
                string_views(due@).contains(k) <==> sweep_selects(*config, old(self)@, k, now),
    {
        proof {
            use_type_invariant(&*self);
        }
        let ghost before = *self;
        if !config.enable_auto_trigger {
            let due: Vec<String> = Vec::new();
            assert(string_views(due@) =~= Seq::<Seq<char>>::empty());
            return due;
        }
        let mut taken = SessionRegistry::new();
        std::mem::swap(&mut taken, self);
        let SessionRegistry { thread_ids: ids, states: mut sts } = taken;
        let mut due: Vec<String> = Vec::new();
        let mut i: usize = 0;
        while i < sts.len()
            invariant
                before.well_formed(),
                ids@ == before.thread_ids@,
                sts.len() == before.states.len(),
                i <= sts.len(),
                config.enable_auto_trigger,
                forall|j: int| 0 <= j < i ==> #[trigger] sts@[j] == (if inactive_due(*config, before.states@[j], now) {
                    after_processing(before.states@[j], now)
                } else {
                    before.states@[j]
                }),
                forall|j: int| i <= j < sts.len() ==> #[trigger] sts@[j] == before.states@[j],
                string_views(due@).no_duplicates(),
                forall|k: Seq<char>| string_views(due@).contains(k) <==> exists|j: int|
                    0 <= j < i && #[trigger] ids@[j]@ == k && inactive_due(*config, before.states@[j], now),
            decreases sts.len() - i,
        {
            let s = sts[i];
            let ghost old_due = string_views(due@);
            if inactive_due_at(config, &s, now) {
                due.push(ids[i].clone());
                proof {
                    assert(string_views(due@) =~= old_due.push(ids@[i as int]@));
                    assert forall|a: int| 0 <= a < old_due.len() implies old_due[a] != ids@[i as int]@ by {
                        assert(old_due.contains(old_due[a]));
                        let j = choose|j: int| 0 <= j < i && #[trigger] ids@[j]@ == old_due[a] && inactive_due(*config, before.states@[j], now);
                    }
                    assert forall|k: Seq<char>| string_views(due@).contains(k) <==> (old_due.contains(k) || k == ids@[i as int]@) by {
                        if string_views(due@).contains(k) {
                            let a = choose|a: int| 0 <= a < string_views(due@).len() && string_views(due@)[a] == k;
                            if a < old_due.len() {
                                assert(old_due[a] == k);
                            }
                        }
                        if old_due.contains(k) {
                            let a = choose|a: int| 0 <= a < old_due.len() && old_due[a] == k;
                            assert(string_views(due@)[a] == k);
                        }
                        if k == ids@[i as int]@ {
                            assert(string_views(due@)[old_due.len() as int] == k);
                        }
                    }
                }
                sts.set(i, SessionState { message_count: 0, last_processed: Some(now), last_message: s.last_message });
            }
            proof {
                let new_due = string_views(due@);
                assert forall|k: Seq<char>| new_due.contains(k) <==> exists|j: int|
                    0 <= j < i + 1 && #[trigger] ids@[j]@ == k && inactive_due(*config, before.states@[j], now) by {
                    if exists|j: int| 0 <= j < i + 1 && #[trigger] ids@[j]@ == k && inactive_due(*config, before.states@[j], now) {
                        let j = choose|j: int| 0 <= j < i + 1 && #[trigger] ids@[j]@ == k && inactive_due(*config, before.states@[j], now);
                        if j < i {
                            assert(old_due.contains(k));
                        }
                    }
                    if old_due.contains(k) {
                        let j = choose|j: int| 0 <= j < i && #[trigger] ids@[j]@ == k && inactive_due(*config, before.states@[j], now);
                        assert(0 <= j < i + 1);
                    }
                }
            }
            i = i + 1;
        }
        *self = SessionRegistry { thread_ids: ids, states: sts };
        proof {
            let target = sweep_sessions(*config, before@, now);
            assert forall|k: Seq<char>| #[trigger] self@.contains_key(k) <==> target.contains_key(k) by {
                if self.holds(k) {
                    let p = self.position(k);
                    before.lemma_position(p);
                }
                if target.contains_key(k) {
                    let p = before.position(k);
                    assert(self.thread_ids@[p]@ == k);
                }
            }
            assert forall|k: Seq<char>| #[trigger] self@.contains_key(k) implies self@[k] == target[k] by {
                let p = self.position(k);
                self.lemma_position(p);
                before.lemma_position(p);
            }
            assert(self@ =~= target);
            assert forall|k: Seq<char>|
                string_views(due@).contains(k) <==> sweep_selects(*config, before@, k, now) by {
                if string_views(due@).contains(k) {
                    let j = choose|j: int| 0 <= j < before.thread_ids.len() && #[trigger] ids@[j]@ == k && inactive_due(*config, before.states@[j], now);
                    before.lemma_position(j);
                }
                if sweep_selects(*config, before@, k, now) {
                    let p = before.position(k);
                    before.lemma_position(p);
                    assert(ids@[p]@ == k);
                }
            }
        }
        due
    }
}

/// Executable form of [`interval_passed`].
fn interval_passed_at(config: &AutoTriggerConfig, s: &SessionState, now: u64) -> (r: bool)
    ensures
        r == interval_passed(*config, *s, now),
{
    match s.last_processed {
        Some(t) => elapsed_secs_between(t, now) >= config.min_process_interval_secs,
        None => true,
    }
}

/// Executable form of [`inactive_due`].
pub fn inactive_due_at(config: &AutoTriggerConfig, s: &SessionState, now: u64) -> (r: bool)
    ensures
        r == inactive_due(*config, *s, now),
{
    elapsed_secs_between(s.last_message, now) >= config.inactivity_timeout_secs
        && s.message_count > 0 && interval_passed_at(config, s, now)
}

impl View for SessionRegistry {
    type V = Map<Seq<char>, SessionState>;

    closed spec fn view(&self) -> Map<Seq<char>, SessionState> {
        Map::new(|k: Seq<char>| self.holds(k), |k: Seq<char>| self.states@[self.position(k)])
    }
}

/// The trigger bookkeeping of the MCP server: its configuration, the
/// state of every session, and the wall-clock second of the last
/// processing that a stored message triggered.
pub struct TriggerState {
    pub config: AutoTriggerConfig,
    pub sessions: SessionRegistry,
    /// Unix seconds of the last processing triggered by a stored message; 0 before.
    pub last_global_process: u64,
}

impl TriggerState {
    /// No session seen yet.
    pub fn with_config(config: AutoTriggerConfig) -> (r: Self)
        ensures
            r.config == config,
            r.sessions@ == Map::<Seq<char>, SessionState>::empty(),
            r.last_global_process == 0,
    {
        TriggerState { config, sessions: SessionRegistry::new(), last_global_process: 0 }
    }

    /// Whether the counter of `state` calls for processing at `now`: the
    /// threshold is reached and the minimum interval since the last
    /// processing has passed.
    pub fn should_trigger_processing_inner(&self, state: &SessionState, now: u64) -> (r: bool)
        ensures
            r == count_trigger(self.config, *state, now),
    {
        state.message_count >= self.config.message_count_threshold && interval_passed_at(
            &self.config,
            state,
            now,
        )
    }

    /// Records one stored message of `thread_id` at `now` and says whether
    /// it triggers processing of the session: the counter reaches the
    /// threshold, or the session had been idle for the inactivity timeout,
    /// and the minimum interval has passed.  When it does, the session's
    /// counter starts again from zero, `now` becomes its last processing,
    /// and `now_unix_secs` is remembered as the last global processing.
    /// With automatic triggers disabled nothing changes.
    pub fn check_and_trigger_processing(
        &mut self,
        thread_id: &String,
        now: u64,
        now_unix_secs: u64,
    ) -> (triggered: bool)
        requires
            old(self).config.enable_auto_trigger && old(self).sessions@.contains_key(thread_id@)
                ==> old(self).sessions@[thread_id@].message_count < usize::MAX,
        ensures
            triggered == record_triggers(old(self).config, old(self).sessions@, thread_id@, now),
            final(self).sessions@ == record_sessions(
                old(self).config,
                old(self).sessions@,
                thread_id@,
                now,
            ),
            final(self).config == old(self).config,
            final(self).last_global_process == (if triggered {
                now_unix_secs
            } else {
                old(self).last_global_process
            }),
    {
        if !self.config.enable_auto_trigger {
            return false;
        }
        let known = self.sessions.get(thread_id);
        let idle = match known {
            Some(s) => elapsed_secs_between(s.last_message, now) >= self.config.inactivity_timeout_secs
                && interval_passed_at(&self.config, &s, now),
            None => false,
        };
        let prior = match known {
            Some(s) => s,
            None => SessionState::started_at(now),
        };
        let bumped = SessionState {
            message_count: prior.message_count + 1,
            last_processed: prior.last_processed,
            last_message: now,
        };
        if self.should_trigger_processing_inner(&bumped, now) || idle {
            let reset = SessionState {
                message_count: 0,
                last_processed: Some(now),
                last_message: bumped.last_message,
            };
            self.sessions.put(thread_id, reset);
            self.last_global_process = now_unix_secs;
            true
        } else {
            self.sessions.put(thread_id, bumped);
            false
        }
    }

    /// One round of the inactivity checker at `now`: every session idle for
    /// the inactivity timeout, with unprocessed messages and past its minimum
    /// interval, is handed to processing.  Returns their thread ids.
    pub fn collect_inactive_sessions(&mut self, now: u64) -> (due: Vec<String>)
        ensures
            final(self).sessions@ == sweep_sessions(old(self).config, old(self).sessions@, now),
            final(self).config == old(self).config,
            final(self).last_global_process == old(self).last_global_process,
            string_views(due@).no_duplicates(),
            forall|k: Seq<char>|
                string_views(due@).contains(k) <==> sweep_selects(
                    old(self).config,
                    old(self).sessions@,
                    k,
                    now,
                ),
    {
        let config = self.config;
        self.sessions.process_inactive(&config, now)
    }
}

/// The sessions after messages for `k` were stored at the clock readings `times`, in order.
pub open spec fn record_many(
    config: AutoTriggerConfig,
    m: Map<Seq<char>, SessionState>,
    k: Seq<char>,
    times: Seq<u64>,
) -> Map<Seq<char>, SessionState>
    decreases times.len(),
{
    if times.len() == 0 {
        m
    } else {
        record_sessions(config, record_many(config, m, k, times.drop_last()), k, times.last())
    }
}

/// Processing of a session never happens twice within the minimum interval:
/// when a session last processed at `t` is handed to processing at `now`,
/// whether by a stored message or by the inactivity checker, at least
/// `min_process_interval_secs` whole seconds lie between `t` and `now`.
pub proof fn law_processing_respects_min_interval(
    config: AutoTriggerConfig,
    m: Map<Seq<char>, SessionState>,
    k: Seq<char>,
    t: u64,
    now: u64,
)
    requires
        m.contains_key(k),
        m[k].last_processed == Some(t),
        record_triggers(config, m, k, now) || sweep_selects(config, m, k, now),
    ensures
        elapsed_secs(t, now) >= config.min_process_interval_secs,
{
}

/// After a session is handed to processing its counter is zero and the
/// processing time is remembered, whichever path triggered it.
pub proof fn law_processing_resets_session(
    config: AutoTriggerConfig,
    m: Map<Seq<char>, SessionState>,
    k: Seq<char>,
    now: u64,
)
    ensures
        record_triggers(config, m, k, now) ==> record_sessions(config, m, k, now)[k].message_count
            == 0 && record_sessions(config, m, k, now)[k].last_processed == Some(now),
        sweep_selects(config, m, k, now) ==> sweep_sessions(config, m, now)[k].message_count == 0
            && sweep_sessions(config, m, now)[k].last_processed == Some(now),
{
}

/// Storing a message, or an inactivity sweep, touches no session but its
/// own: every other session keeps its state.
pub proof fn law_other_sessions_unchanged(
    config: AutoTriggerConfig,
    m: Map<Seq<char>, SessionState>,
    k: Seq<char>,
    other: Seq<char>,
    now: u64,
)
    requires
        other != k,
    ensures
        record_sessions(config, m, k, now).contains_key(other) == m.contains_key(other),
        m.contains_key(other) ==> record_sessions(config, m, k, now)[other] == m[other],
        m.contains_key(other) && !sweep_selects(config, m, other, now) ==> sweep_sessions(
            config,
            m,
            now,
        )[other] == m[other],
        sweep_sessions(config, m, now).dom() == m.dom(),
{
    assert(sweep_sessions(config, m, now).dom() =~= m.dom());
}

/// An inactivity sweep leaves no session due: a second sweep at the same
/// clock reading selects nothing and changes nothing.
pub proof fn law_sweep_leaves_nothing_due(
    config: AutoTriggerConfig,
    m: Map<Seq<char>, SessionState>,
    now: u64,
)
    ensures
        forall|k: Seq<char>| !sweep_selects(config, sweep_sessions(config, m, now), k, now),
        sweep_sessions(config, sweep_sessions(config, m, now), now) == sweep_sessions(config, m, now),
{
    let once = sweep_sessions(config, m, now);
    assert(sweep_sessions(config, once, now) =~= once);
}

/// With automatic triggers disabled, neither stored messages nor the
/// inactivity checker change anything or trigger processing.
pub proof fn law_disabled_never_triggers(
    config: AutoTriggerConfig,
    m: Map<Seq<char>, SessionState>,
    k: Seq<char>,
    now: u64,
)
    requires
        !config.enable_auto_trigger,
    ensures
        !record_triggers(config, m, k, now),
        record_sessions(config, m, k, now) == m,
        !sweep_selects(config, m, k, now),
        sweep_sessions(config, m, now) == m,
{
}

/// A message stored while its session is active (the previous message lies
/// less than the inactivity timeout back) and that leaves the counter below
/// the threshold does not trigger processing: the counter grows by one and
/// the message time is remembered.
pub proof fn law_active_session_store_only_counts(
    config: AutoTriggerConfig,
    m: Map<Seq<char>, SessionState>,
    k: Seq<char>,
    now: u64,
)
    requires
        m.contains_key(k),
        elapsed_secs(m[k].last_message, now) < config.inactivity_timeout_secs,
        m[k].message_count + 1 < config.message_count_threshold,
    ensures
        !record_triggers(config, m, k, now),
        config.enable_auto_trigger ==> record_sessions(config, m, k, now)[k] == (SessionState {
            message_count: (m[k].message_count + 1) as usize,
            last_processed: m[k].last_processed,
            last_message: now,
        }),
{
}

/// A message stored after its session has been idle for the inactivity
/// timeout (measured from the previous message) triggers processing as
/// soon as the minimum interval since the last processing has passed,
/// however few messages the session holds.
pub proof fn law_idle_session_store_triggers(
    config: AutoTriggerConfig,
    m: Map<Seq<char>, SessionState>,
    k: Seq<char>,
    now: u64,
)
    requires
        config.enable_auto_trigger,
        m.contains_key(k),
        elapsed_secs(m[k].last_message, now) >= config.inactivity_timeout_secs,
        match m[k].last_processed {
            Some(t) => elapsed_secs(t, now) >= config.min_process_interval_secs,
            None => true,
        },
    ensures
        record_triggers(config, m, k, now),
        record_sessions(config, m, k, now)[k].message_count == 0,
        record_sessions(config, m, k, now)[k].last_processed == Some(now),
{
}

/// A session is due for the inactivity checker exactly when its last stored
/// message lies at least the inactivity timeout back, it holds messages not
/// yet processed, and the minimum interval since its last processing has
/// passed.
pub proof fn law_due_means_idle_since_last_message(
    config: AutoTriggerConfig,
    s: SessionState,
    now: u64,
)
    ensures
        inactive_due(config, s, now) <==> (config.inactivity_timeout_secs <= elapsed_secs(
            s.last_message,
            now,
        ) && s.message_count > 0 && match s.last_processed {
            Some(t) => elapsed_secs(t, now) >= config.min_process_interval_secs,
            None => true,
        }),
{
}

/// The inactivity sweep selects only known sessions whose last stored
/// message lies at least the inactivity timeout back; a session with a
/// message inside the timeout keeps its state untouched.
pub proof fn law_sweep_selects_only_idle_sessions(
    config: AutoTriggerConfig,
    m: Map<Seq<char>, SessionState>,
    k: Seq<char>,
    now: u64,
)
    ensures
        sweep_selects(config, m, k, now) ==> m.contains_key(k) && elapsed_secs(
            m[k].last_message,
            now,
        ) >= config.inactivity_timeout_secs && m[k].message_count > 0,
        m.contains_key(k) && elapsed_secs(m[k].last_message, now) < config.inactivity_timeout_secs
            ==> !sweep_selects(config, m, k, now) && sweep_sessions(config, m, now)[k] == m[k],
{
}

/// A new session counts its messages: while fewer messages than the
/// threshold have been stored, each within the inactivity timeout of the
/// one before, none of them triggers processing, and the counter equals the
/// number of stored messages.
pub proof fn law_new_session_counts_messages(
    config: AutoTriggerConfig,
    m: Map<Seq<char>, SessionState>,
    k: Seq<char>,
    times: Seq<u64>,
)
    requires
        config.enable_auto_trigger,
        !m.contains_key(k),
        times.len() < config.message_count_threshold,
        forall|j: int|
            0 < j < times.len() ==> elapsed_secs(#[trigger] times[j - 1], times[j])
                < config.inactivity_timeout_secs,
    ensures
        times.len() > 0 ==> record_many(config, m, k, times)[k] == (SessionState {
            message_count: times.len() as usize,
            last_processed: None,
            last_message: times.last(),
        }),
        times.len() == 0 ==> !record_many(config, m, k, times).contains_key(k),
        forall|j: int|
            0 <= j < times.len() ==> !record_triggers(
                config,
                #[trigger] record_many(config, m, k, times.take(j)),
                k,
                times[j],
            ),
    decreases times.len(),
{
    if times.len() > 0 {
        let prefix = times.drop_last();
        assert forall|j: int| 0 < j < prefix.len() implies elapsed_secs(#[trigger] prefix[j - 1], prefix[j])
            < config.inactivity_timeout_secs by {
            assert(prefix[j - 1] == times[j - 1] && prefix[j] == times[j]);
        }
        law_new_session_counts_messages(config, m, k, prefix);
        if prefix.len() > 0 {
            assert(elapsed_secs(times[prefix.len() - 1], times[prefix.len() as int]) < config.inactivity_timeout_secs);
            assert(prefix.last() == times[prefix.len() - 1]);
        }
        assert forall|j: int| 0 <= j < times.len() implies !record_triggers(
            config,
            #[trigger] record_many(config, m, k, times.take(j)),
            k,
            times[j],
        ) by {
            if j < prefix.len() {
                assert(times.take(j) =~= prefix.take(j));
                assert(times[j] == prefix[j]);
            } else {
                assert(times.take(j) =~= prefix);
            }
        }
    }
}

/// The message that brings a new session's counter to the threshold
/// triggers processing, when no earlier message of it arrived after an idle
/// period.
pub proof fn law_threshold_message_triggers(
    config: AutoTriggerConfig,
    m: Map<Seq<char>, SessionState>,
    k: Seq<char>,
    times: Seq<u64>,
    now: u64,
)
    requires
        config.enable_auto_trigger,
        config.message_count_threshold >= 1,
        !m.contains_key(k),
        times.len() + 1 == config.message_count_threshold,
        forall|j: int|
            0 < j < times.len() ==> elapsed_secs(#[trigger] times[j - 1], times[j])
                < config.inactivity_timeout_secs,
    ensures
        record_triggers(config, record_many(config, m, k, times), k, now),
{
    law_new_session_counts_messages(config, m, k, times);
}

/// What happens to the sessions: a message stored for a thread at a clock
/// reading, or an inactivity sweep at a clock reading.
pub ghost enum TriggerEvent {
    Store(Seq<char>, u64),
    Sweep(u64),
}

/// The clock reading of an event.
pub open spec fn event_time(e: TriggerEvent) -> u64 {
    match e {
        TriggerEvent::Store(_, now) => now,
        TriggerEvent::Sweep(now) => now,
    }
}

/// The sessions after one event.
pub open spec fn apply_event(
    config: AutoTriggerConfig,
    m: Map<Seq<char>, SessionState>,
    e: TriggerEvent,
) -> Map<Seq<char>, SessionState> {
    match e {
        TriggerEvent::Store(k, now) => record_sessions(config, m, k, now),
        TriggerEvent::Sweep(now) => sweep_sessions(config, m, now),
    }
}

/// The sessions after the events, in order.
pub open spec fn run_events(
    config: AutoTriggerConfig,
    m: Map<Seq<char>, SessionState>,
    events: Seq<TriggerEvent>,
) -> Map<Seq<char>, SessionState>
    decreases events.len(),
{
    if events.len() == 0 {
        m
    } else {
        apply_event(config, run_events(config, m, events.drop_last()), events.last())
    }
}

/// Event `n` hands session `t` to processing.
pub open spec fn processes_at(
    config: AutoTriggerConfig,
    m: Map<Seq<char>, SessionState>,
    events: Seq<TriggerEvent>,
    n: int,
    t: Seq<char>,
) -> bool {
    let before = run_events(config, m, events.take(n));
    match events[n] {
        TriggerEvent::Store(k, now) => k == t && record_triggers(config, before, k, now),
        TriggerEvent::Sweep(now) => sweep_selects(config, before, t, now),
    }
}

/// Event `l` stores a message for `t`.
pub open spec fn stores_for(events: Seq<TriggerEvent>, l: int, t: Seq<char>) -> bool {
    events[l] matches TriggerEvent::Store(k, _) && k == t
}

/// The clock never runs backwards over the events.
pub open spec fn clock_monotone(events: Seq<TriggerEvent>) -> bool {
    forall|a: int, b: int|
        0 <= a <= b < events.len() ==> event_time(#[trigger] events[a]) <= event_time(
            #[trigger] events[b],
        )
}

proof fn lemma_run_step(
    config: AutoTriggerConfig,
    m: Map<Seq<char>, SessionState>,
    events: Seq<TriggerEvent>,
    n: int,
)
    requires
        0 <= n < events.len(),
    ensures
        run_events(config, m, events.take(n + 1)) == apply_event(
            config,
            run_events(config, m, events.take(n)),
            events[n],
        ),
{
    assert(events.take(n + 1).drop_last() =~= events.take(n));
}

/// What holds of session `t` at every point after event `i` processed it.
spec fn since_processing(
    config: AutoTriggerConfig,
    m: Map<Seq<char>, SessionState>,
    events: Seq<TriggerEvent>,
    i: int,
    n: int,
    t: Seq<char>,
) -> bool {
    let s = run_events(config, m, events.take(n));
    &&& s.contains_key(t)
    &&& s[t].last_processed matches Some(p) && event_time(events[i]) <= p <= event_time(
        events[n - 1],
    )
    &&& s[t].message_count > 0 ==> exists|l: int| i < l < n && #[trigger] stores_for(events, l, t)
}

proof fn lemma_since_processing(
    config: AutoTriggerConfig,
    m: Map<Seq<char>, SessionState>,
    events: Seq<TriggerEvent>,
    i: int,
    n: int,
    t: Seq<char>,
)
    requires
        0 <= i < n <= events.len(),
        clock_monotone(events),
        processes_at(config, m, events, i, t),
    ensures
        since_processing(config, m, events, i, n, t),
    decreases n - i,
{
    if n == i + 1 {
        lemma_run_step(config, m, events, i);
    } else {
        lemma_since_processing(config, m, events, i, n - 1, t);
        lemma_run_step(config, m, events, n - 1);
        let before = run_events(config, m, events.take(n - 1));
        let after = run_events(config, m, events.take(n));
        assert(event_time(events[n - 2]) <= event_time(events[n - 1]));
        match events[n - 1] {
            TriggerEvent::Store(k, now) => {
                if k == t {
                    if !record_triggers(config, before, k, now) {
                        assert(config.enable_auto_trigger);
                        assert(stores_for(events, n - 1, t));
                    }
                } else {
                    law_other_sessions_unchanged(config, before, k, t, now);
                    if after[t].message_count > 0 {
                        let l = choose|l: int| i < l < n - 1 && #[trigger] stores_for(events, l, t);
                        assert(stores_for(events, l, t));
                    }
                }
            },
            TriggerEvent::Sweep(now) => {
                if !sweep_selects(config, before, t, now) && after[t].message_count > 0 {
                    let l = choose|l: int| i < l < n - 1 && #[trigger] stores_for(events, l, t);
                    assert(stores_for(events, l, t));
                }
            },
        }
    }
}

/// Over any run of stored messages and inactivity sweeps with a clock that
/// never runs backwards, two processings of one session lie at least the
/// minimum interval apart, and a message for that session was stored after
/// the first and no later than the second.
pub proof fn law_processing_needs_store_and_interval(
    config: AutoTriggerConfig,
    m: Map<Seq<char>, SessionState>,
    events: Seq<TriggerEvent>,
    t: Seq<char>,
    i: int,
    j: int,
)
    requires
        0 <= i < j < events.len(),
        clock_monotone(events),
        processes_at(config, m, events, i, t),
        processes_at(config, m, events, j, t),
    ensures
        elapsed_secs(event_time(events[i]), event_time(events[j])) >= config.min_process_interval_secs,
        exists|l: int| i < l <= j && #[trigger] stores_for(events, l, t),
{
    lemma_since_processing(config, m, events, i, j, t);
    let before = run_events(config, m, events.take(j));
    let p = before[t].last_processed->0;
    let ti = event_time(events[i]);
    let tj = event_time(events[j]);
    assert(event_time(events[j - 1]) <= tj);
    assert(ti <= p <= tj);
    assert(elapsed_secs(p, tj) >= config.min_process_interval_secs) by {
        match events[j] {
            TriggerEvent::Store(k, now) => {
                assert(prior_state(before, k, now) == before[t]);
            },
            TriggerEvent::Sweep(now) => {},
        }
    }
    assert((tj - ti) as int / NANOS_PER_SEC as int >= (tj - p) as int / NANOS_PER_SEC as int) by (nonlinear_arith)
        requires
            ti <= p <= tj,
    ;
    match events[j] {
        TriggerEvent::Store(k, now) => {
            assert(stores_for(events, j, t));
        },
        TriggerEvent::Sweep(now) => {
            let l = choose|l: int| i < l < j && #[trigger] stores_for(events, l, t);
            assert(stores_for(events, l, t));
        },
    }
}

} // verus!
