use vstd::prelude::*;
use crate::cache_key::{cache_key, key_spec, quotable};
use crate::prompts::{RequestView, TranslationRequest};

verus! {

/// How long a cached reply lives, in seconds: one day.
pub const CACHE_TTL_SECONDS: u64 = 24 * 60 * 60;

/// The moment, in seconds, until which an entry written at `now` with `ttl`
/// lives; it saturates at the end of time.
pub open spec fn expiry(now: u64, ttl: u64) -> u64 {
    if now + ttl > u64::MAX {
        u64::MAX
    } else {
        (now + ttl) as u64
    }
}

/// The value stored under `key`, if there is one and it has not expired at `now`.
pub open spec fn live_value(
    m: Map<Seq<char>, (Seq<char>, u64)>,
    key: Seq<char>,
    now: u64,
) -> Option<Seq<char>> {
    if m.contains_key(key) && now < m[key].1 {
        Some(m[key].0)
    } else {
        None
    }
}

/// One stored reply.
pub struct CacheEntry {
    pub key: String,
    pub value: String,
    pub expires_at: u64,
}

/// What a sequence of entries holds: each key maps to its latest entry.
pub open spec fn entries_map(s: Seq<CacheEntry>) -> Map<Seq<char>, (Seq<char>, u64)>
    decreases s.len(),
{
    if s.len() == 0 {
        Map::empty()
    } else {
        entries_map(s.drop_last()).insert(s.last().key@, (s.last().value@, s.last().expires_at))
    }
}

/// Entries past index `i` that do not hold `k` leave its lookup as it was.
proof fn lemma_entries_suffix(s: Seq<CacheEntry>, i: int, k: Seq<char>)
    requires
        0 <= i <= s.len(),
        forall|j: int| i <= j < s.len() ==> (#[trigger] s[j]).key@ != k,
    ensures
        entries_map(s).contains_key(k) == entries_map(s.take(i)).contains_key(k),
        entries_map(s).contains_key(k) ==> entries_map(s)[k] == entries_map(s.take(i))[k],
    decreases s.len(),
{
    if s.len() > i {
        assert(s.drop_last().take(i) =~= s.take(i));
        lemma_entries_suffix(s.drop_last(), i, k);
    } else {
        assert(s.take(i) =~= s);
    }
}

/// Replacing the last entry for a key acts as inserting the new entry.
proof fn lemma_entries_update(s: Seq<CacheEntry>, i: int, e: CacheEntry)
    requires
        0 <= i < s.len(),
        s[i].key@ == e.key@,
        forall|j: int| i < j < s.len() ==> (#[trigger] s[j]).key@ != e.key@,
    ensures
        entries_map(s.update(i, e)) =~= entries_map(s).insert(e.key@, (e.value@, e.expires_at)),
    decreases s.len(),
{
    let u = s.update(i, e);
    if s.len() == i + 1 {
        assert(u.drop_last() =~= s.drop_last());
    } else {
        assert(u.drop_last() =~= s.drop_last().update(i, e));
        lemma_entries_update(s.drop_last(), i, e);
    }
}

/// An in-memory key/value store whose entries expire: a store for one
/// process, and a model of the shared store the application talks to.
pub struct CacheStore {
    entries: Vec<CacheEntry>,
}

impl View for CacheStore {
    type V = Map<Seq<char>, (Seq<char>, u64)>;

    closed spec fn view(&self) -> Map<Seq<char>, (Seq<char>, u64)> {
        entries_map(self.entries@)
    }
}

impl CacheStore {
    pub fn new() -> (r: CacheStore)
        ensures
            r@ == Map::<Seq<char>, (Seq<char>, u64)>::empty(),
    {
        CacheStore { entries: Vec::new() }
    }

    /// The index of the latest entry for `key`.
    fn find(&self, key: &String) -> (r: Option<usize>)
        ensures
            r is None ==> !self@.contains_key(key@),
            r matches Some(i) ==> {
                &&& i < self.entries@.len()
                &&& self.entries@[i as int].key@ == key@
                &&& forall|j: int|
                    i < j < self.entries@.len() ==> (#[trigger] self.entries@[j]).key@ != key@
            },
    {
        let mut i: usize = self.entries.len();
        while i > 0
            invariant
                i <= self.entries@.len(),
                forall|j: int| i <= j < self.entries@.len() ==> (#[trigger] self.entries@[j]).key@ != key@,
            decreases i,
        {
            if self.entries[i - 1].key == *key {
                return Some(i - 1);
            }
            i = i - 1;
        }
        proof {
            lemma_entries_suffix(self.entries@, 0, key@);
        }
        None
    }

    /// The value stored under `key`, unless it is absent or expired at `now`.
    pub fn get(&self, key: &String, now: u64) -> (r: Option<String>)
        ensures
            r is Some <==> live_value(self@, key@, now) is Some,
            r matches Some(v) ==> live_value(self@, key@, now) == Some(v@),
    {
        match self.find(key) {
            Some(i) => {
                let ghost s = self.entries@;
                proof {
                    lemma_entries_suffix(s, i + 1, key@);
                    assert(s.take(i + 1).drop_last() =~= s.take(i as int));
                }
                let entry = &self.entries[i];
                if now < entry.expires_at {
                    Some(entry.value.clone())
                } else {
                    None
                }
            },
            None => None,
        }
    }

    /// Stores `value` under `key` for `ttl` seconds from `now`, replacing what
    /// was there.
    pub fn put(&mut self, key: String, value: String, ttl: u64, now: u64)
        ensures
            final(self)@ == old(self)@.insert(key@, (value@, expiry(now, ttl))),
    {
        let expires_at = now.saturating_add(ttl);
        match self.find(&key) {
            Some(i) => {
                let entry = CacheEntry { key, value, expires_at };
                proof {
                    lemma_entries_update(self.entries@, i as int, entry);
                }
                self.entries.set(i, entry);
            },
            None => {
                let entry = CacheEntry { key, value, expires_at };
                let ghost before = self.entries@;
                self.entries.push(entry);
                assert(self.entries@.drop_last() =~= before);
            },
        }
    }
}

/// The translation backend could not answer.
#[derive(Debug)]
pub enum UpstreamError {
    /// The request failed on its way or was refused; the backend's words.
    Request(String),
    /// The backend answered with no choice to read a reply from.
    NoChoices,
}

/// The shared store could not be reached or failed; such a failure only ever
/// turns a lookup into a miss.
#[derive(Debug)]
pub struct CacheError {
    pub message: String,
}

/// What the driver of a cached query is asked to do next.
#[derive(Debug)]
pub enum QueryStep {
    /// Look the key up in the store.
    Lookup(String),
    /// Send the request to the translation backend.
    CallUpstream,
    /// Store the reply under the key for the given number of seconds.
    Store { key: String, value: String, ttl_seconds: u64 },
    /// The query is answered.
    Finish(Result<String, UpstreamError>),
}

/// A step as plain values; a failure keeps only that it failed.
pub enum StepView {
    Lookup(Seq<char>),
    CallUpstream,
    Store(Seq<char>, Seq<char>, u64),
    Finish(Option<Seq<char>>),
}

impl View for QueryStep {
    type V = StepView;

    open spec fn view(&self) -> StepView {
        match self {
            QueryStep::Lookup(k) => StepView::Lookup(k@),
            QueryStep::CallUpstream => StepView::CallUpstream,
            QueryStep::Store { key, value, ttl_seconds } => StepView::Store(
                key@,
                value@,
                *ttl_seconds,
            ),
            QueryStep::Finish(Ok(v)) => StepView::Finish(Some(v@)),
            QueryStep::Finish(Err(_)) => StepView::Finish(None),
        }
    }
}

/// Where a cached query stands.
#[derive(Clone, Copy, Debug, PartialEq, Eq, Structural)]
pub enum QueryPhase {
    Looking,
    Calling,
    Storing,
    Done,
}

/// The first step of a query: look its key up, or, where the request has no
/// key, go straight to the backend.
pub open spec fn start_step(req: RequestView) -> StepView {
    if quotable(req) {
        StepView::Lookup(key_spec(req))
    } else {
        StepView::CallUpstream
    }
}

/// The step after a lookup that found `found`: a hit answers the query, a miss
/// (or a store failure) goes to the backend.
pub open spec fn lookup_step(found: Option<Seq<char>>) -> StepView {
    match found {
        Some(v) => StepView::Finish(Some(v)),
        None => StepView::CallUpstream,
    }
}

/// The step after the backend answered `reply`: a reply is stored under the
/// key, if there is one, before it is returned; a failure is returned as is.
pub open spec fn reply_step(key: Option<Seq<char>>, reply: Option<Seq<char>>) -> StepView {
    match (key, reply) {
        (Some(k), Some(v)) => StepView::Store(k, v, CACHE_TTL_SECONDS),
        (None, Some(v)) => StepView::Finish(Some(v)),
        (_, None) => StepView::Finish(None),
    }
}

/// What a lookup outcome found: nothing on a failure.
pub open spec fn found_view(looked: Result<Option<String>, CacheError>) -> Option<Seq<char>> {
    match looked {
        Ok(Some(v)) => Some(v@),
        _ => None,
    }
}

/// What the backend answered: nothing on a failure.
pub open spec fn reply_view(reply: Result<String, UpstreamError>) -> Option<Seq<char>> {
    match reply {
        Ok(v) => Some(v@),
        Err(_) => None,
    }
}

/// One translation through the cache: at most one backend call, and a reply
/// that the backend gave is stored before it is returned.
pub struct CachedQuery {
    key: Option<String>,
    phase: QueryPhase,
    reply: String,
}

impl CachedQuery {
    pub closed spec fn spec_key(&self) -> Option<Seq<char>> {
        match self.key {
            Some(k) => Some(k@),
            None => None,
        }
    }

    pub closed spec fn spec_phase(&self) -> QueryPhase {
        self.phase
    }

    /// The reply awaiting storage.
    pub closed spec fn spec_reply(&self) -> Seq<char> {
        self.reply@
    }

    pub fn phase(&self) -> (r: QueryPhase)
        ensures
            r == self.spec_phase(),
    {
        self.phase
    }

    /// Begins the query for `req`.
    pub fn start(req: &TranslationRequest) -> (r: (CachedQuery, QueryStep))
        ensures
            r.1@ == start_step(req@),
            r.0.spec_key() == (if quotable(req@) {
                Some(key_spec(req@))
            } else {
                None
            }),
            r.0.spec_phase() == (if quotable(req@) {
                QueryPhase::Looking
            } else {
                QueryPhase::Calling
            }),
    {
        match cache_key(req) {
            Some(k) => {
                let step = QueryStep::Lookup(k.clone());
                (CachedQuery { key: Some(k), phase: QueryPhase::Looking, reply: String::new() }, step)
            },
            None => (
                CachedQuery { key: None, phase: QueryPhase::Calling, reply: String::new() },
                QueryStep::CallUpstream,
            ),
        }
    }

    /// Takes the outcome of the lookup.
    pub fn on_lookup(&mut self, looked: Result<Option<String>, CacheError>) -> (r: QueryStep)
        requires
            old(self).spec_phase() == QueryPhase::Looking,
        ensures
            r@ == lookup_step(found_view(looked)),
            final(self).spec_key() == old(self).spec_key(),
            final(self).spec_phase() == (if found_view(looked) is Some {
                QueryPhase::Done
            } else {
                QueryPhase::Calling
            }),
    {
        match looked {
            Ok(Some(v)) => {
                self.phase = QueryPhase::Done;
                QueryStep::Finish(Ok(v))
            },
            _ => {
                self.phase = QueryPhase::Calling;
                QueryStep::CallUpstream
            },
        }
    }

    /// Takes the backend's answer.
    pub fn on_reply(&mut self, reply: Result<String, UpstreamError>) -> (r: QueryStep)
        requires
            old(self).spec_phase() == QueryPhase::Calling,
        ensures
            r@ == reply_step(old(self).spec_key(), reply_view(reply)),
            reply matches Err(e) ==> r == QueryStep::Finish(Err(e)),
            final(self).spec_key() == old(self).spec_key(),
            final(self).spec_phase() == (if r is Store {
                QueryPhase::Storing
            } else {
                QueryPhase::Done
            }),
            r is Store ==> final(self).spec_reply() == reply_view(reply)->Some_0,
    {
        match reply {
            Ok(v) => match &self.key {
                Some(k) => {
                    let key = k.clone();
                    self.reply = v.clone();
                    self.phase = QueryPhase::Storing;
                    QueryStep::Store { key, value: v, ttl_seconds: CACHE_TTL_SECONDS }
                },
                None => {
                    self.phase = QueryPhase::Done;
                    QueryStep::Finish(Ok(v))
                },
            },
            Err(e) => {
                self.phase = QueryPhase::Done;
                QueryStep::Finish(Err(e))
            },
        }
    }

    /// Takes the outcome of storing the reply; a failed store still returns
    /// the reply.
    pub fn on_stored(&mut self, _stored: Result<(), CacheError>) -> (r: QueryStep)
        requires
            old(self).spec_phase() == QueryPhase::Storing,
        ensures
            r@ == StepView::Finish(Some(old(self).spec_reply())),
            final(self).spec_phase() == QueryPhase::Done,
    {
        self.phase = QueryPhase::Done;
        let reply = self.reply.clone();
        QueryStep::Finish(Ok(reply))
    }
}

/// A request asked twice: the first time it misses, the backend's reply is
/// stored; asked again while that entry lives, it is looked up under the same
/// key and answered with the same text, without a backend call.
pub proof fn lemma_repeat_query_hits_cache(
    store: Map<Seq<char>, (Seq<char>, u64)>,
    req: RequestView,
    reply: Seq<char>,
    t1: u64,
    t2: u64,
)
    requires
        quotable(req),
        live_value(store, key_spec(req), t1) is None,
        t1 <= t2,
        t2 < expiry(t1, CACHE_TTL_SECONDS),
    ensures
        start_step(req) == StepView::Lookup(key_spec(req)),
        lookup_step(live_value(store, key_spec(req), t1)) == StepView::CallUpstream,
        reply_step(Some(key_spec(req)), Some(reply)) == StepView::Store(
            key_spec(req),
            reply,
            CACHE_TTL_SECONDS,
        ),
        ({
            let after = store.insert(key_spec(req), (reply, expiry(t1, CACHE_TTL_SECONDS)));
            lookup_step(live_value(after, key_spec(req), t2)) == StepView::Finish(Some(reply))
        }),
{
}

/// A request answered from the store is answered again, with the same text
/// and without a backend call, while the entry lives.
pub proof fn lemma_cached_answer_repeats(
    store: Map<Seq<char>, (Seq<char>, u64)>,
    req: RequestView,
    t1: u64,
    t2: u64,
)
    requires
        quotable(req),
        live_value(store, key_spec(req), t1) is Some,
        t1 <= t2,
        t2 < store[key_spec(req)].1,
    ensures
        lookup_step(live_value(store, key_spec(req), t1)) == StepView::Finish(
            Some(store[key_spec(req)].0),
        ),
        lookup_step(live_value(store, key_spec(req), t2)) == lookup_step(
            live_value(store, key_spec(req), t1),
        ),
{
}

} // verus!
