//! The repository of jobs: a connection pool for the store and a cache for
//! what was read from it.
//!
//! The repository decides; it does not talk to the store. For each read it
//! says whether the cache answers it or which query has to be run, and it
//! takes the rows that a query gave to refill the cache.

use crate::cache::{CacheState, TTLCache};
use crate::error::AppError;
use crate::pool::{attempt_of, Acquire, Connection, Pool, PoolError, PoolState};
use crate::database::query::{
    append_clause, clause_if, like_pattern, like_pattern_of, opt_string_text, param_if, SearchQuery,
};
use crate::text::{opt_text, push_text, text_or_empty, texts};
use vstd::prelude::*;

verus! {

/// The number of connections that a repository keeps open, unless it is
/// told otherwise.
pub const MAX_CONNECTIONS: usize = 10;

/// How long a caller waits for a connection, unless the repository is
/// told otherwise: 30 seconds.
pub const CONNECTION_TIMEOUT_MS: u64 = 30000;

/// How long a cached result is served, unless the repository is told
/// otherwise: 5 minutes.
pub const CACHE_TTL_MS: u64 = 300000;

/// The key under which the list of all jobs is cached.
pub const ALL_JOBS_KEY: &'static str = "all_jobs";

/// The statement that lists every job, best match first.
pub const ALL_JOBS_SQL: &'static str =
    "SELECT id, title, company, location, description, salary_range, matching_score, status, source \
FROM jobs ORDER BY matching_score DESC, created_at DESC";

/// How the statement that searches the jobs begins.
pub const SEARCH_HEAD: &'static str =
    "SELECT id, title, company, location, description, matching_score FROM jobs WHERE 1=1";

/// The clause for the keywords: a job matches if its title, its company
/// or its description does.
pub const KEYWORDS_CLAUSE: &'static str =
    " AND (title LIKE ? OR company LIKE ? OR description LIKE ?)";

/// The clause for the location.
pub const LOCATION_CLAUSE: &'static str = " AND location LIKE ?";

/// How the statement that searches the jobs ends: best match first, and
/// no more than 100 rows.
pub const SEARCH_TAIL: &'static str = " ORDER BY matching_score DESC LIMIT 100";

/// The key under which the result of a search is cached: the word
/// `search`, the keywords and the location, with a colon between them. A
/// filter that is not given counts as empty.
pub open spec fn search_key(keywords: Option<Seq<char>>, location: Option<Seq<char>>) -> Seq<
    char,
> {
    "search:"@ + text_or_empty(keywords) + ":"@ + text_or_empty(location)
}

/// Searches for different texts have different keys, as long as the
/// keywords hold no colon: the key then tells the keywords from the
/// location. With a colon in the keywords it does not, and the searches
/// for `a:b` anywhere and for `a` in `b:` share a key. A filter that is
/// not given shares its key with the empty one.
pub proof fn lemma_search_key_separates(
    keywords1: Option<Seq<char>>,
    location1: Option<Seq<char>>,
    keywords2: Option<Seq<char>>,
    location2: Option<Seq<char>>,
)
    requires
        !text_or_empty(keywords1).contains(':'),
        !text_or_empty(keywords2).contains(':'),
        search_key(keywords1, location1) == search_key(keywords2, location2),
    ensures
        text_or_empty(keywords1) == text_or_empty(keywords2),
        text_or_empty(location1) == text_or_empty(location2),
{
    reveal_strlit("search:");
    reveal_strlit(":");
    let k1 = text_or_empty(keywords1);
    let k2 = text_or_empty(keywords2);
    let l1 = text_or_empty(location1);
    let l2 = text_or_empty(location2);
    let key1 = search_key(keywords1, location1);
    let key2 = search_key(keywords2, location2);
    let n1 = k1.len() as int;
    let n2 = k2.len() as int;
    assert(key1.len() == 7 + n1 + 1 + l1.len());
    assert(key2.len() == 7 + n2 + 1 + l2.len());
    if n1 < n2 {
        assert(key1[7 + n1] == ':');
        assert(key2[7 + n1] == k2[n1]);
        assert(k2.contains(k2[n1]));
    }
    if n2 < n1 {
        assert(key2[7 + n2] == ':');
        assert(key1[7 + n2] == k1[n2]);
        assert(k1.contains(k1[n2]));
    }
    assert forall|i: int| 0 <= i < n1 implies k1[i] == k2[i] by {
        assert(key1[7 + i] == k1[i]);
        assert(key2[7 + i] == k2[i]);
    }
    assert(k1 =~= k2);
    assert forall|i: int| 0 <= i < l1.len() implies l1[i] == l2[i] by {
        assert(key1[7 + n1 + 1 + i] == l1[i]);
        assert(key2[7 + n2 + 1 + i] == l2[i]);
    }
    assert(l1 =~= l2);
}

/// The statement that searches the jobs, with a clause for each filter
/// that is given.
pub open spec fn search_sql(by_keywords: bool, by_location: bool) -> Seq<char> {
    SEARCH_HEAD@ + clause_if(by_keywords, KEYWORDS_CLAUSE@) + clause_if(
        by_location,
        LOCATION_CLAUSE@,
    ) + SEARCH_TAIL@
}

/// A term's pattern, where the term is given.
pub open spec fn opt_pattern(term: Option<Seq<char>>) -> Option<Seq<char>> {
    match term {
        Some(t) => Some(like_pattern_of(t)),
        None => None,
    }
}

/// The values for the statement's placeholders, in order: the keywords'
/// pattern three times, then the location's pattern, each where given.
pub open spec fn search_params(
    keywords: Option<Seq<char>>,
    location: Option<Seq<char>>,
) -> Seq<Seq<char>> {
    (match keywords {
        Some(kw) => seq![like_pattern_of(kw), like_pattern_of(kw), like_pattern_of(kw)],
        None => Seq::empty(),
    }) + param_if(opt_pattern(location))
}

/// The key under which the result of the search by `keywords` and
/// `location` is cached.
pub fn search_cache_key(keywords: Option<&str>, location: Option<&str>) -> (key: String)
    ensures
        key@ == search_key(opt_text(keywords), opt_text(location)),
{
    let mut key = "search:".to_owned();
    if let Some(kw) = keywords {
        key.append(kw);
    }
    key.append(":");
    if let Some(loc) = location {
        key.append(loc);
    }
    key
}

fn pattern_for(term: Option<&str>) -> (pattern: Option<String>)
    ensures
        opt_string_text(pattern) == opt_pattern(opt_text(term)),
{
    match term {
        Some(t) => Some(like_pattern(t)),
        None => None,
    }
}

/// The statement and the values that run the search by `keywords` and
/// `location`.
pub fn build_search_query(keywords: Option<&str>, location: Option<&str>) -> (query: SearchQuery)
    ensures
        query.sql@ == search_sql(keywords is Some, location is Some),
        texts(query.params@) == search_params(opt_text(keywords), opt_text(location)),
{
    let mut sql = SEARCH_HEAD.to_owned();
    let mut params: Vec<String> = Vec::new();
    if let Some(kw) = keywords {
        sql.append(KEYWORDS_CLAUSE);
        push_text(&mut params, like_pattern(kw));
        push_text(&mut params, like_pattern(kw));
        push_text(&mut params, like_pattern(kw));
    }
    append_clause(&mut sql, &mut params, LOCATION_CLAUSE, pattern_for(location));
    sql.append(SEARCH_TAIL);
    SearchQuery { sql, params }
}

/// A pool's refusal as an application error: a timeout is an error of the
/// database, said in these words.
pub fn pool_error(error: PoolError) -> (res: AppError)
    ensures
        res matches AppError::Database(msg) && msg@
            == "Aucune connexion disponible dans le délai imparti"@,
{
    match error {
        PoolError::PoolTimeout => AppError::Database(
            "Aucune connexion disponible dans le délai imparti".to_owned(),
        ),
    }
}

/// What a repository is, mathematically: its pool and its cache.
pub struct RepositoryState<J> {
    pub pool: PoolState,
    pub cache: CacheState<Vec<J>>,
}

/// How a read is to be answered.
#[derive(Debug)]
pub enum ReadPlan<'a, J> {
    /// The cache holds a fresh result: serve it.
    Cached(&'a Vec<J>),
    /// The cache has nothing fresh: run `query`, and store what it gives
    /// under `cache_key`.
    Fetch { cache_key: String, query: SearchQuery },
}

/// What a read of `key` comes to at `now`: the cached rows if they are
/// fresh, the query otherwise.
pub open spec fn plan_matches<J>(
    plan: ReadPlan<'_, J>,
    cache: CacheState<Vec<J>>,
    key: Seq<char>,
    now: nat,
    sql: Seq<char>,
    params: Seq<Seq<char>>,
) -> bool {
    match cache.lookup(key, now) {
        Some(rows) => plan matches ReadPlan::Cached(served) && *served == rows,
        None => plan matches ReadPlan::Fetch { cache_key, query } && cache_key@ == key
            && query.sql@ == sql && texts(query.params@) == params,
    }
}

/// The repository of jobs of type `J`.
pub struct DatabaseOperations<J> {
    pool: Pool,
    job_cache: TTLCache<Vec<J>>,
}

impl<J> View for DatabaseOperations<J> {
    type V = RepositoryState<J>;

    closed spec fn view(&self) -> RepositoryState<J> {
        RepositoryState { pool: self.pool@, cache: self.job_cache@ }
    }
}

impl<J> DatabaseOperations<J> {
    /// The repository's invariant: its pool and its cache are well formed.
    pub open spec fn wf(&self) -> bool {
        &&& self.parts_wf()
        &&& self@.pool.wf()
    }

    /// The pool and the cache keep their own invariants.
    pub closed spec fn parts_wf(&self) -> bool {
        &&& self.pool.wf()
        &&& self.job_cache.wf()
    }

    /// A repository over `capacity` connections, given the outcome of
    /// opening each, whose callers wait up to `timeout_ms` for a connection
    /// and whose cached results are served for `cache_ttl_ms`. There is none
    /// unless the capacity is positive and every connection opened. It
    /// starts with every connection idle and nothing cached.
    pub fn new(capacity: usize, timeout_ms: u64, cache_ttl_ms: u64, opened: &Vec<bool>) -> (repo:
        Option<DatabaseOperations<J>>)
        ensures
            repo is Some <==> capacity > 0 && opened.len() == capacity && forall|i: int|
                0 <= i < opened.len() ==> opened[i],
            repo matches Some(r) ==> {
                &&& r.wf()
                &&& r@.pool.capacity == capacity
                &&& r@.pool.timeout_ms == timeout_ms
                &&& r@.pool.available == Seq::new(capacity as nat, |i: int| i as usize)
                &&& r@.pool.checked_out == Set::<usize>::empty()
                &&& r@.cache.ttl_ms == cache_ttl_ms
                &&& r@.cache.entries == Map::<Seq<char>, crate::cache::EntryState<Vec<J>>>::empty()
            },
    {
        match Pool::new(capacity, timeout_ms, opened) {
            Some(pool) => Some(DatabaseOperations { pool, job_cache: TTLCache::new(cache_ttl_ms) }),
            None => None,
        }
    }

    /// A repository with `MAX_CONNECTIONS` connections, a wait of
    /// `CONNECTION_TIMEOUT_MS` and results served for `CACHE_TTL_MS`.
    pub fn with_defaults(opened: &Vec<bool>) -> (repo: Option<DatabaseOperations<J>>)
        ensures
            repo is Some <==> opened.len() == MAX_CONNECTIONS && forall|i: int|
                0 <= i < opened.len() ==> opened[i],
            repo matches Some(r) ==> {
                &&& r.wf()
                &&& r@.pool.capacity == MAX_CONNECTIONS
                &&& r@.pool.timeout_ms == CONNECTION_TIMEOUT_MS
                &&& r@.pool.available == Seq::new(MAX_CONNECTIONS as nat, |i: int| i as usize)
                &&& r@.pool.checked_out == Set::<usize>::empty()
                &&& r@.cache.ttl_ms == CACHE_TTL_MS
                &&& r@.cache.entries == Map::<Seq<char>, crate::cache::EntryState<Vec<J>>>::empty()
            },
    {
        DatabaseOperations::new(MAX_CONNECTIONS, CONNECTION_TIMEOUT_MS, CACHE_TTL_MS, opened)
    }

    /// A reading of the clock that the cached results are stamped with, in
    /// milliseconds. Nothing is claimed of it.
    pub fn now_ms(&self) -> (now_ms: u64) {
        self.job_cache.now_ms()
    }

    /// One attempt to take a connection from the pool; see `Pool::acquire`.
    pub fn acquire(&mut self, waited_ms: u64) -> (res: Result<Acquire, PoolError>)
        requires
            old(self).wf(),
        ensures
            final(self).wf(),
            final(self)@.cache == old(self)@.cache,
            final(self)@.pool == old(self)@.pool.after_acquire(),
            attempt_of(res) == old(self)@.pool.attempt(waited_ms as nat),
    {
        self.pool.acquire(waited_ms)
    }

    /// Gives a connection back to the pool; see `Pool::release`.
    pub fn release(&mut self, conn: Connection) -> (res: Result<(), Connection>)
        requires
            old(self).wf(),
        ensures
            final(self).wf(),
            final(self)@.cache == old(self)@.cache,
            final(self)@.pool == old(self)@.pool.after_release(conn@),
            res is Ok <==> old(self)@.pool.checked_out.contains(conn@),
            res matches Err(c) ==> c == conn,
    {
        self.pool.release(conn)
    }

    /// The rows cached under `cache_key`, if they are fresh at `now_ms`.
    pub fn get_cached_jobs(&self, cache_key: &str, now_ms: u64) -> (res: Option<&Vec<J>>)
        requires
            self.wf(),
        ensures
            match res {
                Some(rows) => self@.cache.lookup(cache_key@, now_ms as nat) == Some(*rows),
                None => self@.cache.lookup(cache_key@, now_ms as nat) is None,
            },
    {
        self.job_cache.get_at(cache_key, now_ms)
    }

    /// Stores `jobs` under `cache_key` as of `now_ms`.
    pub fn cache_jobs(&mut self, cache_key: String, jobs: Vec<J>, now_ms: u64)
        requires
            old(self).wf(),
        ensures
            final(self).wf(),
            final(self)@.pool == old(self)@.pool,
            final(self)@.cache == old(self)@.cache.after_put(cache_key@, jobs, now_ms as nat),
    {
        self.job_cache.put_at(cache_key, jobs, now_ms);
    }

    /// Drops the cached results that are stale at `now_ms`.
    pub fn purge_cache(&mut self, now_ms: u64)
        requires
            old(self).wf(),
        ensures
            final(self).wf(),
            final(self)@.pool == old(self)@.pool,
            final(self)@.cache == old(self)@.cache.after_purge(now_ms as nat),
    {
        self.job_cache.purge_expired(now_ms);
    }

    /// How to answer a request for every job at `now_ms`.
    pub fn plan_get_jobs(&self, now_ms: u64) -> (plan: ReadPlan<'_, J>)
        requires
            self.wf(),
        ensures
            plan_matches(
                plan,
                self@.cache,
                ALL_JOBS_KEY@,
                now_ms as nat,
                ALL_JOBS_SQL@,
                Seq::empty(),
            ),
    {
        match self.job_cache.get_at(ALL_JOBS_KEY, now_ms) {
            Some(rows) => ReadPlan::Cached(rows),
            None => {
                let params: Vec<String> = Vec::new();
                assert(texts(params@) =~= Seq::<Seq<char>>::empty());
                ReadPlan::Fetch {
                    cache_key: ALL_JOBS_KEY.to_owned(),
                    query: SearchQuery { sql: ALL_JOBS_SQL.to_owned(), params },
                }
            },
        }
    }

    /// How to answer a search by `keywords` and `location` at `now_ms`.
    pub fn plan_search(&self, keywords: Option<&str>, location: Option<&str>, now_ms: u64) -> (plan:
        ReadPlan<'_, J>)
        requires
            self.wf(),
        ensures
            plan_matches(
                plan,
                self@.cache,
                search_key(opt_text(keywords), opt_text(location)),
                now_ms as nat,
                search_sql(keywords is Some, location is Some),
                search_params(opt_text(keywords), opt_text(location)),
            ),
    {
        let cache_key = search_cache_key(keywords, location);
        match self.job_cache.get_at(cache_key.as_str(), now_ms) {
            Some(rows) => ReadPlan::Cached(rows),
            None => ReadPlan::Fetch { cache_key, query: build_search_query(keywords, location) },
        }
    }
}

/// The read-through pattern works: once the rows that a query gave are
/// stored under the key of the plan, the same read is answered from the
/// cache for as long as they are fresh, and needs the query again after.
pub proof fn lemma_refill_answers_next_read<J>(
    cache: CacheState<Vec<J>>,
    key: Seq<char>,
    rows: Vec<J>,
    now: nat,
    later: nat,
)
    ensures
        crate::cache::age(now, later) < cache.ttl_ms ==> cache.after_put(key, rows, now).lookup(
            key,
            later,
        ) == Some(rows),
        later >= now + cache.ttl_ms ==> cache.after_put(key, rows, now).lookup(key, later) is None,
{
}

} // verus!
