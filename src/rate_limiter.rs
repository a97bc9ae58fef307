use crate::text::{spec_starts_with, starts_with, str_eq};
use vstd::prelude::*;

verus! {

/// How many requests a window of how many seconds admits.
#[derive(Clone, Copy, Debug, PartialEq, Eq, Structural)]
pub struct RateLimit {
    pub max_requests: u32,
    pub window_seconds: u64,
}

impl RateLimit {
    pub fn new(max_requests: u32, window_seconds: u64) -> (r: RateLimit)
        ensures
            r == (RateLimit { max_requests, window_seconds }),
    {
        RateLimit { max_requests, window_seconds }
    }

    /// 5 attempts every 5 minutes.
    pub fn login_limit() -> (r: RateLimit)
        ensures
            r == (RateLimit { max_requests: 5, window_seconds: 300 }),
    {
        RateLimit::new(5, 300)
    }

    /// 3 registrations every hour.
    pub fn registration_limit() -> (r: RateLimit)
        ensures
            r == (RateLimit { max_requests: 3, window_seconds: 3600 }),
    {
        RateLimit::new(3, 3600)
    }

    /// 6 password changes every hour.
    pub fn password_change_limit() -> (r: RateLimit)
        ensures
            r == (RateLimit { max_requests: 6, window_seconds: 3600 }),
    {
        RateLimit::new(6, 3600)
    }

    /// 1000 requests every hour, for API endpoints without a limit of their own.
    pub fn api_limit() -> (r: RateLimit)
        ensures
            r == (RateLimit { max_requests: 1000, window_seconds: 3600 }),
    {
        RateLimit::new(1000, 3600)
    }

    /// 12 heartbeats every minute.
    pub fn heartbeat_limit() -> (r: RateLimit)
        ensures
            r == (RateLimit { max_requests: 12, window_seconds: 60 }),
    {
        RateLimit::new(12, 60)
    }
}

/// Requests counted in the current window, and when the window began
/// (seconds since the Unix epoch).
#[derive(Clone, Copy, Debug, PartialEq, Eq, Structural)]
pub struct RequestEntry {
    pub count: u32,
    pub window_start: u64,
}

/// The window that began at `window_start` is over at `now`; a clock that
/// went backwards counts as over too.
pub open spec fn window_expired(e: RequestEntry, window_seconds: u64, now: u64) -> bool {
    now < e.window_start || now - e.window_start >= window_seconds
}

impl RequestEntry {
    /// The first request of a window that begins at `now`.
    pub fn new(now: u64) -> (r: RequestEntry)
        ensures
            r == (RequestEntry { count: 1, window_start: now }),
    {
        RequestEntry { count: 1, window_start: now }
    }

    pub fn is_expired(&self, window_seconds: u64, now: u64) -> (r: bool)
        ensures
            r == window_expired(*self, window_seconds, now),
    {
        if now < self.window_start {
            return true;
        }
        now - self.window_start >= window_seconds
    }

    /// Starts a new window at `now` holding one request.
    pub fn reset_window(&mut self, now: u64)
        ensures
            *final(self) == (RequestEntry { count: 1, window_start: now }),
    {
        self.count = 1;
        self.window_start = now;
    }

    pub fn increment(&mut self)
        requires
            old(self).count < u32::MAX,
        ensures
            *final(self) == (RequestEntry { count: (old(self).count + 1) as u32, ..*old(self) }),
    {
        self.count = self.count + 1;
    }
}

/// The decision on one request at `now` against the entry held for its key,
/// and the entry held afterwards.
pub open spec fn decide(e: Option<RequestEntry>, limit: RateLimit, now: u64) -> (bool, RequestEntry) {
    match e {
        None => (true, RequestEntry { count: 1, window_start: now }),
        Some(x) => if window_expired(x, limit.window_seconds, now) {
            (true, RequestEntry { count: 1, window_start: now })
        } else if x.count < limit.max_requests {
            (true, RequestEntry { count: (x.count + 1) as u32, ..x })
        } else {
            (false, x)
        },
    }
}

/// Client address, as the integer of its IPv4 or IPv6 form.
#[derive(Clone, Copy, Debug, PartialEq, Eq, Structural)]
pub enum ClientIp {
    V4(u32),
    V6(u128),
}

/// Whom requests are counted for.
pub enum Scope {
    Ip(ClientIp),
    Session(String),
}

/// A scope as the contracts see it.
pub enum ScopeKey {
    Ip(ClientIp),
    Session(Seq<char>),
}

impl View for Scope {
    type V = ScopeKey;

    open spec fn view(&self) -> ScopeKey {
        match self {
            Scope::Ip(ip) => ScopeKey::Ip(*ip),
            Scope::Session(s) => ScopeKey::Session(s@),
        }
    }
}

impl Scope {
    pub fn same(&self, other: &Scope) -> (r: bool)
        ensures
            r == (self@ == other@),
    {
        match (self, other) {
            (Scope::Ip(a), Scope::Ip(b)) => *a == *b,
            (Scope::Session(a), Scope::Session(b)) => *a == *b,
            _ => false,
        }
    }

    pub fn copy(&self) -> (r: Scope)
        ensures
            r@ == self@,
    {
        match self {
            Scope::Ip(ip) => Scope::Ip(*ip),
            Scope::Session(s) => Scope::Session(s.clone()),
        }
    }
}

/// Key of a counter: the scope and the endpoint.
pub type CounterKey = (ScopeKey, Seq<char>);

/// Abstract contents of the limiter.
pub type CounterMap = Map<CounterKey, RequestEntry>;

/// One counter of the limiter.
pub struct TrackedRequests {
    pub scope: Scope,
    pub endpoint: String,
    pub entry: RequestEntry,
}

impl TrackedRequests {
    pub open spec fn key(&self) -> CounterKey {
        (self.scope@, self.endpoint@)
    }
}

/// The limit an endpoint is held to.
pub open spec fn endpoint_limit(endpoint: Seq<char>) -> RateLimit {
    if endpoint == "/v5/pocket/login"@ {
        RateLimit { max_requests: 5, window_seconds: 300 }
    } else if endpoint == "/v5/pocket/registration"@ {
        RateLimit { max_requests: 3, window_seconds: 3600 }
    } else if endpoint == "/v5/pocket/change_passwd"@ {
        RateLimit { max_requests: 6, window_seconds: 3600 }
    } else if endpoint == "/v5/pocket/heartbeat"@ {
        RateLimit { max_requests: 12, window_seconds: 60 }
    } else if spec_starts_with(endpoint, "/v5/pocket/"@) {
        RateLimit { max_requests: 1000, window_seconds: 3600 }
    } else {
        RateLimit { max_requests: 100, window_seconds: 3600 }
    }
}

/// The decision on one request with counter key `key` and the counters
/// afterwards.
pub open spec fn spec_check(m: CounterMap, key: CounterKey, limit: RateLimit, now: u64) -> (bool, CounterMap) {
    (decide(m.get(key), limit, now).0, m.insert(key, decide(m.get(key), limit, now).1))
}

/// The counters left by a purge at `now`.
pub open spec fn spec_purge(m: CounterMap, now: u64) -> CounterMap {
    Map::new(
        |k: CounterKey| m.contains_key(k) && !window_expired(m[k], PURGE_WINDOW_SECONDS, now),
        |k: CounterKey| m[k],
    )
}

/// Age in seconds past which the periodic purge drops a counter.
pub const PURGE_WINDOW_SECONDS: u64 = 3600;

/// Counters of recent requests per client address and per session, for each
/// endpoint. Callers that share it across threads hold it under one lock.
pub struct RateLimiter {
    counters: Vec<TrackedRequests>,
    contents: Ghost<CounterMap>,
}

impl View for RateLimiter {
    type V = CounterMap;

    closed spec fn view(&self) -> CounterMap {
        self.contents@
    }
}

impl RateLimiter {
    pub closed spec fn wf(&self) -> bool {
        &&& forall|i: int|
            0 <= i < self.counters@.len() ==> {
                &&& self.contents@.contains_key(#[trigger] self.counters@[i].key())
                &&& self.contents@[self.counters@[i].key()] == self.counters@[i].entry
            }
        &&& forall|k: CounterKey|
            #[trigger] self.contents@.contains_key(k) ==> exists|i: int|
                0 <= i < self.counters@.len() && #[trigger] self.counters@[i].key() == k
        &&& forall|i: int, j: int|
            0 <= i < self.counters@.len() && 0 <= j < self.counters@.len() && i != j
                ==> #[trigger] self.counters@[i].key() != #[trigger] self.counters@[j].key()
    }

    /// A limiter with no counters.
    pub fn new() -> (r: RateLimiter)
        ensures
            r.wf(),
            r@ == CounterMap::empty(),
    {
        RateLimiter { counters: Vec::new(), contents: Ghost(CounterMap::empty()) }
    }

    /// The limit an endpoint is held to: its own where it has one, the API
    /// limit for other endpoints under "/v5/pocket/", and 100 requests an
    /// hour for anything else.
    pub fn get_endpoint_limit(&self, endpoint: &str) -> (r: RateLimit)
        ensures
            r == endpoint_limit(endpoint@),
    {
        if str_eq(endpoint, "/v5/pocket/login") {
            RateLimit::login_limit()
        } else if str_eq(endpoint, "/v5/pocket/registration") {
            RateLimit::registration_limit()
        } else if str_eq(endpoint, "/v5/pocket/change_passwd") {
            RateLimit::password_change_limit()
        } else if str_eq(endpoint, "/v5/pocket/heartbeat") {
            RateLimit::heartbeat_limit()
        } else if starts_with(endpoint, "/v5/pocket/") {
            RateLimit::api_limit()
        } else {
            RateLimit::new(100, 3600)
        }
    }

    fn find(&self, scope: &Scope, endpoint: &str) -> (r: Option<usize>)
        requires
            self.wf(),
        ensures
            r matches Some(i) ==> i < self.counters@.len() && self.counters@[i as int].key() == (scope@, endpoint@),
            r is None ==> !self@.contains_key((scope@, endpoint@)),
    {
        let mut i: usize = 0;
        while i < self.counters.len()
            invariant
                self.wf(),
                i <= self.counters@.len(),
                forall|j: int| 0 <= j < i ==> self.counters@[j].key() != (scope@, endpoint@),
            decreases self.counters@.len() - i,
        {
            if self.counters[i].scope.same(scope) && str_eq(self.counters[i].endpoint.as_str(), endpoint) {
                return Some(i);
            }
            i = i + 1;
        }
        proof {
            if self@.contains_key((scope@, endpoint@)) {
                let j = choose|j: int|
                    0 <= j < self.counters@.len() && #[trigger] self.counters@[j].key() == (scope@, endpoint@);
            }
        }
        None
    }

    /// Decides one request of `scope` to `endpoint` at `now` under `limit`
    /// (see [`decide`]) and records it.
    pub fn check_rate_internal(&mut self, scope: Scope, endpoint: &str, limit: &RateLimit, now: u64) -> (r: bool)
        requires
            old(self).wf(),
        ensures
            final(self).wf(),
            r == decide(old(self)@.get((scope@, endpoint@)), *limit, now).0,
            final(self)@ == old(self)@.insert(
                (scope@, endpoint@),
                decide(old(self)@.get((scope@, endpoint@)), *limit, now).1,
            ),
    {
        let ghost key = (scope@, endpoint@);
        match self.find(&scope, endpoint) {
            Some(i) => {
                let mut entry = self.counters[i].entry;
                let admitted = if entry.is_expired(limit.window_seconds, now) {
                    entry.reset_window(now);
                    true
                } else if entry.count < limit.max_requests {
                    entry.increment();
                    true
                } else {
                    false
                };
                let scope_copy = self.counters[i].scope.copy();
                let endpoint_copy = self.counters[i].endpoint.clone();
                let ghost before = self.counters@;
                self.counters.set(i, TrackedRequests { scope: scope_copy, endpoint: endpoint_copy, entry });
                self.contents = Ghost(self.contents@.insert(key, entry));
                proof {
                    assert(self.counters@[i as int].key() == key);
                    assert forall|j: int| 0 <= j < self.counters@.len() && j != i implies self.counters@[j] == before[j] by {}
                    assert forall|k: CounterKey| #[trigger] self.contents@.contains_key(k) implies exists|j: int|
                        0 <= j < self.counters@.len() && #[trigger] self.counters@[j].key() == k by {
                        if k != key {
                            let j = choose|j: int| 0 <= j < before.len() && #[trigger] before[j].key() == k;
                            assert(self.counters@[j].key() == k);
                        }
                    }
                    assert forall|a: int, b: int|
                        0 <= a < self.counters@.len() && 0 <= b < self.counters@.len() && a != b
                            implies #[trigger] self.counters@[a].key() != #[trigger] self.counters@[b].key() by {
                        assert(before[a].key() == self.counters@[a].key());
                        assert(before[b].key() == self.counters@[b].key());
                    }
                }
                admitted
            },
            None => {
                let entry = RequestEntry::new(now);
                let ghost before = self.counters@;
                let ghost n = before.len() as int;
                self.counters.push(TrackedRequests { scope, endpoint: endpoint.to_owned(), entry });
                self.contents = Ghost(self.contents@.insert(key, entry));
                proof {
                    assert(self.counters@[n].key() == key);
                    assert forall|j: int| 0 <= j < n implies self.counters@[j] == before[j] by {}
                    assert forall|i: int| 0 <= i < self.counters@.len() implies {
                        &&& self.contents@.contains_key(#[trigger] self.counters@[i].key())
                        &&& self.contents@[self.counters@[i].key()] == self.counters@[i].entry
                    } by {
                        if i < n {
                            assert(old(self).contents@.contains_key(before[i].key()));
                        }
                    }
                    assert forall|k: CounterKey| #[trigger] self.contents@.contains_key(k) implies exists|j: int|
                        0 <= j < self.counters@.len() && #[trigger] self.counters@[j].key() == k by {
                        if k != key {
                            let j = choose|j: int| 0 <= j < before.len() && #[trigger] before[j].key() == k;
                            assert(self.counters@[j].key() == k);
                        }
                    }
                    assert forall|a: int, b: int|
                        0 <= a < self.counters@.len() && 0 <= b < self.counters@.len() && a != b
                            implies #[trigger] self.counters@[a].key() != #[trigger] self.counters@[b].key() by {
                        if a < n && b < n {
                        } else if a < n {
                            assert(old(self).contents@.contains_key(before[a].key()));
                        } else {
                            assert(old(self).contents@.contains_key(before[b].key()));
                        }
                    }
                }
                true
            },
        }
    }

    /// Decides one request from address `ip` to `endpoint` at `now` under
    /// the endpoint's limit, and records it.
    pub fn check_ip_rate(&mut self, ip: ClientIp, endpoint: &str, now: u64) -> (r: bool)
        requires
            old(self).wf(),
        ensures
            final(self).wf(),
            (r, final(self)@) == spec_check(old(self)@, (ScopeKey::Ip(ip), endpoint@), endpoint_limit(endpoint@), now),
    {
        let limit = self.get_endpoint_limit(endpoint);
        self.check_rate_internal(Scope::Ip(ip), endpoint, &limit, now)
    }

    /// Decides one request of session `session_id` to `endpoint` at `now`
    /// under the endpoint's limit, and records it.
    pub fn check_session_rate(&mut self, session_id: &str, endpoint: &str, now: u64) -> (r: bool)
        requires
            old(self).wf(),
        ensures
            final(self).wf(),
            (r, final(self)@) == spec_check(
                old(self)@,
                (ScopeKey::Session(session_id@), endpoint@),
                endpoint_limit(endpoint@),
                now,
            ),
    {
        let limit = self.get_endpoint_limit(endpoint);
        self.check_rate_internal(Scope::Session(session_id.to_owned()), endpoint, &limit, now)
    }

    /// Drops every counter whose window began more than an hour before
    /// `now`, keeping the others as they are.
    pub fn purge_expired(&mut self, now: u64)
        requires
            old(self).wf(),
        ensures
            final(self).wf(),
            final(self)@ == spec_purge(old(self)@, now),
    {
        let n = self.counters.len();
        let mut kept: Vec<TrackedRequests> = Vec::new();
        let ghost mut kept_at: Seq<int> = Seq::empty();
        let mut i: usize = 0;
        while i < n
            invariant
                self.wf(),
                *self == *old(self),
                n == self.counters@.len(),
                i <= n,
                kept_at.len() == kept@.len(),
                forall|j: int|
                    0 <= j < kept@.len() ==> 0 <= #[trigger] kept_at[j] < i && self.counters@[kept_at[j]].key()
                        == kept@[j].key() && self.counters@[kept_at[j]].entry == kept@[j].entry
                        && !window_expired(kept@[j].entry, PURGE_WINDOW_SECONDS, now),
                forall|a: int, b: int|
                    0 <= a < kept@.len() && 0 <= b < kept@.len() && a != b ==> #[trigger] kept_at[a]
                        != #[trigger] kept_at[b],
                forall|x: int|
                    0 <= x < i && !window_expired(#[trigger] self.counters@[x].entry, PURGE_WINDOW_SECONDS, now)
                        ==> exists|j: int| 0 <= j < kept@.len() && kept_at[j] == x,
            decreases n - i,
        {
            let ghost kept_at0 = kept_at;
            let ghost k0 = kept@.len() as int;
            if !self.counters[i].entry.is_expired(PURGE_WINDOW_SECONDS, now) {
                let t = TrackedRequests {
                    scope: self.counters[i].scope.copy(),
                    endpoint: self.counters[i].endpoint.clone(),
                    entry: self.counters[i].entry,
                };
                kept.push(t);
                proof {
                    kept_at = kept_at.push(i as int);
                    assert(kept_at[k0] == i as int);
                }
            }
            proof {
                let ii = i as int;
                assert forall|x: int|
                    0 <= x < ii + 1 && !window_expired(#[trigger] self.counters@[x].entry, PURGE_WINDOW_SECONDS, now)
                        implies exists|j: int| 0 <= j < kept@.len() && kept_at[j] == x by {
                    if x < ii {
                        let j = choose|j: int| 0 <= j < k0 && kept_at0[j] == x;
                        assert(kept_at[j] == x);
                    } else {
                        assert(kept_at[k0] == x);
                    }
                }
            }
            i = i + 1;
        }
        let ghost old_counters = self.counters@;
        let ghost new_map = spec_purge(self@, now);
        self.counters = kept;
        self.contents = Ghost(new_map);
        proof {
            let om = old(self)@;
            assert forall|j: int| 0 <= j < self.counters@.len() implies {
                &&& self.contents@.contains_key(#[trigger] self.counters@[j].key())
                &&& self.contents@[self.counters@[j].key()] == self.counters@[j].entry
            } by {
                let x = kept_at[j];
                assert(om.contains_key(old_counters[x].key()));
            }
            assert forall|k: CounterKey| #[trigger] self.contents@.contains_key(k) implies exists|j: int|
                0 <= j < self.counters@.len() && #[trigger] self.counters@[j].key() == k by {
                let x = choose|x: int| 0 <= x < old_counters.len() && #[trigger] old_counters[x].key() == k;
                assert(om[k] == old_counters[x].entry);
                let j = choose|j: int| 0 <= j < kept@.len() && kept_at[j] == x;
                assert(self.counters@[j].key() == k);
            }
            assert forall|a: int, b: int|
                0 <= a < self.counters@.len() && 0 <= b < self.counters@.len() && a != b
                    implies #[trigger] self.counters@[a].key() != #[trigger] self.counters@[b].key() by {
                assert(old_counters[kept_at[a]].key() == self.counters@[a].key());
                assert(old_counters[kept_at[b]].key() == self.counters@[b].key());
            }
        }
    }
}

} // verus!

verus! {

/// Which check refused a request.
#[derive(Clone, Copy, Debug, PartialEq, Eq, Structural)]
pub enum RateLimitRejection {
    /// Too many requests from the client's address.
    Ip,
    /// Too many requests for the session.
    Session,
}

/// Seconds a refused client is told to wait.
pub const RETRY_AFTER_SECONDS: u64 = 60;

impl RateLimitRejection {
    pub fn message(&self) -> (r: &'static str)
        ensures
            *self == RateLimitRejection::Ip ==> r@ == "Rate limit exceeded. Too many requests from your IP."@,
            *self == RateLimitRejection::Session ==> r@ == "Rate limit exceeded. Too many requests for this session."@,
    {
        match self {
            RateLimitRejection::Ip => "Rate limit exceeded. Too many requests from your IP.",
            RateLimitRejection::Session => "Rate limit exceeded. Too many requests for this session.",
        }
    }

    pub fn retry_after(&self) -> (r: u64)
        ensures
            r == RETRY_AFTER_SECONDS,
    {
        RETRY_AFTER_SECONDS
    }
}

pub open spec fn opt_view(s: Option<&str>) -> Option<Seq<char>> {
    match s {
        Some(x) => Some(x@),
        None => None,
    }
}

/// Outcome of the two checks on a request, and the counters afterwards: the
/// address is checked first, and the session only when the address passed
/// and the request carries one.
pub open spec fn spec_dual(
    m: CounterMap,
    ip: ClientIp,
    endpoint: Seq<char>,
    session_id: Option<Seq<char>>,
    now: u64,
) -> (Option<RateLimitRejection>, CounterMap) {
    let limit = endpoint_limit(endpoint);
    let (ip_ok, m1) = spec_check(m, (ScopeKey::Ip(ip), endpoint), limit, now);
    if !ip_ok {
        (Some(RateLimitRejection::Ip), m1)
    } else {
        match session_id {
            None => (None, m1),
            Some(s) => {
                let (session_ok, m2) = spec_check(m1, (ScopeKey::Session(s), endpoint), limit, now);
                if session_ok {
                    (None, m2)
                } else {
                    (Some(RateLimitRejection::Session), m2)
                }
            },
        }
    }
}

/// Checks a request from `ip`, carrying `session_id` if any, to `endpoint`
/// at `now`; `None` admits it, otherwise the rejection says which check
/// refused it.
pub fn check_rate_limit_or_reject(
    limiter: &mut RateLimiter,
    ip: ClientIp,
    endpoint: &str,
    session_id: Option<&str>,
    now: u64,
) -> (r: Option<RateLimitRejection>)
    requires
        old(limiter).wf(),
    ensures
        final(limiter).wf(),
        (r, final(limiter)@) == spec_dual(old(limiter)@, ip, endpoint@, opt_view(session_id), now),
{
    if !limiter.check_ip_rate(ip, endpoint, now) {
        return Some(RateLimitRejection::Ip);
    }
    match session_id {
        Some(sid) => {
            if !limiter.check_session_rate(sid, endpoint, now) {
                Some(RateLimitRejection::Session)
            } else {
                None
            }
        },
        None => None,
    }
}

/// Decisions on requests at the times `times`, in order, starting from the
/// entry `e`, and the entry held afterwards.
pub open spec fn decide_all(e: Option<RequestEntry>, limit: RateLimit, times: Seq<u64>) -> (
    Seq<bool>,
    Option<RequestEntry>,
)
    decreases times.len(),
{
    if times.len() == 0 {
        (Seq::empty(), e)
    } else {
        let (decisions, e1) = decide_all(e, limit, times.drop_last());
        let (ok, e2) = decide(e1, limit, times.last());
        (decisions.push(ok), Some(e2))
    }
}

/// Requests that all fall within the window opened by the first of them
/// are admitted while fewer than `max_requests` came before, and refused
/// after; the counter then holds min(n, max_requests) requests of that
/// window.
pub proof fn lemma_window_admits_up_to_limit(limit: RateLimit, times: Seq<u64>)
    requires
        times.len() >= 1,
        limit.max_requests >= 1,
        forall|i: int| 0 <= i < times.len() ==> times[0] <= #[trigger] times[i] && times[i] - times[0] < limit.window_seconds,
    ensures
        decide_all(None, limit, times).0.len() == times.len(),
        forall|i: int| 0 <= i < times.len() ==> #[trigger] decide_all(None, limit, times).0[i] == (i < limit.max_requests),
        decide_all(None, limit, times).1 == Some(RequestEntry {
            count: if times.len() < limit.max_requests { times.len() as u32 } else { limit.max_requests },
            window_start: times[0],
        }),
    decreases times.len(),
{
    let prev = times.drop_last();
    if times.len() == 1 {
        assert(decide_all(None, limit, prev) == (Seq::<bool>::empty(), None::<RequestEntry>));
        assert(times.last() == times[0]);
    } else {
        assert forall|i: int| 0 <= i < prev.len() implies prev[0] <= #[trigger] prev[i] && prev[i] - prev[0]
            < limit.window_seconds by {
            assert(prev[i] == times[i]);
        }
        lemma_window_admits_up_to_limit(limit, prev);
        let t = times.last();
        assert(times[times.len() - 1] == t);
        let (ds, e1) = decide_all(None, limit, prev);
        let (ok, e2) = decide(e1, limit, t);
        assert(decide_all(None, limit, times).0 == ds.push(ok));
        assert forall|i: int| 0 <= i < times.len() implies #[trigger] decide_all(None, limit, times).0[i] == (i
            < limit.max_requests) by {
            if i < prev.len() {
                assert(ds.push(ok)[i] == ds[i]);
            }
        }
    }
}

/// Once the window of an entry is over, the next request is admitted and
/// opens a new window holding one request.
pub proof fn lemma_fresh_window_after_expiry(e: RequestEntry, limit: RateLimit, now: u64)
    requires
        now as int >= e.window_start as int + limit.window_seconds as int,
    ensures
        decide(Some(e), limit, now) == (true, RequestEntry { count: 1, window_start: now }),
{
}

/// A request is admitted exactly when its address check admits it and,
/// where it carries a session, its session check then admits it too; when
/// the address check refuses it, only the address counter changes.
pub proof fn lemma_dual_scope(
    m: CounterMap,
    ip: ClientIp,
    endpoint: Seq<char>,
    session_id: Option<Seq<char>>,
    now: u64,
)
    ensures
        ({
            let limit = endpoint_limit(endpoint);
            let (ip_ok, m1) = spec_check(m, (ScopeKey::Ip(ip), endpoint), limit, now);
            &&& spec_dual(m, ip, endpoint, session_id, now).0 is None <==> ip_ok && match session_id {
                None => true,
                Some(s) => spec_check(m1, (ScopeKey::Session(s), endpoint), limit, now).0,
            }
            &&& !ip_ok ==> spec_dual(m, ip, endpoint, session_id, now).1 == m1
        }),
{
}

} // verus!
