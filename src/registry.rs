use crate::session::{Resource, Session};
use crate::text::str_eq;
use vstd::prelude::*;

verus! {

/// Abstract registry contents: session identifier to session.
pub type SessionMap = Map<Seq<char>, Session>;

/// What looking up `id` yields.
pub open spec fn spec_get(m: SessionMap, id: Seq<char>) -> Option<Session> {
    if m.contains_key(id) {
        Some(m[id])
    } else {
        None
    }
}

/// What removing `id` hands back for release: the handles of the removed
/// session when it existed and release was asked for, nothing otherwise.
pub open spec fn spec_released(m: SessionMap, id: Seq<char>, free: bool) -> Seq<Resource> {
    if free && m.contains_key(id) {
        m[id].spec_resources()
    } else {
        Seq::empty()
    }
}

/// The session is logged in with account `email`.
pub open spec fn has_account(s: Session, email: Seq<char>) -> bool {
    s.email matches Some(e) && e@ == email
}

/// Some session of the registry is logged in with account `email`.
pub open spec fn spec_logged(m: SessionMap, email: Seq<char>) -> bool {
    exists|k: Seq<char>| m.contains_key(k) && #[trigger] has_account(m[k], email)
}

/// The sweep at time `now` evicts the session: its expiry is handled
/// locally (or its engine is no longer valid) and its last activity lies
/// more than `expiration` seconds before `now`.
pub open spec fn is_expired(s: Session, now: u64, expiration: u32) -> bool {
    &&& !(s.remote_session_handling && s.spec_is_valid())
    &&& now as int > s.timestamp_last_update as int + expiration as int
}

/// The registry after a sweep at time `now`: the sessions that are not
/// expired.
pub open spec fn spec_invalidate(m: SessionMap, now: u64, expiration: u32) -> SessionMap {
    Map::new(|k: Seq<char>| m.contains_key(k) && !is_expired(m[k], now, expiration), |k: Seq<char>| m[k])
}

/// Result of a heartbeat.
#[derive(Clone, Copy, Debug, PartialEq, Eq, Structural)]
pub enum HeartbeatVerdict {
    /// No session has the identifier.
    Expired,
    /// The session's engine is no longer valid; the session was removed.
    Invalid,
    /// The engine reports that the remote session ended; the session was
    /// removed.
    RemoteExpired,
    /// The engine must be asked whether the session is still alive.
    NeedsProbe,
    /// The session lives on.
    Alive,
}

impl HeartbeatVerdict {
    /// The start of the error sent for a verdict that ends the session,
    /// followed in the response by the session identifier; empty otherwise.
    pub fn reason(&self) -> (r: &'static str)
        ensures
            *self == HeartbeatVerdict::Expired ==> r@ == "Session expired for session_id: "@,
            *self == HeartbeatVerdict::Invalid ==> r@ == "Invalid session for session_id: "@,
            *self == HeartbeatVerdict::RemoteExpired ==> r@ == "Remote session expired for session_id: "@,
            *self == HeartbeatVerdict::NeedsProbe || *self == HeartbeatVerdict::Alive ==> r@ == ""@,
    {
        match self {
            HeartbeatVerdict::Expired => "Session expired for session_id: ",
            HeartbeatVerdict::Invalid => "Invalid session for session_id: ",
            HeartbeatVerdict::RemoteExpired => "Remote session expired for session_id: ",
            _ => "",
        }
    }
}

/// Why a login is refused before the engine is asked.
#[derive(Clone, Copy, Debug, PartialEq, Eq, Structural)]
pub enum LoginRejection {
    /// The account is already logged in on some session.
    AlreadyLogged,
    /// No session has the identifier the client sent.
    SessionNotFound,
}

impl LoginRejection {
    pub fn message(&self) -> (r: &'static str)
        ensures
            *self == LoginRejection::AlreadyLogged ==> r@ == "Account already logged in"@,
            *self == LoginRejection::SessionNotFound ==> r@ == "Session not found"@,
    {
        match self {
            LoginRejection::AlreadyLogged => "Account already logged in",
            LoginRejection::SessionNotFound => "Session not found",
        }
    }
}

/// Outcome of the checks that precede a login.
pub open spec fn spec_begin_login(m: SessionMap, session_id: Seq<char>, email: Seq<char>) -> Result<
    Session,
    LoginRejection,
> {
    if spec_logged(m, email) {
        Err(LoginRejection::AlreadyLogged)
    } else if !m.contains_key(session_id) {
        Err(LoginRejection::SessionNotFound)
    } else {
        Ok(m[session_id])
    }
}

/// `s` with its activity refreshed at `now`, unless the engine keeps it alive.
pub open spec fn refreshed(s: Session, now: u64) -> Session {
    if s.remote_session_handling {
        s
    } else {
        Session { timestamp_last_update: now, ..s }
    }
}

/// `s` after a successful login with account `email`.
pub open spec fn logged_in(s: Session, email: String, remote: bool, now: u64) -> Session {
    refreshed(Session { email: Some(email), remote_session_handling: remote, ..s }, now)
}

/// Whether the sweep at time `now` evicts `s`.
pub fn session_expired(s: &Session, now: u64, expiration: u32) -> (r: bool)
    ensures
        r == is_expired(*s, now, expiration),
{
    if s.remote_session_handling && s.is_valid() {
        return false;
    }
    now > s.timestamp_last_update && now - s.timestamp_last_update > expiration as u64
}

/// The session registry: at most one session per identifier. Shared between
/// threads, it is held under one lock for the whole of each operation.
pub struct Sessions {
    sessions: Vec<Session>,
    contents: Ghost<SessionMap>,
    session_expiration_time: u32,
}

impl View for Sessions {
    type V = SessionMap;

    closed spec fn view(&self) -> SessionMap {
        self.contents@
    }
}

impl Sessions {
    pub closed spec fn wf(&self) -> bool {
        &&& forall|i: int|
            0 <= i < self.sessions@.len() ==> {
                &&& self.contents@.contains_key(#[trigger] self.sessions@[i].session_id@)
                &&& self.contents@[self.sessions@[i].session_id@] == self.sessions@[i]
            }
        &&& forall|k: Seq<char>|
            #[trigger] self.contents@.contains_key(k) ==> exists|i: int|
                0 <= i < self.sessions@.len() && #[trigger] self.sessions@[i].session_id@ == k
        &&& forall|i: int, j: int|
            0 <= i < self.sessions@.len() && 0 <= j < self.sessions@.len() && i != j
                ==> #[trigger] self.sessions@[i].session_id@ != #[trigger] self.sessions@[j].session_id@
    }

    /// Seconds of inactivity after which a locally handled session expires.
    pub closed spec fn spec_expiration(&self) -> u32 {
        self.session_expiration_time
    }

    /// An empty registry whose sessions expire after
    /// `session_expiration_time` seconds of inactivity.
    pub fn new(session_expiration_time: u32) -> (r: Sessions)
        ensures
            r.wf(),
            r@ == SessionMap::empty(),
            r.spec_expiration() == session_expiration_time,
    {
        Sessions { sessions: Vec::new(), contents: Ghost(SessionMap::empty()), session_expiration_time }
    }

    pub fn session_expiration_time(&self) -> (r: u32)
        ensures
            r == self.spec_expiration(),
    {
        self.session_expiration_time
    }

    /// Number of sessions held.
    pub fn len(&self) -> (r: usize)
        requires
            self.wf(),
        ensures
            r == self@.len(),
    {
        proof {
            self.lemma_len();
        }
        self.sessions.len()
    }

    proof fn lemma_len(&self)
        requires
            self.wf(),
        ensures
            self@.len() == self.sessions@.len(),
    {
        let ids = self.sessions@.map_values(|s: Session| s.session_id@);
        assert(ids.no_duplicates()) by {
            assert forall|i: int, j: int| 0 <= i < ids.len() && 0 <= j < ids.len() && i != j implies ids[i] != ids[j] by {
                assert(self.sessions@[i].session_id@ != self.sessions@[j].session_id@);
            }
        }
        ids.unique_seq_to_set();
        assert(self@.dom() =~= ids.to_set()) by {
            assert forall|k: Seq<char>| self@.dom().contains(k) implies ids.to_set().contains(k) by {
                let i = choose|i: int| 0 <= i < self.sessions@.len() && #[trigger] self.sessions@[i].session_id@ == k;
                assert(ids[i] == k);
            }
            assert forall|k: Seq<char>| ids.to_set().contains(k) implies self@.dom().contains(k) by {
                let i = choose|i: int| 0 <= i < ids.len() && ids[i] == k;
                assert(self.contents@.contains_key(self.sessions@[i].session_id@));
            }
        }
    }

    /// Position of the session with identifier `id`, if any.
    fn find(&self, id: &str) -> (r: Option<usize>)
        requires
            self.wf(),
        ensures
            r matches Some(i) ==> i < self.sessions@.len() && self.sessions@[i as int].session_id@ == id@,
            r is None ==> !self@.contains_key(id@),
    {
        let key = id.to_owned();
        let mut i: usize = 0;
        while i < self.sessions.len()
            invariant
                self.wf(),
                key@ == id@,
                i <= self.sessions@.len(),
                forall|j: int| 0 <= j < i ==> self.sessions@[j].session_id@ != id@,
            decreases self.sessions@.len() - i,
        {
            if self.sessions[i].session_id == key {
                return Some(i);
            }
            i = i + 1;
        }
        proof {
            if self@.contains_key(id@) {
                let j = choose|j: int| 0 <= j < self.sessions@.len() && #[trigger] self.sessions@[j].session_id@ == id@;
            }
        }
        None
    }

    /// Stores `session` under its identifier, replacing any session already
    /// stored there.
    pub fn add(&mut self, session: Session)
        requires
            old(self).wf(),
        ensures
            final(self).wf(),
            final(self)@ == old(self)@.insert(session.session_id@, session),
            final(self).spec_expiration() == old(self).spec_expiration(),
    {
        let ghost key = session.session_id@;
        let ghost new_map = self.contents@.insert(key, session);
        match self.find(session.session_id.as_str()) {
            Some(i) => {
                self.sessions.set(i, session);
                self.contents = Ghost(new_map);
                assert forall|k: Seq<char>| #[trigger] self.contents@.contains_key(k) implies exists|j: int|
                    0 <= j < self.sessions@.len() && #[trigger] self.sessions@[j].session_id@ == k by {
                    if k == key {
                        assert(self.sessions@[i as int].session_id@ == k);
                    } else {
                        let j = choose|j: int| 0 <= j < old(self).sessions@.len() && #[trigger] old(self).sessions@[j].session_id@ == k;
                        assert(self.sessions@[j].session_id@ == k);
                    }
                }
            },
            None => {
                self.sessions.push(session);
                self.contents = Ghost(new_map);
                let ghost n = old(self).sessions@.len() as int;
                assert forall|i: int| 0 <= i < self.sessions@.len() implies {
                    &&& self.contents@.contains_key(#[trigger] self.sessions@[i].session_id@)
                    &&& self.contents@[self.sessions@[i].session_id@] == self.sessions@[i]
                } by {
                    if i < n {
                        assert(old(self).sessions@[i] == self.sessions@[i]);
                        assert(old(self).contents@.contains_key(old(self).sessions@[i].session_id@));
                    }
                }
                assert forall|k: Seq<char>| #[trigger] self.contents@.contains_key(k) implies exists|j: int|
                    0 <= j < self.sessions@.len() && #[trigger] self.sessions@[j].session_id@ == k by {
                    if k == key {
                        assert(self.sessions@[n] == session);
                    } else {
                        let j = choose|j: int| 0 <= j < old(self).sessions@.len() && #[trigger] old(self).sessions@[j].session_id@ == k;
                        assert(self.sessions@[j].session_id@ == k);
                    }
                }
                assert forall|i: int, j: int|
                    0 <= i < self.sessions@.len() && 0 <= j < self.sessions@.len() && i != j
                        implies #[trigger] self.sessions@[i].session_id@ != #[trigger] self.sessions@[j].session_id@ by {
                    if i < n && j < n {
                        assert(old(self).sessions@[i] == self.sessions@[i]);
                        assert(old(self).sessions@[j] == self.sessions@[j]);
                    } else if i < n {
                        assert(old(self).contents@.contains_key(old(self).sessions@[i].session_id@));
                    } else {
                        assert(old(self).contents@.contains_key(old(self).sessions@[j].session_id@));
                    }
                }
            },
        }
    }

    /// A copy of the session stored under `id`.
    pub fn get(&self, id: &str) -> (r: Option<Session>)
        requires
            self.wf(),
        ensures
            r == spec_get(self@, id@),
    {
        match self.find(id) {
            Some(i) => {
                let s = self.sessions[i].clone();
                Some(s)
            },
            None => None,
        }
    }

    /// Drops the session stored under `id`, if any. When `free` is set the
    /// handles it owned are handed back for release; otherwise they stay
    /// with whoever adds the session again.
    pub fn remove(&mut self, id: &str, free: bool) -> (r: Vec<Resource>)
        requires
            old(self).wf(),
        ensures
            final(self).wf(),
            final(self)@ == old(self)@.remove(id@),
            r@ == spec_released(old(self)@, id@, free),
            final(self).spec_expiration() == old(self).spec_expiration(),
    {
        match self.find(id) {
            None => {
                assert(self@.remove(id@) =~= self@);
                Vec::new()
            },
            Some(i) => {
                let released = if free {
                    self.sessions[i].resources()
                } else {
                    Vec::new()
                };
                let ghost before = self.sessions@;
                let ghost map_before = self.contents@;
                self.sessions.remove(i);
                self.contents = Ghost(map_before.remove(id@));
                proof {
                    let ii = i as int;
                    assert(map_before[id@] == before[ii]);
                    assert forall|j: int| 0 <= j < self.sessions@.len() implies self.sessions@[j] == before[
                        if j < ii { j } else { j + 1 }
                    ] by {}
                    assert forall|j: int| 0 <= j < self.sessions@.len() implies {
                        &&& self.contents@.contains_key(#[trigger] self.sessions@[j].session_id@)
                        &&& self.contents@[self.sessions@[j].session_id@] == self.sessions@[j]
                    } by {
                        let jj = if j < ii { j } else { j + 1 };
                        assert(self.sessions@[j] == before[jj]);
                        assert(before[jj].session_id@ != before[ii].session_id@);
                        assert(map_before.contains_key(before[jj].session_id@));
                    }
                    assert forall|k: Seq<char>| #[trigger] self.contents@.contains_key(k) implies exists|j: int|
                        0 <= j < self.sessions@.len() && #[trigger] self.sessions@[j].session_id@ == k by {
                        assert(map_before.contains_key(k));
                        let jj = choose|jj: int| 0 <= jj < before.len() && #[trigger] before[jj].session_id@ == k;
                        assert(jj != ii);
                        let j = if jj < ii { jj } else { jj - 1 };
                        assert(self.sessions@[j] == before[jj]);
                    }
                    assert forall|a: int, b: int|
                        0 <= a < self.sessions@.len() && 0 <= b < self.sessions@.len() && a != b
                            implies #[trigger] self.sessions@[a].session_id@ != #[trigger] self.sessions@[b].session_id@ by {
                        let aa = if a < ii { a } else { a + 1 };
                        let bb = if b < ii { b } else { b + 1 };
                        assert(self.sessions@[a] == before[aa]);
                        assert(self.sessions@[b] == before[bb]);
                    }
                }
                released
            },
        }
    }

    /// Whether some session is logged in with account `email`; when one is,
    /// a copy of it is left in `ref_session`.
    pub fn check_if_already_logged(&self, email: &String, ref_session: &mut Option<Session>) -> (r: bool)
        requires
            self.wf(),
        ensures
            r == spec_logged(self@, email@),
            r ==> (*final(ref_session) matches Some(s) && self@.contains_key(s.session_id@) && self@[s.session_id@]
                == s && has_account(s, email@)),
            !r ==> *final(ref_session) == *old(ref_session),
    {
        let mut i: usize = 0;
        while i < self.sessions.len()
            invariant
                self.wf(),
                i <= self.sessions@.len(),
                *ref_session == *old(ref_session),
                forall|j: int| 0 <= j < i ==> !has_account(#[trigger] self.sessions@[j], email@),
            decreases self.sessions@.len() - i,
        {
            let found = match &self.sessions[i].email {
                Some(e) => *e == *email,
                None => false,
            };
            if found {
                let s = self.sessions[i].clone();
                proof {
                    let k = s.session_id@;
                    assert(self@.contains_key(k) && has_account(self@[k], email@));
                }
                *ref_session = Some(s);
                return true;
            }
            i = i + 1;
        }
        proof {
            assert forall|k: Seq<char>| self@.contains_key(k) implies !#[trigger] has_account(self@[k], email@) by {
                let j = choose|j: int| 0 <= j < self.sessions@.len() && #[trigger] self.sessions@[j].session_id@ == k;
                assert(self@[k] == self.sessions@[j]);
            }
        }
        false
    }

    /// Sweeps the registry at time `current_timestamp`: every expired session
    /// (see [`is_expired`]) is removed and handed back, each once, so that
    /// the caller releases its handles; the others stay as they are.
    pub fn invalidate(&mut self, current_timestamp: u64) -> (r: Vec<Session>)
        requires
            old(self).wf(),
        ensures
            final(self).wf(),
            final(self)@ == spec_invalidate(old(self)@, current_timestamp, old(self).spec_expiration()),
            final(self).spec_expiration() == old(self).spec_expiration(),
            forall|j: int|
                0 <= j < r@.len() ==> {
                    &&& old(self)@.contains_key(#[trigger] r@[j].session_id@)
                    &&& old(self)@[r@[j].session_id@] == r@[j]
                    &&& is_expired(r@[j], current_timestamp, old(self).spec_expiration())
                },
            forall|k: Seq<char>|
                old(self)@.contains_key(k) && is_expired(old(self)@[k], current_timestamp, old(self).spec_expiration())
                    ==> exists|j: int| 0 <= j < r@.len() && #[trigger] r@[j].session_id@ == k,
            forall|a: int, b: int|
                0 <= a < r@.len() && 0 <= b < r@.len() && a != b ==> #[trigger] r@[a].session_id@
                    != #[trigger] r@[b].session_id@,
    {
        let exp = self.session_expiration_time;
        let n = self.sessions.len();
        let mut kept: Vec<Session> = Vec::new();
        let mut removed: Vec<Session> = Vec::new();
        let ghost mut kept_at: Seq<int> = Seq::empty();
        let ghost mut removed_at: Seq<int> = Seq::empty();
        let mut i: usize = 0;
        while i < n
            invariant
                self.wf(),
                *self == *old(self),
                n == self.sessions@.len(),
                exp == self.spec_expiration(),
                i <= n,
                kept_at.len() == kept@.len(),
                removed_at.len() == removed@.len(),
                forall|j: int|
                    0 <= j < kept@.len() ==> 0 <= #[trigger] kept_at[j] < i && self.sessions@[kept_at[j]]
                        == kept@[j] && !is_expired(kept@[j], current_timestamp, exp),
                forall|j: int|
                    0 <= j < removed@.len() ==> 0 <= #[trigger] removed_at[j] < i && self.sessions@[removed_at[j]]
                        == removed@[j] && is_expired(removed@[j], current_timestamp, exp),
                forall|a: int, b: int|
                    0 <= a < kept@.len() && 0 <= b < kept@.len() && a != b ==> #[trigger] kept_at[a]
                        != #[trigger] kept_at[b],
                forall|a: int, b: int|
                    0 <= a < removed@.len() && 0 <= b < removed@.len() && a != b ==> #[trigger] removed_at[a]
                        != #[trigger] removed_at[b],
                forall|x: int|
                    0 <= x < i && !is_expired(#[trigger] self.sessions@[x], current_timestamp, exp) ==> exists|j: int|
                        0 <= j < kept@.len() && kept_at[j] == x,
                forall|x: int|
                    0 <= x < i && is_expired(#[trigger] self.sessions@[x], current_timestamp, exp) ==> exists|j: int|
                        0 <= j < removed@.len() && removed_at[j] == x,
            decreases n - i,
        {
            let ghost kept_at0 = kept_at;
            let ghost removed_at0 = removed_at;
            let ghost k0 = kept@.len() as int;
            let ghost r0 = removed@.len() as int;
            let s = self.sessions[i].clone();
            if session_expired(&s, current_timestamp, exp) {
                let ghost w = removed@.len() as int;
                removed.push(s);
                proof {
                    removed_at = removed_at.push(i as int);
                    assert(removed_at[w] == i as int);
                }
            } else {
                let ghost w = kept@.len() as int;
                kept.push(s);
                proof {
                    kept_at = kept_at.push(i as int);
                    assert(kept_at[w] == i as int);
                }
            }
            proof {
                let ii = i as int;
                assert forall|x: int|
                    0 <= x < ii + 1 && !is_expired(#[trigger] self.sessions@[x], current_timestamp, exp) implies exists|j: int|
                        0 <= j < kept@.len() && kept_at[j] == x by {
                    if x < ii {
                        let j = choose|j: int| 0 <= j < k0 && kept_at0[j] == x;
                        assert(kept_at[j] == x);
                    } else {
                        assert(kept_at[k0] == x);
                    }
                }
                assert forall|x: int|
                    0 <= x < ii + 1 && is_expired(#[trigger] self.sessions@[x], current_timestamp, exp) implies exists|j: int|
                        0 <= j < removed@.len() && removed_at[j] == x by {
                    if x < ii {
                        let j = choose|j: int| 0 <= j < r0 && removed_at0[j] == x;
                        assert(removed_at[j] == x);
                    } else {
                        assert(removed_at[r0] == x);
                    }
                }
            }
            i = i + 1;
        }
        let ghost old_sessions = self.sessions@;
        let ghost new_map = spec_invalidate(self@, current_timestamp, exp);
        self.sessions = kept;
        self.contents = Ghost(new_map);
        proof {
            let om = old(self)@;
            assert forall|j: int| 0 <= j < self.sessions@.len() implies {
                &&& self.contents@.contains_key(#[trigger] self.sessions@[j].session_id@)
                &&& self.contents@[self.sessions@[j].session_id@] == self.sessions@[j]
            } by {
                let x = kept_at[j];
                assert(old_sessions[x] == self.sessions@[j]);
                assert(om.contains_key(old_sessions[x].session_id@));
            }
            assert forall|k: Seq<char>| #[trigger] self.contents@.contains_key(k) implies exists|j: int|
                0 <= j < self.sessions@.len() && #[trigger] self.sessions@[j].session_id@ == k by {
                let x = choose|x: int| 0 <= x < old_sessions.len() && #[trigger] old_sessions[x].session_id@ == k;
                assert(om[k] == old_sessions[x]);
                let j = choose|j: int| 0 <= j < kept@.len() && kept_at[j] == x;
                assert(self.sessions@[j].session_id@ == k);
            }
            assert forall|a: int, b: int|
                0 <= a < self.sessions@.len() && 0 <= b < self.sessions@.len() && a != b
                    implies #[trigger] self.sessions@[a].session_id@ != #[trigger] self.sessions@[b].session_id@ by {
                assert(old_sessions[kept_at[a]] == self.sessions@[a]);
                assert(old_sessions[kept_at[b]] == self.sessions@[b]);
            }
            assert forall|j: int| 0 <= j < removed@.len() implies {
                &&& om.contains_key(#[trigger] removed@[j].session_id@)
                &&& om[removed@[j].session_id@] == removed@[j]
                &&& is_expired(removed@[j], current_timestamp, exp)
            } by {
                assert(old_sessions[removed_at[j]] == removed@[j]);
            }
            assert forall|k: Seq<char>| om.contains_key(k) && is_expired(om[k], current_timestamp, exp) implies exists|j: int|
                0 <= j < removed@.len() && #[trigger] removed@[j].session_id@ == k by {
                let x = choose|x: int| 0 <= x < old_sessions.len() && #[trigger] old_sessions[x].session_id@ == k;
                assert(om[k] == old_sessions[x]);
                let j = choose|j: int| 0 <= j < removed@.len() && removed_at[j] == x;
                assert(removed@[j].session_id@ == k);
            }
            assert forall|a: int, b: int|
                0 <= a < removed@.len() && 0 <= b < removed@.len() && a != b
                    implies #[trigger] removed@[a].session_id@ != #[trigger] removed@[b].session_id@ by {
                assert(old_sessions[removed_at[a]] == removed@[a]);
                assert(old_sessions[removed_at[b]] == removed@[b]);
            }
        }
        removed
    }

    /// The checks a login for account `email` on session `session_id` passes
    /// before the engine is asked: the account must not be logged in on any
    /// session, and the session must exist.
    pub fn begin_login(&self, session_id: &str, email: &String) -> (r: Result<Session, LoginRejection>)
        requires
            self.wf(),
        ensures
            r == spec_begin_login(self@, session_id@, email@),
    {
        let mut conflicting: Option<Session> = None;
        if self.check_if_already_logged(email, &mut conflicting) {
            return Err(LoginRejection::AlreadyLogged);
        }
        match self.get(session_id) {
            None => Err(LoginRejection::SessionNotFound),
            Some(session) => Ok(session),
        }
    }

    /// Records a login the engine accepted: the session carries `email`,
    /// its expiry is left to the engine exactly when `remote` holds, its
    /// activity is refreshed, and it replaces the stored copy.
    pub fn complete_login(&mut self, session: Session, email: String, remote: bool, now: u64)
        requires
            old(self).wf(),
        ensures
            final(self).wf(),
            final(self)@ == old(self)@.insert(session.session_id@, logged_in(session, email, remote, now)),
            final(self).spec_expiration() == old(self).spec_expiration(),
    {
        let mut session = session;
        session.email = Some(email);
        session.remote_session_handling = remote;
        let _ = self.remove(session.session_id.as_str(), false);
        self.add(session.clone());
        self.touch(session, now);
    }

    /// Refreshes the activity of `session` at `now` (see
    /// [`Session::update_timestamp_last_update`]) and stores it in place of
    /// the copy held under its identifier.
    pub fn touch(&mut self, session: Session, now: u64)
        requires
            old(self).wf(),
        ensures
            final(self).wf(),
            final(self)@ == old(self)@.insert(session.session_id@, refreshed(session, now)),
            final(self).spec_expiration() == old(self).spec_expiration(),
    {
        let mut session = session;
        session.update_timestamp_last_update(now);
        let _ = self.remove(session.session_id.as_str(), false);
        let ghost removed = self@;
        self.add(session);
        assert(removed.insert(session.session_id@, session) =~= old(self)@.insert(session.session_id@, session));
    }

    /// Whether a client greeting with `session_id` gets a new session: it
    /// sent the placeholder "null" or an identifier the registry does not
    /// hold.
    pub fn needs_new_session(&self, session_id: &str) -> (r: bool)
        requires
            self.wf(),
        ensures
            r == (session_id@ == "null"@ || !self@.contains_key(session_id@)),
    {
        if str_eq(session_id, "null") {
            return true;
        }
        self.find(session_id).is_none()
    }

    /// First half of a heartbeat on `session_id`: an unknown session is
    /// reported expired; a session whose engine is no longer valid is removed
    /// and its handles handed back; a session whose expiry the engine handles
    /// must be probed by the engine (see [`Sessions::heartbeat_finish`]); any
    /// other session is alive.
    pub fn heartbeat_begin(&mut self, session_id: &str) -> (r: (HeartbeatVerdict, Vec<Resource>))
        requires
            old(self).wf(),
        ensures
            final(self).wf(),
            final(self).spec_expiration() == old(self).spec_expiration(),
            !old(self)@.contains_key(session_id@) ==> r.0 == HeartbeatVerdict::Expired && r.1@.len() == 0
                && final(self)@ == old(self)@,
            old(self)@.contains_key(session_id@) && !old(self)@[session_id@].spec_is_valid() ==> r.0
                == HeartbeatVerdict::Invalid && r.1@ == old(self)@[session_id@].spec_resources() && final(self)@
                == old(self)@.remove(session_id@),
            old(self)@.contains_key(session_id@) && old(self)@[session_id@].spec_is_valid() ==> r.1@.len() == 0
                && final(self)@ == old(self)@ && r.0 == (if old(self)@[session_id@].remote_session_handling {
                HeartbeatVerdict::NeedsProbe
            } else {
                HeartbeatVerdict::Alive
            }),
    {
        match self.get(session_id) {
            None => (HeartbeatVerdict::Expired, Vec::new()),
            Some(session) => {
                if !session.is_valid() {
                    let released = self.remove(session_id, true);
                    (HeartbeatVerdict::Invalid, released)
                } else if session.remote_session_handling {
                    (HeartbeatVerdict::NeedsProbe, Vec::new())
                } else {
                    (HeartbeatVerdict::Alive, Vec::new())
                }
            },
        }
    }

    /// Second half of a heartbeat on a session the engine was asked about:
    /// `beat_ok` is the engine's answer and `no_network` whether it has lost
    /// its server. A successful beat keeps the session alive. A failed one
    /// with the server reachable means the remote session ended: the session
    /// is removed and its handles handed back. A failed one without network
    /// hands expiry over to the registry for good: the session is kept with
    /// local expiry and activity at `now`.
    pub fn heartbeat_finish(&mut self, session: Session, beat_ok: bool, no_network: bool, now: u64) -> (r: (
        HeartbeatVerdict,
        Vec<Resource>,
    ))
        requires
            old(self).wf(),
        ensures
            final(self).wf(),
            final(self).spec_expiration() == old(self).spec_expiration(),
            beat_ok ==> r.0 == HeartbeatVerdict::Alive && r.1@.len() == 0 && final(self)@ == old(self)@,
            !beat_ok && !no_network ==> r.0 == HeartbeatVerdict::RemoteExpired && r.1@ == spec_released(
                old(self)@,
                session.session_id@,
                true,
            ) && final(self)@ == old(self)@.remove(session.session_id@),
            !beat_ok && no_network ==> r.0 == HeartbeatVerdict::Alive && r.1@.len() == 0 && final(self)@ == old(
                self,
            )@.insert(
                session.session_id@,
                Session { remote_session_handling: false, timestamp_last_update: now, ..session },
            ),
    {
        if beat_ok {
            return (HeartbeatVerdict::Alive, Vec::new());
        }
        if !no_network {
            let released = self.remove(session.session_id.as_str(), true);
            return (HeartbeatVerdict::RemoteExpired, released);
        }
        let mut session = session;
        session.remote_session_handling = false;
        self.touch(session, now);
        (HeartbeatVerdict::Alive, Vec::new())
    }
}

} // verus!

verus! {

/// Adding a session and then looking up its identifier yields that session.
pub proof fn lemma_add_then_get(m: SessionMap, s: Session)
    ensures
        spec_get(m.insert(s.session_id@, s), s.session_id@) == Some(s),
{
}

/// Adding a session and then removing it (without release) leaves no
/// session under its identifier.
pub proof fn lemma_remove_then_get(m: SessionMap, s: Session)
    ensures
        spec_get(m.insert(s.session_id@, s).remove(s.session_id@), s.session_id@) is None,
{
}

/// Once account `email` has logged in on a session, the account is reported
/// as logged in, and the checks refuse any further login for it, on every
/// session.
pub proof fn lemma_single_session_per_account(
    m: SessionMap,
    s: Session,
    email: String,
    remote: bool,
    now: u64,
    other_session_id: Seq<char>,
)
    ensures
        spec_logged(m.insert(s.session_id@, logged_in(s, email, remote, now)), email@),
        spec_begin_login(m.insert(s.session_id@, logged_in(s, email, remote, now)), other_session_id, email@)
            == Err::<Session, LoginRejection>(LoginRejection::AlreadyLogged),
{
    let after = m.insert(s.session_id@, logged_in(s, email, remote, now));
    assert(after.contains_key(s.session_id@) && has_account(after[s.session_id@], email@));
}

/// A locally handled session idle for one second more than the expiration
/// time is evicted by a sweep; a session active at the time of the sweep
/// is kept unchanged.
pub proof fn lemma_expiry_sweep(m: SessionMap, now: u64, expiration: u32, id: Seq<char>)
    requires
        m.contains_key(id),
    ensures
        !m[id].remote_session_handling && m[id].timestamp_last_update as int == now as int - (expiration as int + 1)
            ==> !spec_invalidate(m, now, expiration).contains_key(id),
        m[id].timestamp_last_update == now ==> spec_invalidate(m, now, expiration).contains_key(id)
            && spec_invalidate(m, now, expiration)[id] == m[id],
{
}

/// A session whose expiry the engine handles and whose engine is valid
/// survives every sweep, however old its last activity.
pub proof fn lemma_remote_handling_exemption(m: SessionMap, now: u64, expiration: u32, id: Seq<char>)
    requires
        m.contains_key(id),
        m[id].remote_session_handling,
        m[id].spec_is_valid(),
    ensures
        spec_invalidate(m, now, expiration).contains_key(id),
        spec_invalidate(m, now, expiration)[id] == m[id],
{
}

/// Removing an identifier twice with release releases nothing the second
/// time and leaves the registry as the first removal did.
pub proof fn lemma_no_double_free(m: SessionMap, id: Seq<char>)
    ensures
        spec_released(m.remove(id), id, true) == Seq::<Resource>::empty(),
        m.remove(id).remove(id) == m.remove(id),
{
    assert(m.remove(id).remove(id) =~= m.remove(id));
}

} // verus!
