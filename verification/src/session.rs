use vstd::prelude::*;
use std::collections::HashMap;

use crate::error::AppError;
use crate::clock::{in_datetime_range, now_unix_nanos};
use crate::ids::{parse_session_id, uuid_parse};

verus! {

broadcast use vstd::std_specs::hash::group_hash_axioms;

/// A login in progress: where the user wants to go, the secrets the identity
/// provider's answer must match, and when the login expires (nanoseconds since
/// the Unix epoch).
pub struct Session {
    pub room: String,
    pub csrf_token: String,
    pub nonce: String,
    pub pkce_verifier: String,
    pub expires_at: i128,
}

/// The logins in progress, keyed by session id.
pub struct SessionStore {
    sessions: HashMap<u128, Session>,
}

impl View for SessionStore {
    type V = Map<u128, Session>;

    closed spec fn view(&self) -> Map<u128, Session> {
        self.sessions@
    }
}

/// The sessions of `m` that are still alive at `now`: those that expire after it.
pub open spec fn unexpired(m: Map<u128, Session>, now: int) -> Map<u128, Session> {
    Map::new(|k: u128| m.contains_key(k) && m[k].expires_at > now, |k: u128| m[k])
}

impl SessionStore {
    /// An empty store.
    pub fn new() -> (r: SessionStore)
        ensures
            r@ == Map::<u128, Session>::empty(),
    {
        SessionStore { sessions: HashMap::new() }
    }

    /// Whether a session with this id is stored.
    pub fn contains(&self, id: u128) -> (r: bool)
        ensures
            r == self@.contains_key(id),
    {
        self.sessions.contains_key(&id)
    }

    /// Drops every session that has expired at `now`, keeping the others as they are.
    pub fn remove_expired_at(&mut self, now: i128)
        ensures
            final(self)@ == unexpired(old(self)@, now as int),
    {
        let ghost start = self.sessions@;
        let mut ids: Vec<u128> = Vec::new();
        for k in it: self.sessions.keys()
            invariant
                self.sessions@ == start,
                it.seq().unref().to_set() == start.dom(),
                ids@ == it.seq().take(it.index() as int).unref(),
                it.index() == it.seq().len() ==> ids@.to_set() == start.dom(),
        {
            ids.push(*k);
            proof {
                assert(ids@ =~= it.seq().take(it.index() as int + 1).unref());
                assert(it.index() + 1 == it.seq().len() ==> it.seq().take(it.index() as int + 1)
                    =~= it.seq());
            }
        }
        assert(ids@.to_set() =~= start.dom());
        let n = ids.len();
        let mut j: usize = 0;
        while j < n
            invariant
                n == ids@.len(),
                j <= n,
                ids@.to_set() == start.dom(),
                forall|k: u128| #[trigger]
                    self.sessions@.contains_key(k) <==> (start.contains_key(k) && !(ids@.subrange(
                        0,
                        j as int,
                    ).contains(k) && start[k].expires_at <= now)),
                forall|k: u128| #[trigger]
                    self.sessions@.contains_key(k) ==> self.sessions@[k] == start[k],
            decreases n - j,
        {
            let id = ids[j];
            let expired = match self.sessions.get(&id) {
                Some(s) => s.expires_at <= now,
                None => false,
            };
            if expired {
                self.sessions.remove(&id);
            }
            proof {
                assert forall|k: u128| #[trigger]
                    self.sessions@.contains_key(k) <==> (start.contains_key(k) && !(ids@.subrange(
                        0,
                        j as int + 1,
                    ).contains(k) && start[k].expires_at <= now)) by {
                    let pre = ids@.subrange(0, j as int);
                    let post = ids@.subrange(0, j as int + 1);
                    assert(post =~= pre.push(id));
                    if k == id {
                        assert(post.contains(k)) by {
                            assert(post[j as int] == k);
                        }
                    } else {
                        if post.contains(k) {
                            let i = choose|i: int| 0 <= i < post.len() && post[i] == k;
                            assert(pre[i] == k);
                        }
                    }
                }
            }
            j = j + 1;
        }
        proof {
            assert(ids@.subrange(0, n as int) =~= ids@);
            assert forall|k: u128| start.contains_key(k) implies ids@.contains(k) by {
                assert(ids@.to_set().contains(k));
            }
            assert(self.sessions@ =~= unexpired(start, now as int));
        }
    }

    /// Stores a session under `id`, replacing any session stored under it.
    pub fn insert(&mut self, id: u128, session: Session)
        ensures
            final(self)@ == old(self)@.insert(id, session),
    {
        self.sessions.insert(id, session);
    }

    /// Takes the session stored under `id` out of the store.
    pub fn take(&mut self, id: u128) -> (r: Option<Session>)
        ensures
            final(self)@ == old(self)@.remove(id),
            r == (if old(self)@.contains_key(id) {
                Some(old(self)@[id])
            } else {
                None
            }),
    {
        self.sessions.remove(&id)
    }
}

/// Drops the sessions that have expired by now.
pub fn prune_expired_sessions(store: &mut SessionStore)
    ensures
        exists|now: i128|
            in_datetime_range(now as int) && final(store)@ == unexpired(old(store)@, now as int),
{
    let now = now_unix_nanos();
    store.remove_expired_at(now);
}

/// The session id a cookie value names, if it is a UUID.
pub open spec fn cookie_session_id(cookie: Option<Seq<char>>) -> Option<u128> {
    match cookie {
        None => None,
        Some(text) => uuid_parse(text),
    }
}

/// What the callback learns from the session stored under `id` (already taken
/// out of the store): an unknown or expired session is invalid, a session that
/// expects another `state` is refused, and otherwise the login goes on with it.
pub open spec fn session_verdict(m: Map<u128, Session>, id: u128, state: Seq<char>, now: int) -> Result<Session, AppError> {
    if !m.contains_key(id) {
        Err(AppError::InvalidSession)
    } else if m[id].expires_at <= now {
        Err(AppError::InvalidSession)
    } else if m[id].csrf_token@ != state {
        Err(AppError::InvalidState)
    } else {
        Ok(m[id])
    }
}

/// The store and the answer after a callback at `now` with this cookie and
/// `state`: without a readable session id nothing changes and the session is
/// invalid; otherwise the session is taken out of the store, whatever the
/// verdict on it.
pub open spec fn spec_take_session(
    m: Map<u128, Session>,
    cookie: Option<Seq<char>>,
    state: Seq<char>,
    now: int,
) -> (Map<u128, Session>, Result<Session, AppError>) {
    match cookie_session_id(cookie) {
        None => (m, Err(AppError::InvalidSession)),
        Some(id) => (m.remove(id), session_verdict(m, id, state, now)),
    }
}

/// Takes the session named by the callback's cookie out of the store and checks
/// it against the time `now` and the `state` the identity provider sent back.
pub fn take_session(store: &mut SessionStore, cookie: Option<&str>, state: &str, now: i128) -> (r:
    Result<Session, AppError>)
    ensures
        (final(store)@, r) == spec_take_session(
            old(store)@,
            crate::web_url::opt_str_view(cookie),
            state@,
            now as int,
        ),
{
    let id = match cookie {
        None => return Err(AppError::InvalidSession),
        Some(text) => match parse_session_id(text) {
            None => return Err(AppError::InvalidSession),
            Some(id) => id,
        },
    };
    let session = match store.take(id) {
        None => return Err(AppError::InvalidSession),
        Some(session) => session,
    };
    if session.expires_at <= now {
        return Err(AppError::InvalidSession);
    }
    let expected = String::from_str(state);
    if !(session.csrf_token == expected) {
        return Err(AppError::InvalidState);
    }
    Ok(session)
}

/// Takes and checks the session of a callback that arrives now.
pub fn claim_session(store: &mut SessionStore, cookie: Option<&str>, state: &str) -> (r: Result<
    Session,
    AppError,
>)
    ensures
        exists|now: i128|
            in_datetime_range(now as int) && (final(store)@, r) == spec_take_session(
                old(store)@,
                crate::web_url::opt_str_view(cookie),
                state@,
                now as int,
            ),
{
    let now = now_unix_nanos();
    take_session(store, cookie, state, now)
}

/// Stores a new session at time `now`, after dropping the sessions that have
/// expired by then.
pub fn open_session(store: &mut SessionStore, id: u128, session: Session, now: i128)
    ensures
        final(store)@ == unexpired(old(store)@, now as int).insert(id, session),
{
    store.remove_expired_at(now);
    store.insert(id, session);
}

/// A session opened at one time is found by a callback at a later time that
/// names it with its cookie and brings back its `state`, as long as the session
/// has not expired; the callback takes it out of the store.
pub proof fn lemma_open_then_take(
    m: Map<u128, Session>,
    id: u128,
    s: Session,
    opened_at: int,
    cookie: Seq<char>,
    state: Seq<char>,
    now: int,
)
    requires
        uuid_parse(cookie) == Some(id),
        s.csrf_token@ == state,
        now < s.expires_at,
    ensures
        spec_take_session(unexpired(m, opened_at).insert(id, s), Some(cookie), state, now) == (
        unexpired(m, opened_at).remove(id), Ok::<Session, AppError>(s)),
{
    assert(unexpired(m, opened_at).insert(id, s).remove(id) =~= unexpired(m, opened_at).remove(id));
}

/// A session serves one callback only: once a callback has named it, whatever
/// the verdict, a second callback with the same cookie finds no session.
pub proof fn lemma_session_single_use(
    m: Map<u128, Session>,
    cookie: Seq<char>,
    state1: Seq<char>,
    state2: Seq<char>,
    now1: int,
    now2: int,
)
    requires
        uuid_parse(cookie) is Some,
    ensures
        spec_take_session(spec_take_session(m, Some(cookie), state1, now1).0, Some(cookie), state2, now2).1
            == Err::<Session, AppError>(AppError::InvalidSession),
{
}

/// Opening a session never keeps one that has expired, and keeps every other
/// session as it was.
pub proof fn lemma_open_keeps_live_sessions(m: Map<u128, Session>, id: u128, s: Session, now: int, k: u128)
    requires
        k != id,
    ensures
        unexpired(m, now).insert(id, s).contains_key(k) <==> (m.contains_key(k) && m[k].expires_at > now),
        unexpired(m, now).insert(id, s).contains_key(k) ==> unexpired(m, now).insert(id, s)[k] == m[k],
{
}

} // verus!
