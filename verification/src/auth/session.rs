//! Browser sessions: who is signed in under which session id, and until
//! when. Time is counted in whole seconds.

use vstd::prelude::*;
use vstd::string::StringExecFns;
use crate::templates::layout::sees_admin_link;
use crate::text::str_eq;
use crate::utils::hash::{hex_encode, hex_of};

verus! {

/// The seconds for which a session lasts: a day.
pub const SESSION_SECONDS: i64 = 24 * 3600;

/// A session: the signed-in user and the second at which it ends.
#[derive(Debug)]
pub struct Session {
    pub user_id: i64,
    pub username: String,
    pub expires_at: i64,
}

/// A session as the store keeps it, under its id.
pub struct StoredSession {
    pub session_id: String,
    pub user_id: i64,
    pub username: String,
    pub expires_at: i64,
}

/// The mathematical value of a [`StoredSession`].
pub ghost struct SessionView {
    pub session_id: Seq<char>,
    pub user_id: i64,
    pub username: Seq<char>,
    pub expires_at: i64,
}

impl View for StoredSession {
    type V = SessionView;

    open spec fn view(&self) -> SessionView {
        SessionView {
            session_id: self.session_id@,
            user_id: self.user_id,
            username: self.username@,
            expires_at: self.expires_at,
        }
    }
}

/// Some session is kept under `id`.
pub open spec fn has_session(sessions: Seq<SessionView>, id: Seq<char>) -> bool {
    exists|i: int| 0 <= i < sessions.len() && (#[trigger] sessions[i]).session_id == id
}

/// The place of the session `id`; meaningful where `has_session` holds.
pub open spec fn session_index(sessions: Seq<SessionView>, id: Seq<char>) -> int {
    choose|i: int| 0 <= i < sessions.len() && (#[trigger] sessions[i]).session_id == id
}

/// No id names two sessions.
pub open spec fn unique_session_ids(sessions: Seq<SessionView>) -> bool {
    forall|i: int, j: int|
        0 <= i < j < sessions.len() ==> (#[trigger] sessions[i]).session_id != (
        #[trigger] sessions[j]).session_id
}

/// The second at which a session that begins at `now` ends, the last
/// second that can be counted standing for all that are later.
pub open spec fn session_end(now: i64) -> i64 {
    if now + SESSION_SECONDS > i64::MAX {
        i64::MAX
    } else {
        (now + SESSION_SECONDS) as i64
    }
}

/// The sessions after one was opened under `id`, in place of the one
/// that `id` named before.
pub open spec fn session_put(
    sessions: Seq<SessionView>,
    id: Seq<char>,
    user_id: i64,
    username: Seq<char>,
    now: i64,
) -> Seq<SessionView> {
    let entry = SessionView { session_id: id, user_id, username, expires_at: session_end(now) };
    if has_session(sessions, id) {
        sessions.update(session_index(sessions, id), entry)
    } else {
        sessions.push(entry)
    }
}

/// The session that `id` names at `now`, unless it has ended.
pub open spec fn live_session(sessions: Seq<SessionView>, id: Seq<char>, now: i64) -> Option<
    SessionView,
> {
    if has_session(sessions, id) && sessions[session_index(sessions, id)].expires_at >= now {
        Some(sessions[session_index(sessions, id)])
    } else {
        None
    }
}

/// The sessions without the one that `id` names.
pub open spec fn session_removed(sessions: Seq<SessionView>, id: Seq<char>) -> Seq<SessionView> {
    if has_session(sessions, id) {
        sessions.remove(session_index(sessions, id))
    } else {
        sessions
    }
}

/// The sessions that end after `now`, in their order.
pub open spec fn lasting_sessions(sessions: Seq<SessionView>, now: i64) -> Seq<SessionView>
    decreases sessions.len(),
{
    if sessions.len() == 0 {
        Seq::empty()
    } else if sessions.last().expires_at > now {
        lasting_sessions(sessions.drop_last(), now).push(sessions.last())
    } else {
        lasting_sessions(sessions.drop_last(), now)
    }
}

/// Every session that is kept as lasting was a session before, and no id
/// gets a second one.
pub proof fn lemma_lasting_sessions(sessions: Seq<SessionView>, now: i64)
    ensures
        forall|i: int|
            0 <= i < lasting_sessions(sessions, now).len() ==> sessions.contains(
                #[trigger] lasting_sessions(sessions, now)[i],
            ),
        unique_session_ids(sessions) ==> unique_session_ids(lasting_sessions(sessions, now)),
    decreases sessions.len(),
{
    let kept = lasting_sessions(sessions, now);
    if sessions.len() > 0 {
        let init = sessions.drop_last();
        let rest = lasting_sessions(init, now);
        lemma_lasting_sessions(init, now);
        assert forall|i: int| 0 <= i < kept.len() implies sessions.contains(
            #[trigger] kept[i],
        ) by {
            if i < rest.len() {
                assert(init.contains(rest[i]));
                let j = choose|j: int| 0 <= j < init.len() && init[j] == rest[i];
                assert(sessions[j] == kept[i]);
            } else {
                assert(sessions[sessions.len() - 1] == kept[i]);
            }
        }
        if unique_session_ids(sessions) {
            assert(unique_session_ids(init)) by {
                assert forall|i: int, j: int| 0 <= i < j < init.len() implies (
                #[trigger] init[i]).session_id != (#[trigger] init[j]).session_id by {
                    assert(init[i] == sessions[i] && init[j] == sessions[j]);
                }
            }
            assert forall|a: int, b: int| 0 <= a < b < kept.len() implies (
            #[trigger] kept[a]).session_id != (#[trigger] kept[b]).session_id by {
                if b < rest.len() {
                    assert(kept[a] == rest[a] && kept[b] == rest[b]);
                } else {
                    assert(init.contains(rest[a]));
                    let j = choose|j: int| 0 <= j < init.len() && init[j] == rest[a];
                    assert(sessions[j] == kept[a]);
                    assert(sessions[sessions.len() - 1] == kept[b]);
                }
            }
        }
    }
}

/// The id of a session: the random bytes that the caller drew, written in
/// hexadecimal.
pub fn generate_session_id(random_bytes: &[u8]) -> (id: String)
    ensures
        id@ == hex_of(random_bytes@),
{
    hex_encode(random_bytes)
}

/// The views of a sequence of sessions.
pub open spec fn session_views(sessions: Seq<StoredSession>) -> Seq<SessionView> {
    sessions.map_values(|s: StoredSession| s@)
}

/// The sessions of all browsers, kept in memory.
pub struct SessionStore {
    sessions: Vec<StoredSession>,
}

impl View for SessionStore {
    type V = Seq<SessionView>;

    closed spec fn view(&self) -> Seq<SessionView> {
        session_views(self.sessions@)
    }
}

impl SessionStore {
    /// Every store that this module hands out keeps one session under
    /// each id.
    pub open spec fn wf(&self) -> bool {
        unique_session_ids(self@)
    }

    /// No session is open yet.
    pub fn new() -> (store: Self)
        ensures
            store.wf(),
            store@ == Seq::<SessionView>::empty(),
    {
        let store = SessionStore { sessions: Vec::new() };
        assert(session_views(store.sessions@) == Seq::<SessionView>::empty());
        store
    }

    fn position(&self, session_id: &str) -> (at: Option<usize>)
        requires
            self.wf(),
        ensures
            match at {
                Some(i) => i < self@.len() && self@[i as int].session_id == session_id@
                    && has_session(self@, session_id@) && session_index(self@, session_id@) == i,
                None => !has_session(self@, session_id@),
            },
    {
        let mut i: usize = 0;
        while i < self.sessions.len()
            invariant
                i <= self.sessions.len(),
                self.wf(),
                self@ == session_views(self.sessions@),
                forall|k: int| 0 <= k < i ==> (#[trigger] self@[k]).session_id != session_id@,
            decreases self.sessions.len() - i,
        {
            if str_eq(self.sessions[i].session_id.as_str(), session_id) {
                assert(self@[i as int].session_id == session_id@);
                return Some(i);
            }
            i += 1;
        }
        None
    }

    /// Opens a session for a user under the id `session_id`, which the
    /// caller made of fresh random bytes. The session lasts a day.
    /// Returns the id.
    pub fn create_session(
        &mut self,
        session_id: String,
        user_id: i64,
        username: String,
        now: i64,
    ) -> (id: String)
        requires
            old(self).wf(),
        ensures
            final(self).wf(),
            id@ == session_id@,
            final(self)@ == session_put(old(self)@, session_id@, user_id, username@, now),
            live_session(final(self)@, session_id@, now) == Some(
                SessionView {
                    session_id: session_id@,
                    user_id,
                    username: username@,
                    expires_at: session_end(now),
                },
            ),
    {
        let found = self.position(session_id.as_str());
        let ghost before = self@;
        let expires_at = if now > i64::MAX - SESSION_SECONDS {
            i64::MAX
        } else {
            now + SESSION_SECONDS
        };
        let entry = StoredSession {
            session_id: session_id.clone(),
            user_id,
            username,
            expires_at,
        };
        let ghost at = match found {
            Some(i) => i as int,
            None => before.len() as int,
        };
        match found {
            Some(i) => {
                assert(session_views(self.sessions@.update(i as int, entry)) == before.update(
                    i as int,
                    entry@,
                ));
                self.sessions.set(i, entry);
            },
            None => {
                assert(session_views(self.sessions@.push(entry)) == before.push(entry@));
                self.sessions.push(entry);
            },
        }
        proof {
            let after = self@;
            assert(after[at].session_id == session_id@);
            assert forall|i: int, j: int| 0 <= i < j < after.len() implies (
            #[trigger] after[i]).session_id != (#[trigger] after[j]).session_id by {
                if j < before.len() {
                    assert(before[i].session_id != before[j].session_id);
                    assert(after[i].session_id == before[i].session_id);
                    assert(after[j].session_id == before[j].session_id);
                } else {
                    assert(before[i].session_id == after[i].session_id);
                }
            }
            let again = session_index(after, session_id@);
            if again < at {
                assert(after[again].session_id != after[at].session_id);
            } else if at < again {
                assert(after[at].session_id != after[again].session_id);
            }
        }
        session_id
    }

    /// The session that `session_id` names, unless there is none or it
    /// has ended.
    pub fn get_session(&self, session_id: &str, now: i64) -> (session: Option<Session>)
        requires
            self.wf(),
        ensures
            match session {
                Some(s) => live_session(self@, session_id@, now) == Some(
                    SessionView {
                        session_id: session_id@,
                        user_id: s.user_id,
                        username: s.username@,
                        expires_at: s.expires_at,
                    },
                ),
                None => live_session(self@, session_id@, now) is None,
            },
    {
        match self.position(session_id) {
            Some(i) => {
                let kept = &self.sessions[i];
                if kept.expires_at < now {
                    None
                } else {
                    Some(
                        Session {
                            user_id: kept.user_id,
                            username: kept.username.clone(),
                            expires_at: kept.expires_at,
                        },
                    )
                }
            },
            None => None,
        }
    }

    /// Closes the session that `session_id` names.
    pub fn delete_session(&mut self, session_id: &str)
        requires
            old(self).wf(),
        ensures
            final(self).wf(),
            final(self)@ == session_removed(old(self)@, session_id@),
            !has_session(final(self)@, session_id@),
    {
        let found = self.position(session_id);
        let ghost before = self@;
        match found {
            Some(i) => {
                assert(session_views(self.sessions@.remove(i as int)) == before.remove(i as int));
                self.sessions.remove(i);
                proof {
                    let after = self@;
                    assert forall|k: int| 0 <= k < after.len() implies (
                    #[trigger] after[k]).session_id != session_id@ by {
                        if k < i {
                            assert(after[k] == before[k]);
                        } else {
                            assert(after[k] == before[k + 1]);
                        }
                    }
                    assert forall|a: int, b: int| 0 <= a < b < after.len() implies (
                    #[trigger] after[a]).session_id != (#[trigger] after[b]).session_id by {
                        let ia = if a < i { a } else { a + 1 };
                        let ib = if b < i { b } else { b + 1 };
                        assert(after[a] == before[ia] && after[b] == before[ib]);
                    }
                }
            },
            None => {},
        }
    }

    /// Forgets the sessions that have ended.
    pub fn cleanup_expired(&mut self, now: i64)
        requires
            old(self).wf(),
        ensures
            final(self).wf(),
            final(self)@ == lasting_sessions(old(self)@, now),
    {
        let ghost before = self@;
        let mut kept: Vec<StoredSession> = Vec::new();
        let mut k: usize = 0;
        while k < self.sessions.len()
            invariant
                k <= self.sessions.len(),
                before == self@,
                before == session_views(self.sessions@),
                session_views(kept@) == lasting_sessions(before.take(k as int), now),
            decreases self.sessions.len() - k,
        {
            proof {
                assert(before.take(k + 1).drop_last() == before.take(k as int));
            }
            if self.sessions[k].expires_at > now {
                let entry = StoredSession {
                    session_id: self.sessions[k].session_id.clone(),
                    user_id: self.sessions[k].user_id,
                    username: self.sessions[k].username.clone(),
                    expires_at: self.sessions[k].expires_at,
                };
                assert(session_views(kept@.push(entry)) == session_views(kept@).push(entry@));
                kept.push(entry);
            }
            k += 1;
        }
        assert(before.take(k as int) == before);
        self.sessions = kept;
        proof {
            lemma_lasting_sessions(before, now);
        }
    }
}

/// The user of a browser session.
#[derive(Debug)]
pub struct SessionUser {
    pub user_id: i64,
    pub username: String,
}

impl SessionUser {
    /// Whether the user is one of the administrators, who are known by
    /// name.
    pub fn is_admin(&self) -> (admin: bool)
        ensures
            admin == sees_admin_link(self.username@),
    {
        str_eq(self.username.as_str(), "admin") || str_eq(self.username.as_str(), "Link")
    }
}

/// The user of a browser session, where there is one.
#[derive(Debug)]
pub struct OptionalSession(pub Option<SessionUser>);

/// Finds the user of a request by its session cookie: the store, the
/// cookie jar and the cookie must be there, and the session must be live.
/// A request without the store is a fault of the service, every other
/// lack leaves the request without a user.
pub fn session_user(
    store: Option<&SessionStore>,
    session_cookie: Option<&str>,
    has_cookie_jar: bool,
    now: i64,
) -> (user: Result<SessionUser, crate::handlers::HttpStatus>)
    requires
        store matches Some(s) ==> s.wf(),
    ensures
        match user {
            Ok(found) => store is Some && has_cookie_jar && session_cookie is Some && ({
                let live = live_session(store.unwrap()@, session_cookie.unwrap()@, now);
                live is Some && live.unwrap().user_id == found.user_id && live.unwrap().username
                    == found.username@
            }),
            Err(status) => status == if store is None {
                crate::handlers::HttpStatus::InternalServerError
            } else {
                crate::handlers::HttpStatus::Unauthorized
            } && (store is None || !has_cookie_jar || session_cookie is None || live_session(
                store.unwrap()@,
                session_cookie.unwrap()@,
                now,
            ) is None),
        },
{
    let store = match store {
        Some(store) => store,
        None => {
            return Err(crate::handlers::HttpStatus::InternalServerError);
        },
    };
    if !has_cookie_jar {
        return Err(crate::handlers::HttpStatus::Unauthorized);
    }
    let id = match session_cookie {
        Some(id) => id,
        None => {
            return Err(crate::handlers::HttpStatus::Unauthorized);
        },
    };
    match store.get_session(id, now) {
        Some(session) => Ok(SessionUser { user_id: session.user_id, username: session.username }),
        None => Err(crate::handlers::HttpStatus::Unauthorized),
    }
}

} // verus!
