//! The QR logins that have been started and not yet finished.

use crate::outside::now_ms;
use std::path::PathBuf;
use vstd::prelude::*;

verus! {

/// How long a started login may be waited for.
pub const QR_SESSION_TTL_MS: u64 = 600_000;

/// A login that was started: where it is kept, which code was handed out, and
/// which server answers for it.
#[derive(Debug)]
pub struct ActiveQrLogin {
    pub state_dir: PathBuf,
    pub qrcode: String,
    pub qrcode_url: String,
    pub current_api_base_url: String,
    pub started_at_ms: u64,
}

/// What an [`ActiveQrLogin`] holds.
pub struct SessionView {
    pub state_dir: PathBuf,
    pub qrcode: Seq<char>,
    pub qrcode_url: Seq<char>,
    pub current_api_base_url: Seq<char>,
    pub started_at_ms: u64,
}

impl View for ActiveQrLogin {
    type V = SessionView;

    open spec fn view(&self) -> SessionView {
        SessionView {
            state_dir: self.state_dir,
            qrcode: self.qrcode@,
            qrcode_url: self.qrcode_url@,
            current_api_base_url: self.current_api_base_url@,
            started_at_ms: self.started_at_ms,
        }
    }
}

impl Clone for ActiveQrLogin {
    fn clone(&self) -> (copy: Self)
        ensures
            copy == *self,
    {
        ActiveQrLogin {
            state_dir: self.state_dir.clone(),
            qrcode: self.qrcode.clone(),
            qrcode_url: self.qrcode_url.clone(),
            current_api_base_url: self.current_api_base_url.clone(),
            started_at_ms: self.started_at_ms,
        }
    }
}

impl SessionView {
    /// True where the login is older than it may be at the time `now`. A login
    /// that was started after `now` is not.
    pub open spec fn expired(self, now: u64) -> bool {
        now - self.started_at_ms > QR_SESSION_TTL_MS
    }
}

impl ActiveQrLogin {
    /// Tells whether the login is older than it may be at the time `now`.
    pub fn expired(&self, now: u64) -> (answer: bool)
        ensures
            answer == self@.expired(now),
    {
        now.saturating_sub(self.started_at_ms) > QR_SESSION_TTL_MS
    }
}

/// What is left of `sessions` once those that have expired by `now` are gone.
pub open spec fn unexpired(sessions: Map<Seq<char>, SessionView>, now: u64) -> Map<
    Seq<char>,
    SessionView,
> {
    sessions.restrict(
        Set::new(|key: Seq<char>| sessions.contains_key(key) && !sessions[key].expired(now)),
    )
}

/// `sessions` where the login under `key`, if there is one, has another server.
pub open spec fn redirected(
    sessions: Map<Seq<char>, SessionView>,
    key: Seq<char>,
    api_base_url: Seq<char>,
) -> Map<Seq<char>, SessionView> {
    if sessions.contains_key(key) {
        sessions.insert(
            key,
            SessionView { current_api_base_url: api_base_url, ..sessions[key] },
        )
    } else {
        sessions
    }
}

/// The logins by session key. No key occurs twice.
#[derive(Debug)]
pub struct QrSessions {
    entries: Vec<(String, ActiveQrLogin)>,
}

impl QrSessions {
    spec fn holds_at(self, index: int, key: Seq<char>) -> bool {
        0 <= index < self.entries@.len() && self.entries@[index].0@ == key
    }

    spec fn position(self, key: Seq<char>) -> int {
        choose|index: int| self.holds_at(index, key)
    }

    /// No key occurs twice.
    pub closed spec fn wf(self) -> bool {
        forall|i: int, j: int|
            0 <= i < j < self.entries@.len() ==> (#[trigger] self.entries@[i]).0@ != (
            #[trigger] self.entries@[j]).0@
    }
}

impl View for QrSessions {
    type V = Map<Seq<char>, SessionView>;

    closed spec fn view(&self) -> Map<Seq<char>, SessionView> {
        Map::new(
            |key: Seq<char>| exists|index: int| self.holds_at(index, key),
            |key: Seq<char>| self.entries@[self.position(key)].1@,
        )
    }
}

impl QrSessions {
    proof fn lemma_entries(self)
        requires
            self.wf(),
        ensures
            forall|index: int, key: Seq<char>| #[trigger]
                self.holds_at(index, key) ==> self@.contains_key(key) && self@[key]
                    == self.entries@[index].1@,
            forall|key: Seq<char>| #[trigger]
                self@.contains_key(key) ==> self.holds_at(self.position(key), key),
    {
    }

    /// The view is the one map with these entries.
    proof fn lemma_view_is(self, map: Map<Seq<char>, SessionView>)
        requires
            self.wf(),
            forall|index: int|
                0 <= index < self.entries@.len() ==> map.contains_key(
                    (#[trigger] self.entries@[index]).0@,
                ) && map[self.entries@[index].0@] == self.entries@[index].1@,
            forall|key: Seq<char>| #[trigger]
                map.contains_key(key) ==> exists|index: int| self.holds_at(index, key),
        ensures
            self@ == map,
    {
        self.lemma_entries();
        assert(self@ =~= map);
    }

    /// Without the entry at `index`, `rest` holds what was held, its key apart.
    proof fn lemma_removed(self, rest: Self, index: int)
        requires
            self.wf(),
            0 <= index < self.entries@.len(),
            rest.entries@ == self.entries@.remove(index),
        ensures
            rest.wf(),
            rest@ == self@.remove(self.entries@[index].0@),
    {
        self.lemma_entries();
        let map = self@.remove(self.entries@[index].0@);
        assert forall|other: Seq<char>| #[trigger] map.contains_key(other) implies exists|at: int|
            rest.holds_at(at, other) by {
            let was = self.position(other);
            assert(self.holds_at(was, other));
            assert(was != index);
            assert(rest.holds_at(
                if was < index {
                    was
                } else {
                    was - 1
                },
                other,
            ));
        }
        assert forall|at: int| 0 <= at < rest.entries@.len() implies map.contains_key(
            (#[trigger] rest.entries@[at]).0@,
        ) && map[rest.entries@[at].0@] == rest.entries@[at].1@ by {
            let was = if at < index {
                at
            } else {
                at + 1
            };
            assert(rest.entries@[at] == self.entries@[was]);
            assert(self.holds_at(was, self.entries@[was].0@));
        }
        rest.lemma_view_is(map);
    }

    /// No login at all.
    pub fn new() -> (sessions: Self)
        ensures
            sessions.wf(),
            sessions@ == Map::<Seq<char>, SessionView>::empty(),
    {
        let sessions = QrSessions { entries: Vec::new() };
        assert(sessions@ =~= Map::<Seq<char>, SessionView>::empty());
        sessions
    }

    fn find(&self, key: &str) -> (found: Option<usize>)
        requires
            self.wf(),
        ensures
            match found {
                Some(index) => self.holds_at(index as int, key@),
                None => !self@.contains_key(key@),
            },
    {
        let mut index: usize = 0;
        while index < self.entries.len()
            invariant
                index <= self.entries@.len(),
                forall|earlier: int| 0 <= earlier < index ==> !self.holds_at(earlier, key@),
            decreases self.entries@.len() - index,
        {
            if self.entries[index].0.as_str().eq(key) {
                return Some(index);
            }
            index += 1;
        }
        None
    }

    /// The login under `key`.
    pub fn get(&self, key: &str) -> (found: Option<&ActiveQrLogin>)
        requires
            self.wf(),
        ensures
            match found {
                Some(session) => self@.contains_key(key@) && session@ == self@[key@],
                None => !self@.contains_key(key@),
            },
    {
        match self.find(key) {
            Some(index) => {
                proof {
                    self.lemma_entries();
                }
                Some(&self.entries[index].1)
            },
            None => None,
        }
    }

    /// Puts `session` under `key`, in place of what stood there.
    pub fn insert(&mut self, key: String, session: ActiveQrLogin)
        requires
            old(self).wf(),
        ensures
            final(self).wf(),
            final(self)@ == old(self)@.insert(key@, session@),
    {
        proof {
            old(self).lemma_entries();
        }
        let ghost map = old(self)@.insert(key@, session@);
        let found = self.find(key.as_str());
        match found {
            Some(index) => {
                self.entries.set(index, (key, session));
                assert forall|other: Seq<char>| #[trigger] map.contains_key(other) implies exists|
                    at: int,
                | self.holds_at(at, other) by {
                    let at = if other == key@ {
                        index as int
                    } else {
                        old(self).position(other)
                    };
                    assert(old(self).holds_at(at, other));
                    assert(self.holds_at(at, other));
                }
                assert forall|at: int| 0 <= at < self.entries@.len() implies map.contains_key(
                    (#[trigger] self.entries@[at]).0@,
                ) && map[self.entries@[at].0@] == self.entries@[at].1@ by {
                    assert(old(self).holds_at(at, old(self).entries@[at].0@));
                }
            },
            None => {
                self.entries.push((key, session));
                assert forall|other: Seq<char>| #[trigger] map.contains_key(other) implies exists|
                    at: int,
                | self.holds_at(at, other) by {
                    let at = if other == key@ {
                        self.entries@.len() - 1
                    } else {
                        old(self).position(other)
                    };
                    assert(self.holds_at(at, other));
                }
                assert forall|at: int| 0 <= at < self.entries@.len() implies map.contains_key(
                    (#[trigger] self.entries@[at]).0@,
                ) && map[self.entries@[at].0@] == self.entries@[at].1@ by {
                    if at < self.entries@.len() - 1 {
                        assert(old(self).holds_at(at, old(self).entries@[at].0@));
                    }
                }
                assert forall|i: int, j: int| 0 <= i < j < self.entries@.len() implies (
                #[trigger] self.entries@[i]).0@ != (#[trigger] self.entries@[j]).0@ by {
                    assert(old(self).holds_at(i, old(self).entries@[i].0@));
                }
            },
        }
        proof {
            self.lemma_view_is(map);
        }
    }

    /// Takes away what stands under `key`, if anything does.
    pub fn remove(&mut self, key: &str)
        requires
            old(self).wf(),
        ensures
            final(self).wf(),
            final(self)@ == old(self)@.remove(key@),
    {
        let found = self.find(key);
        match found {
            Some(index) => {
                let _ = self.entries.remove(index);
                proof {
                    old(self).lemma_removed(*self, index as int);
                }
            },
            None => {
                assert(old(self)@.remove(key@) =~= old(self)@);
            },
        }
    }

    /// Gives the login under `key`, if there is one, another server.
    pub fn redirect(&mut self, key: &str, api_base_url: String)
        requires
            old(self).wf(),
        ensures
            final(self).wf(),
            final(self)@ == redirected(old(self)@, key@, api_base_url@),
    {
        let moved = match self.get(key) {
            Some(session) => {
                let mut moved = session.clone();
                moved.current_api_base_url = api_base_url;
                moved
            },
            None => {
                return ;
            },
        };
        self.insert(key.to_owned(), moved);
    }

    /// Takes away the logins that have expired by `now` and keeps the others.
    pub fn purge_at(&mut self, now: u64)
        requires
            old(self).wf(),
        ensures
            final(self).wf(),
            final(self)@ == unexpired(old(self)@, now),
    {
        let ghost before = self@;
        let mut index: usize = 0;
        while index < self.entries.len()
            invariant
                self.wf(),
                index <= self.entries@.len(),
                forall|key: Seq<char>| #[trigger]
                    self@.contains_key(key) ==> before.contains_key(key) && self@[key]
                        == before[key],
                forall|key: Seq<char>| #[trigger]
                    before.contains_key(key) && !self@.contains_key(key) ==> before[key].expired(
                        now,
                    ),
                forall|at: int|
                    0 <= at < index ==> !(#[trigger] self.entries@[at]).1@.expired(now),
            decreases self.entries@.len() - index,
        {
            proof {
                self.lemma_entries();
                assert(self.holds_at(index as int, self.entries@[index as int].0@));
            }
            if self.entries[index].1.expired(now) {
                let ghost whole = *self;
                let _ = self.entries.remove(index);
                proof {
                    whole.lemma_removed(*self, index as int);
                }
            } else {
                index += 1;
            }
        }
        proof {
            self.lemma_entries();
            assert(self@ =~= unexpired(before, now));
        }
    }
}

/// Takes away the logins that have expired by now.
pub fn purge_expired_qr_sessions(sessions: &mut QrSessions)
    requires
        old(sessions).wf(),
    ensures
        final(sessions).wf(),
        exists|now: u64| final(sessions)@ == #[trigger] unexpired(old(sessions)@, now),
{
    let now = now_ms();
    sessions.purge_at(now);
}

} // verus!
