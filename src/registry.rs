use vstd::prelude::*;

use crate::config::SessionConfig;
use crate::error::SessionError;

verus! {

/// True when a session named `name` may be created in the registry `m`.
pub open spec fn admits<H>(m: Map<Seq<char>, H>, name: Seq<char>) -> bool {
    !m.contains_key(name)
}

/// The registry after a create of `name` has completed with the connection `h`:
/// the later insert wins.
pub open spec fn after_create<H>(m: Map<Seq<char>, H>, name: Seq<char>, h: H) -> Map<Seq<char>, H> {
    m.insert(name, h)
}

/// The process-wide mapping from session name to session handle.
///
/// Names are unique: the registry is a map from the characters of a name to
/// one handle.
pub struct Registry<H> {
    entries: Vec<(String, H)>,
    model: Ghost<Map<Seq<char>, H>>,
}

impl<H> View for Registry<H> {
    type V = Map<Seq<char>, H>;

    closed spec fn view(&self) -> Map<Seq<char>, H> {
        self.model@
    }
}

impl<H> Registry<H> {
    /// The entries hold each name once, and the model maps exactly those names
    /// to their handles.
    pub closed spec fn wf(&self) -> bool {
        &&& forall|i: int, j: int|
            0 <= i < j < self.entries@.len() ==> self.entries@[i].0@ != self.entries@[j].0@
        &&& forall|i: int|
            0 <= i < self.entries@.len() ==> #[trigger] self.model@.contains_key(
                self.entries@[i].0@,
            ) && self.model@[self.entries@[i].0@] == self.entries@[i].1
        &&& forall|k: Seq<char>|
            #[trigger] self.model@.contains_key(k) ==> exists|i: int|
                0 <= i < self.entries@.len() && self.entries@[i].0@ == k
    }

    /// An empty registry.
    pub fn new() -> (r: Self)
        ensures
            r.wf(),
            r@ == Map::<Seq<char>, H>::empty(),
    {
        Registry { entries: Vec::new(), model: Ghost(Map::empty()) }
    }

    fn find(&self, name: &String) -> (r: Option<usize>)
        requires
            self.wf(),
        ensures
            match r {
                Some(i) => i < self.entries@.len() && self.entries@[i as int].0@ == name@,
                None => !self@.contains_key(name@),
            },
    {
        let mut i: usize = 0;
        while i < self.entries.len()
            invariant
                self.wf(),
                i <= self.entries@.len(),
                forall|j: int| 0 <= j < i ==> self.entries@[j].0@ != name@,
            decreases self.entries@.len() - i,
        {
            if self.entries[i].0 == *name {
                return Some(i);
            }
            i = i + 1;
        }
        None
    }

    /// Whether a session named `name` is registered.
    pub fn contains(&self, name: &String) -> (r: bool)
        requires
            self.wf(),
        ensures
            r == self@.contains_key(name@),
    {
        match self.find(name) {
            Some(i) => {
                assert(self@.contains_key(self.entries@[i as int].0@));
                true
            },
            None => false,
        }
    }

    /// The check made before a session is connected: it fails with
    /// `DuplicateSession` exactly when the name is taken.
    pub fn check_available(&self, name: &String) -> (r: Result<(), SessionError>)
        requires
            self.wf(),
        ensures
            r is Ok <==> admits(self@, name@),
            r is Err ==> r == Err::<(), SessionError>(SessionError::DuplicateSession(*name)),
    {
        if self.contains(name) {
            Err(SessionError::DuplicateSession(name.clone()))
        } else {
            Ok(())
        }
    }

    /// Registers `handle` under `name`, replacing and returning the handle that
    /// was there.
    pub fn insert(&mut self, name: String, handle: H) -> (r: Option<H>)
        requires
            old(self).wf(),
        ensures
            final(self).wf(),
            final(self)@ == old(self)@.insert(name@, handle),
            r == (if old(self)@.contains_key(name@) {
                Some(old(self)@[name@])
            } else {
                None::<H>
            }),
    {
        let displaced = self.remove(&name);
        let ghost before = self.entries@;
        self.entries.push((name, handle));
        self.model = Ghost(self.model@.insert(name@, handle));
        proof {
            let n = before.len() as int;
            assert forall|i: int| 0 <= i < n implies before[i].0@ != name@ by {
                assert(self.model@.contains_key(before[i].0@));
            }
            assert forall|a: int, b: int|
                0 <= a < b < self.entries@.len() implies self.entries@[a].0@
                != self.entries@[b].0@ by {
                assert(self.entries@[a] == before[a]);
                if b < n {
                    assert(self.entries@[b] == before[b]);
                }
            }
            assert forall|i: int| 0 <= i < self.entries@.len() implies #[trigger] self.model@.contains_key(
                self.entries@[i].0@,
            ) && self.model@[self.entries@[i].0@] == self.entries@[i].1 by {
                if i < n {
                    assert(self.entries@[i] == before[i]);
                }
            }
            assert forall|k: Seq<char>| #[trigger] self.model@.contains_key(k) implies exists|i: int|
                0 <= i < self.entries@.len() && self.entries@[i].0@ == k by {
                if k == name@ {
                    assert(self.entries@[n].0@ == k);
                } else {
                    let i = choose|i: int| 0 <= i < before.len() && before[i].0@ == k;
                    assert(self.entries@[i] == before[i]);
                }
            }
        }
        displaced
    }

    /// Removes the session named `name`, handing back its handle if it was there.
    pub fn remove(&mut self, name: &String) -> (r: Option<H>)
        requires
            old(self).wf(),
        ensures
            final(self).wf(),
            final(self)@ == old(self)@.remove(name@),
            r == (if old(self)@.contains_key(name@) {
                Some(old(self)@[name@])
            } else {
                None::<H>
            }),
    {
        match self.find(name) {
            None => {
                assert(self.model@.remove(name@) =~= self.model@);
                None
            },
            Some(i) => {
                let ghost before = self.entries@;
                let ghost m = self.model@;
                let entry = self.entries.remove(i);
                self.model = Ghost(m.remove(name@));
                proof {
                    let ii = i as int;
                    assert(entry == before[ii]);
                    assert forall|a: int, b: int|
                        0 <= a < b < self.entries@.len() implies self.entries@[a].0@
                        != self.entries@[b].0@ by {
                        let a0 = if a < ii { a } else { a + 1 };
                        let b0 = if b < ii { b } else { b + 1 };
                        assert(self.entries@[a] == before[a0]);
                        assert(self.entries@[b] == before[b0]);
                    }
                    assert forall|j: int| 0 <= j < self.entries@.len() implies #[trigger] self.model@.contains_key(
                        self.entries@[j].0@,
                    ) && self.model@[self.entries@[j].0@] == self.entries@[j].1 by {
                        let j0 = if j < ii { j } else { j + 1 };
                        assert(self.entries@[j] == before[j0]);
                        assert(j0 != ii);
                        assert(m.contains_key(before[j0].0@));
                    }
                    assert forall|k: Seq<char>| #[trigger] self.model@.contains_key(k) implies exists|j: int|
                        0 <= j < self.entries@.len() && self.entries@[j].0@ == k by {
                        let j0 = choose|j0: int| 0 <= j0 < before.len() && before[j0].0@ == k;
                        assert(j0 != ii);
                        let j = if j0 < ii { j0 } else { j0 - 1 };
                        assert(self.entries@[j] == before[j0]);
                    }
                }
                Some(entry.1)
            },
        }
    }

    /// The handle of the session named `name`, or `SessionNotFound`.
    pub fn lookup(&self, name: &String) -> (r: Result<&H, SessionError>)
        requires
            self.wf(),
        ensures
            self@.contains_key(name@) ==> r is Ok && *r->Ok_0 == self@[name@],
            !self@.contains_key(name@) ==> r is Err && r->Err_0 == SessionError::SessionNotFound(
                *name,
            ),
    {
        match self.find(name) {
            Some(i) => Ok(&self.entries[i].1),
            None => Err(SessionError::SessionNotFound(name.clone())),
        }
    }

    /// Drops every entry, as done when the process is about to exit.
    pub fn clear(&mut self)
        requires
            old(self).wf(),
        ensures
            final(self).wf(),
            final(self)@ == Map::<Seq<char>, H>::empty(),
    {
        self.entries.clear();
        self.model = Ghost(Map::empty());
    }

    /// Completes a create whose connection attempt gave `connected`: on success
    /// the session is registered under the configured name (a later create of
    /// the same name replaces it) and the configuration is returned; on failure
    /// the registry is left as it was.
    pub fn complete_create(&mut self, config: SessionConfig, connected: Result<H, String>) -> (r:
        Result<SessionConfig, SessionError>)
        requires
            old(self).wf(),
        ensures
            final(self).wf(),
            match connected {
                Ok(h) => final(self)@ == after_create(old(self)@, config.name@, h) && r == Ok::<
                    SessionConfig,
                    SessionError,
                >(config),
                Err(why) => final(self)@ == old(self)@ && r == Err::<SessionConfig, SessionError>(
                    SessionError::ConnectionFailure(why),
                ),
            },
    {
        match connected {
            Ok(h) => {
                let name = config.name.clone();
                let _ = self.insert(name, h);
                Ok(config)
            },
            Err(why) => Err(SessionError::ConnectionFailure(why)),
        }
    }
}

/// Once a create of `name` has completed, a second create of the same name is
/// refused as a duplicate, and two completed creates of one name leave exactly
/// one entry for it: the later connection.
pub proof fn lemma_one_session_per_name<H>(m: Map<Seq<char>, H>, name: Seq<char>, h1: H, h2: H)
    ensures
        !admits(after_create(m, name, h1), name),
        after_create(after_create(m, name, h1), name, h2) == after_create(m, name, h2),
        after_create(after_create(m, name, h1), name, h2)[name] == h2,
{
    assert(after_create(after_create(m, name, h1), name, h2) =~= after_create(m, name, h2));
}

} // verus!
