use vstd::prelude::*;
use vstd::string::*;

use crate::error::AuthError;

verus! {

/// No two entries carry the same name.
pub open spec fn names_unique<H>(s: Seq<(Seq<char>, H)>) -> bool {
    forall|a: int, b: int|
        0 <= a < s.len() && 0 <= b < s.len() && a != b ==> #[trigger] s[a].0 != #[trigger] s[b].0
}

/// Some entry carries `name`.
pub open spec fn has_name<H>(s: Seq<(Seq<char>, H)>, name: Seq<char>) -> bool {
    exists|i: int| 0 <= i < s.len() && #[trigger] s[i].0 == name
}

/// The position of the entry that carries `name`.
pub open spec fn index_of<H>(s: Seq<(Seq<char>, H)>, name: Seq<char>) -> int {
    choose|i: int| 0 <= i < s.len() && #[trigger] s[i].0 == name
}

/// The entries after starting `name` with `h`: a name that is already live
/// is refused and nothing changes.
pub open spec fn after_insert<H>(s: Seq<(Seq<char>, H)>, name: Seq<char>, h: H) -> Seq<
    (Seq<char>, H),
> {
    if has_name(s, name) {
        s
    } else {
        s.push((name, h))
    }
}

/// The entries after stopping `name`: its entry, if any, is gone.
pub open spec fn after_remove<H>(s: Seq<(Seq<char>, H)>, name: Seq<char>) -> Seq<(Seq<char>, H)> {
    if has_name(s, name) {
        s.remove(index_of(s, name))
    } else {
        s
    }
}

/// The live sessions, each a name with its handle (a listener task, or a
/// pending authorizer), at most one per name.
#[derive(Debug)]
pub struct AuthorizerThreadsState<H> {
    entries: Vec<(String, H)>,
}

impl<H> AuthorizerThreadsState<H> {
    /// The live sessions, in the order they were started.
    pub closed spec fn sessions(&self) -> Seq<(Seq<char>, H)> {
        self.entries@.map_values(|e: (String, H)| (e.0@, e.1))
    }

    pub open spec fn wf(&self) -> bool {
        names_unique(self.sessions())
    }

    /// An empty registry.
    pub fn new() -> (r: Self)
        ensures
            r.wf(),
            r.sessions() == Seq::<(Seq<char>, H)>::empty(),
    {
        let r = AuthorizerThreadsState { entries: Vec::new() };
        proof {
            assert(r.sessions() =~= Seq::<(Seq<char>, H)>::empty());
        }
        r
    }

    fn position(&self, name: &str) -> (r: Option<usize>)
        requires
            self.wf(),
        ensures
            r is None ==> !has_name(self.sessions(), name@),
            r matches Some(i) ==> i < self.sessions().len() && self.sessions()[i as int].0 == name@
                && index_of(self.sessions(), name@) == i,
    {
        let ghost s = self.sessions();
        let wanted = String::from_str(name);
        let mut i: usize = 0;
        while i < self.entries.len()
            invariant
                s == self.sessions(),
                names_unique(s),
                s.len() == self.entries@.len(),
                wanted@ == name@,
                i <= self.entries@.len(),
                forall|j: int| 0 <= j < i ==> s[j].0 != name@,
            decreases self.entries@.len() - i,
        {
            if self.entries[i].0 == wanted {
                proof {
                    assert(s[i as int] == (self.entries@[i as int].0@, self.entries@[i as int].1));
                    assert(s[i as int].0 == name@);
                    assert(has_name(s, name@));
                    let k = index_of(s, name@);
                    assert(s[k].0 == name@);
                    if k != i {
                        assert(s[k].0 != s[i as int].0);
                    }
                }
                return Some(i);
            }
            i = i + 1;
        }
        None
    }

    /// Whether a session of that name is live.
    pub fn contains(&self, name: &str) -> (r: bool)
        requires
            self.wf(),
        ensures
            r == has_name(self.sessions(), name@),
    {
        self.position(name).is_some()
    }

    /// The number of live sessions.
    pub fn len(&self) -> (r: usize)
        ensures
            r == self.sessions().len(),
    {
        self.entries.len()
    }

    /// Records a started session under `name`. A name that is already live is
    /// refused: the handle comes back to be torn down, and the registry is
    /// left as it was.
    pub fn insert(&mut self, name: String, handle: H) -> (r: Result<(), H>)
        requires
            old(self).wf(),
        ensures
            final(self).wf(),
            final(self).sessions() == after_insert(old(self).sessions(), name@, handle),
            has_name(old(self).sessions(), name@) ==> r == Err::<(), H>(handle),
            !has_name(old(self).sessions(), name@) ==> r is Ok,
    {
        if self.contains(name.as_str()) {
            return Err(handle);
        }
        let ghost s = self.sessions();
        self.entries.push((name, handle));
        proof {
            assert(self.sessions() =~= s.push((name@, handle)));
        }
        Ok(())
    }

    /// Takes the session `name` out of the registry and hands back its
    /// handle; stopping a name that is not live changes nothing.
    pub fn remove(&mut self, name: &str) -> (r: Option<H>)
        requires
            old(self).wf(),
        ensures
            final(self).wf(),
            final(self).sessions() == after_remove(old(self).sessions(), name@),
            !has_name(final(self).sessions(), name@),
            has_name(old(self).sessions(), name@) ==> r == Some(
                old(self).sessions()[index_of(old(self).sessions(), name@)].1,
            ),
            !has_name(old(self).sessions(), name@) ==> r is None,
    {
        let ghost s = self.sessions();
        match self.position(name) {
            None => None,
            Some(i) => {
                let (_, h) = self.entries.remove(i);
                proof {
                    assert(self.sessions() =~= s.remove(i as int));
                    lemma_remove_keeps_unique(s, i as int);
                }
                Some(h)
            },
        }
    }

    /// Takes the pending session `name` out of the registry; fails with
    /// `NotFound` where no such session is live.
    pub fn take(&mut self, name: &str) -> (r: Result<H, AuthError>)
        requires
            old(self).wf(),
        ensures
            final(self).wf(),
            final(self).sessions() == after_remove(old(self).sessions(), name@),
            has_name(old(self).sessions(), name@) ==> r == Ok::<H, AuthError>(
                old(self).sessions()[index_of(old(self).sessions(), name@)].1,
            ),
            !has_name(old(self).sessions(), name@) ==> r == Err::<H, AuthError>(
                AuthError::NotFound,
            ),
    {
        match self.remove(name) {
            Some(h) => Ok(h),
            None => Err(AuthError::NotFound),
        }
    }
}

proof fn lemma_remove_keeps_unique<H>(s: Seq<(Seq<char>, H)>, i: int)
    requires
        names_unique(s),
        0 <= i < s.len(),
    ensures
        names_unique(s.remove(i)),
        !has_name(s.remove(i), s[i].0),
{
    let t = s.remove(i);
    assert forall|a: int, b: int| 0 <= a < t.len() && 0 <= b < t.len() && a != b implies #[trigger] t[a].0
        != #[trigger] t[b].0 by {
        let a0 = if a < i { a } else { a + 1 };
        let b0 = if b < i { b } else { b + 1 };
        assert(t[a] == s[a0]);
        assert(t[b] == s[b0]);
    }
    assert forall|k: int| 0 <= k < t.len() implies #[trigger] t[k].0 != s[i].0 by {
        let k0 = if k < i { k } else { k + 1 };
        assert(t[k] == s[k0]);
    }
}

/// Starting a name twice: the second start is refused and the registry keeps
/// the first session, whatever the second one's handle.
pub proof fn lemma_duplicate_start_refused<H>(s: Seq<(Seq<char>, H)>, name: Seq<char>, h1: H, h2: H)
    requires
        names_unique(s),
    ensures
        has_name(after_insert(s, name, h1), name),
        after_insert(after_insert(s, name, h1), name, h2) == after_insert(s, name, h1),
{
    if !has_name(s, name) {
        let t = s.push((name, h1));
        assert(t[s.len() as int].0 == name);
    }
}

/// Once a name is stopped it can be started afresh, and the new session is
/// the one registered under it.
pub proof fn lemma_restart_after_stop<H>(s: Seq<(Seq<char>, H)>, name: Seq<char>, h: H)
    requires
        names_unique(s),
    ensures
        !has_name(after_remove(s, name), name),
        after_insert(after_remove(s, name), name, h) == after_remove(s, name).push((name, h)),
{
    if has_name(s, name) {
        let i = index_of(s, name);
        lemma_remove_keeps_unique(s, i);
    }
}

/// Stopping is idempotent: stopping a name that is not live, or stopping it
/// a second time, changes nothing.
pub proof fn lemma_stop_idempotent<H>(s: Seq<(Seq<char>, H)>, name: Seq<char>)
    requires
        names_unique(s),
    ensures
        !has_name(s, name) ==> after_remove(s, name) == s,
        after_remove(after_remove(s, name), name) == after_remove(s, name),
{
    lemma_restart_after_stop(s, name, arbitrary());
}

} // verus!
