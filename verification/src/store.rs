//! An in-memory model of the relational store: the four row sets, each
//! keyed as the schema keys them, with the key-uniqueness invariants the
//! operations preserve.
//!
//! The library's operations read and mutate this state; a driver that
//! persists rows elsewhere mirrors exactly these transitions.

use vstd::prelude::*;
use crate::ids::Uid;
use crate::mounts::Mount;
use crate::mounts::MountV;
use crate::mounts::RepoJob;
use crate::mounts::RepoJobV;
use crate::mounts::job_wf;
use crate::mounts::mount_ok;
use crate::users::Session;
use crate::users::User;
use crate::users::UserV;

verus! {

/// The view of a row list.
pub open spec fn mount_views(ms: Seq<Mount>) -> Seq<MountV> {
    ms.map_values(|m: Mount| m@)
}

/// The view of a job list.
pub open spec fn job_views(js: Seq<RepoJob>) -> Seq<RepoJobV> {
    js.map_values(|j: RepoJob| j@)
}

/// The view of a user list.
pub open spec fn user_views(us: Seq<User>) -> Seq<UserV> {
    us.map_values(|u: User| u@)
}

/// No two volumes share an `(owner, name)` pair.
pub open spec fn mounts_unique(ms: Seq<MountV>) -> bool {
    forall|i: int, j: int|
        0 <= i < j < ms.len() ==> !((#[trigger] ms[i]).owned_by == (#[trigger] ms[j]).owned_by
            && ms[i].mount_name == ms[j].mount_name)
}

/// No two users share a name.
pub open spec fn users_unique(us: Seq<UserV>) -> bool {
    forall|i: int, j: int|
        0 <= i < j < us.len() ==> (#[trigger] us[i]).user_name != (#[trigger] us[j]).user_name
}

/// No two jobs share an identifier.
pub open spec fn jobs_unique(js: Seq<RepoJobV>) -> bool {
    forall|i: int, j: int|
        0 <= i < j < js.len() ==> (#[trigger] js[i]).id != (#[trigger] js[j]).id
}

/// No two sessions share an identifier.
pub open spec fn sessions_unique(ss: Seq<Session>) -> bool {
    forall|i: int, j: int|
        0 <= i < j < ss.len() ==> (#[trigger] ss[i]).id != (#[trigger] ss[j]).id
}

/// The store: every entity row set the operations touch.
pub struct Store {
    pub users: Vec<User>,
    pub sessions: Vec<Session>,
    pub mounts: Vec<Mount>,
    pub repo_jobs: Vec<RepoJob>,
}

/// The store's invariant: keys unique in every row set, and every job
/// record well-formed.
pub open spec fn store_wf(s: Store) -> bool {
    &&& mounts_unique(mount_views(s.mounts@))
    &&& users_unique(user_views(s.users@))
    &&& jobs_unique(job_views(s.repo_jobs@))
    &&& sessions_unique(s.sessions@)
    &&& forall|i: int| 0 <= i < s.repo_jobs@.len() ==> job_wf((#[trigger] s.repo_jobs@[i])@)
    &&& forall|i: int| 0 <= i < s.mounts@.len() ==> mount_ok((#[trigger] s.mounts@[i])@)
}

/// The volumes of `ms` owned by `owner`, in order.
pub open spec fn owned_filter(ms: Seq<MountV>, owner: Seq<char>) -> Seq<MountV>
    decreases ms.len(),
{
    if ms.len() == 0 {
        Seq::empty()
    } else if ms.last().owned_by == owner {
        owned_filter(ms.drop_last(), owner).push(ms.last())
    } else {
        owned_filter(ms.drop_last(), owner)
    }
}

/// In any well-formed store, no two volumes share an `(owner, name)`
/// pair: a provision of a taken key can never appear beside the original,
/// only replace-style operations on the one row are possible.
pub proof fn lemma_store_mount_keys_unique(s: Store, i: int, j: int)
    requires
        store_wf(s),
        0 <= i < j < s.mounts@.len(),
    ensures
        !((s.mounts@[i])@.owned_by == (s.mounts@[j])@.owned_by && (s.mounts@[i])@.mount_name
            == (s.mounts@[j])@.mount_name),
{
    assert(mount_views(s.mounts@)[i] == (s.mounts@[i])@);
    assert(mount_views(s.mounts@)[j] == (s.mounts@[j])@);
}

/// In any well-formed store, a job record carries an end timestamp exactly
/// when it is terminal: a `Running` job never shows an end time, and a
/// finished one always does.
pub proof fn lemma_job_end_iff_terminal(s: Store, i: int)
    requires
        store_wf(s),
        0 <= i < s.repo_jobs@.len(),
    ensures
        (s.repo_jobs@[i])@.end_date is Some <==> crate::mounts::job_terminal(
            (s.repo_jobs@[i])@.job_status,
        ),
{
}

/// Every volume an owner filter keeps is well-formed when the source rows
/// all are.
pub proof fn lemma_owned_filter_ok(ms: Seq<MountV>, owner: Seq<char>)
    requires
        forall|i: int| 0 <= i < ms.len() ==> mount_ok(#[trigger] ms[i]),
    ensures
        forall|i: int|
            0 <= i < owned_filter(ms, owner).len() ==> mount_ok(
                #[trigger] owned_filter(ms, owner)[i],
            ),
    decreases ms.len(),
{
    if ms.len() > 0 {
        let pre = ms.drop_last();
        assert(forall|i: int| 0 <= i < pre.len() ==> mount_ok(#[trigger] pre[i]));
        lemma_owned_filter_ok(pre, owner);
        let res = owned_filter(ms, owner);
        let prerec = owned_filter(pre, owner);
        assert forall|i: int| 0 <= i < res.len() implies mount_ok(#[trigger] res[i]) by {
            if ms.last().owned_by == owner {
                assert(res == prerec.push(ms.last()));
                if i < prerec.len() {
                    assert(res[i] == prerec[i]);
                } else {
                    assert(res[i] == ms.last());
                    assert(mount_ok(ms.last()));
                }
            } else {
                assert(res == prerec);
                assert(res[i] == prerec[i]);
            }
        }
    }
}

/// The jobs of `js` recorded against volume `(owner, name)`, in order.
pub open spec fn jobs_filter(js: Seq<RepoJobV>, owner: Seq<char>, name: Seq<char>) -> Seq<
    RepoJobV,
>
    decreases js.len(),
{
    if js.len() == 0 {
        Seq::empty()
    } else if js.last().point_owned_by == owner && js.last().point_name == name {
        jobs_filter(js.drop_last(), owner, name).push(js.last())
    } else {
        jobs_filter(js.drop_last(), owner, name)
    }
}

impl Store {
    /// An empty store (well-formed by construction).
    pub fn new() -> (r: Store)
        ensures
            store_wf(r),
            r.users@.len() == 0,
            r.sessions@.len() == 0,
            r.mounts@.len() == 0,
            r.repo_jobs@.len() == 0,
    {
        Store { users: Vec::new(), sessions: Vec::new(), mounts: Vec::new(), repo_jobs: Vec::new() }
    }

    /// Index of the volume keyed `(owner, name)`, if present.
    pub fn find_mount_idx(&self, owner: &str, name: &str) -> (r: Option<usize>)
        ensures
            r matches Some(i) ==> i < self.mounts@.len() && (self.mounts@[i as int])@.owned_by
                == owner@ && (self.mounts@[i as int])@.mount_name == name@,
            r is None ==> forall|i: int|
                0 <= i < self.mounts@.len() ==> !((#[trigger] self.mounts@[i])@.owned_by == owner@
                    && self.mounts@[i]@.mount_name == name@),
    {
        let n = self.mounts.len();
        let mut k: usize = 0;
        while k < n
            invariant
                k <= n,
                n == self.mounts@.len(),
                forall|i: int|
                    0 <= i < k ==> !((#[trigger] self.mounts@[i])@.owned_by == owner@
                        && self.mounts@[i]@.mount_name == name@),
            decreases n - k,
        {
            if crate::strutil::str_eq(self.mounts[k].owned_by.as_str(), owner) && crate::strutil::str_eq(
                self.mounts[k].mount_name.as_str(),
                name,
            ) {
                return Some(k);
            }
            k += 1;
        }
        None
    }

    /// Copies of the volumes owned by `owner`, in store order.
    pub fn mounts_for_user(&self, owner: &str) -> (r: Vec<Mount>)
        ensures
            mount_views(r@) == owned_filter(mount_views(self.mounts@), owner@),
    {
        let ghost vs = mount_views(self.mounts@);
        let n = self.mounts.len();
        let mut out: Vec<Mount> = Vec::new();
        let mut k: usize = 0;
        proof {
            assert(vs.take(0) =~= Seq::<MountV>::empty());
            assert(mount_views(out@) =~= Seq::<MountV>::empty());
        }
        while k < n
            invariant
                k <= n,
                n == self.mounts@.len(),
                vs == mount_views(self.mounts@),
                mount_views(out@) == owned_filter(vs.take(k as int), owner@),
            decreases n - k,
        {
            proof {
                assert(vs.take(k + 1).drop_last() =~= vs.take(k as int));
                assert(vs.take(k + 1).last() == (self.mounts@[k as int])@);
            }
            if crate::strutil::str_eq(self.mounts[k].owned_by.as_str(), owner) {
                let d = self.mounts[k].duplicate();
                proof {
                    assert(mount_views(out@.push(d)) =~= mount_views(out@).push(d@));
                }
                out.push(d);
            }
            k += 1;
        }
        proof {
            assert(vs.take(n as int) =~= vs);
        }
        out
    }

    /// Inserts a well-formed volume whose key is not yet taken.
    pub fn insert_mount(&mut self, m: Mount)
        requires
            store_wf(*old(self)),
            mount_ok(m@),
            forall|i: int|
                0 <= i < old(self).mounts@.len() ==> !((#[trigger] old(
                    self,
                ).mounts@[i])@.owned_by == m@.owned_by && old(self).mounts@[i]@.mount_name
                    == m@.mount_name),
        ensures
            store_wf(*final(self)),
            final(self).mounts@ == old(self).mounts@.push(m),
            final(self).users@ == old(self).users@,
            final(self).sessions@ == old(self).sessions@,
            final(self).repo_jobs@ == old(self).repo_jobs@,
    {
        proof {
            let ghost vs = mount_views(self.mounts@);
            assert(mount_views(self.mounts@.push(m)) =~= vs.push(m@));
        }
        self.mounts.push(m);
    }

    /// Replaces the volume at `i` by a well-formed one carrying the same
    /// key.
    pub fn update_mount_at(&mut self, i: usize, m: Mount)
        requires
            store_wf(*old(self)),
            i < old(self).mounts@.len(),
            mount_ok(m@),
            m@.owned_by == (old(self).mounts@[i as int])@.owned_by,
            m@.mount_name == (old(self).mounts@[i as int])@.mount_name,
        ensures
            store_wf(*final(self)),
            final(self).mounts@ == old(self).mounts@.update(i as int, m),
            final(self).users@ == old(self).users@,
            final(self).sessions@ == old(self).sessions@,
            final(self).repo_jobs@ == old(self).repo_jobs@,
    {
        proof {
            let ghost vs = mount_views(self.mounts@);
            let ghost ws = vs.update(i as int, m@);
            assert(mount_views(self.mounts@.update(i as int, m)) =~= ws);
            assert forall|a: int, b: int| 0 <= a < b < ws.len() implies !((
            #[trigger] ws[a]).owned_by == (#[trigger] ws[b]).owned_by && ws[a].mount_name
                == ws[b].mount_name) by {
                assert(vs[a].owned_by != vs[b].owned_by || vs[a].mount_name != vs[b].mount_name);
                assert(ws[a] == if a == i {
                    m@
                } else {
                    vs[a]
                });
                assert(ws[b] == if b == i {
                    m@
                } else {
                    vs[b]
                });
            }
        }
        self.mounts.set(i, m);
    }

    /// Removes the volume at `i`.
    pub fn remove_mount_at(&mut self, i: usize) -> (r: Mount)
        requires
            store_wf(*old(self)),
            i < old(self).mounts@.len(),
        ensures
            store_wf(*final(self)),
            r == old(self).mounts@[i as int],
            final(self).mounts@ == old(self).mounts@.remove(i as int),
            final(self).users@ == old(self).users@,
            final(self).sessions@ == old(self).sessions@,
            final(self).repo_jobs@ == old(self).repo_jobs@,
    {
        proof {
            let ghost vs = mount_views(self.mounts@);
            assert(mount_views(self.mounts@.remove(i as int)) =~= vs.remove(i as int));
            assert forall|a: int, b: int| 0 <= a < b < vs.remove(i as int).len() implies !((
            #[trigger] vs.remove(i as int)[a]).owned_by == (#[trigger] vs.remove(
                i as int,
            )[b]).owned_by && vs.remove(i as int)[a].mount_name == vs.remove(
                i as int,
            )[b].mount_name) by {
                let a0 = if a < i { a } else { a + 1 };
                let b0 = if b < i { b } else { b + 1 };
                assert(vs.remove(i as int)[a] == vs[a0]);
                assert(vs.remove(i as int)[b] == vs[b0]);
            }
        }
        self.mounts.remove(i)
    }

    /// Index of the user named `name`, if present.
    pub fn find_user_idx(&self, name: &str) -> (r: Option<usize>)
        ensures
            r matches Some(i) ==> i < self.users@.len() && (self.users@[i as int])@.user_name
                == name@,
            r is None ==> forall|i: int|
                0 <= i < self.users@.len() ==> (#[trigger] self.users@[i])@.user_name != name@,
    {
        let n = self.users.len();
        let mut k: usize = 0;
        while k < n
            invariant
                k <= n,
                n == self.users@.len(),
                forall|i: int| 0 <= i < k ==> (#[trigger] self.users@[i])@.user_name != name@,
            decreases n - k,
        {
            if crate::strutil::str_eq(self.users[k].user_name.as_str(), name) {
                return Some(k);
            }
            k += 1;
        }
        None
    }

    /// Inserts a user whose name is not yet taken.
    pub fn insert_user(&mut self, u: User)
        requires
            store_wf(*old(self)),
            forall|i: int|
                0 <= i < old(self).users@.len() ==> (#[trigger] old(self).users@[i])@.user_name
                    != u@.user_name,
        ensures
            store_wf(*final(self)),
            final(self).users@ == old(self).users@.push(u),
            final(self).mounts@ == old(self).mounts@,
            final(self).sessions@ == old(self).sessions@,
            final(self).repo_jobs@ == old(self).repo_jobs@,
    {
        proof {
            let ghost vs = user_views(self.users@);
            assert(user_views(self.users@.push(u)) =~= vs.push(u@));
        }
        self.users.push(u);
    }

    /// Replaces the user at `i` by one carrying the same name.
    pub fn update_user_at(&mut self, i: usize, u: User)
        requires
            store_wf(*old(self)),
            i < old(self).users@.len(),
            u@.user_name == (old(self).users@[i as int])@.user_name,
        ensures
            store_wf(*final(self)),
            final(self).users@ == old(self).users@.update(i as int, u),
            final(self).mounts@ == old(self).mounts@,
            final(self).sessions@ == old(self).sessions@,
            final(self).repo_jobs@ == old(self).repo_jobs@,
    {
        proof {
            let ghost vs = user_views(self.users@);
            let ghost ws = vs.update(i as int, u@);
            assert(user_views(self.users@.update(i as int, u)) =~= ws);
            assert forall|a: int, b: int| 0 <= a < b < ws.len() implies (#[trigger] ws[a]).user_name
                != (#[trigger] ws[b]).user_name by {
                assert(vs[a].user_name != vs[b].user_name);
                assert(ws[a] == if a == i {
                    u@
                } else {
                    vs[a]
                });
                assert(ws[b] == if b == i {
                    u@
                } else {
                    vs[b]
                });
            }
        }
        self.users.set(i, u);
    }

    /// Removes the user at `i`.
    pub fn remove_user_at(&mut self, i: usize) -> (r: User)
        requires
            store_wf(*old(self)),
            i < old(self).users@.len(),
        ensures
            store_wf(*final(self)),
            r == old(self).users@[i as int],
            final(self).users@ == old(self).users@.remove(i as int),
            final(self).mounts@ == old(self).mounts@,
            final(self).sessions@ == old(self).sessions@,
            final(self).repo_jobs@ == old(self).repo_jobs@,
    {
        proof {
            let ghost vs = user_views(self.users@);
            let ghost ws = vs.remove(i as int);
            assert(user_views(self.users@.remove(i as int)) =~= ws);
            assert forall|a: int, b: int| 0 <= a < b < ws.len() implies (#[trigger] ws[a]).user_name
                != (#[trigger] ws[b]).user_name by {
                let a0 = if a < i {
                    a
                } else {
                    a + 1
                };
                let b0 = if b < i {
                    b
                } else {
                    b + 1
                };
                assert(ws[a] == vs[a0]);
                assert(ws[b] == vs[b0]);
            }
        }
        self.users.remove(i)
    }

    /// Inserts a session whose identifier is not yet taken.
    pub fn insert_session(&mut self, s: Session)
        requires
            store_wf(*old(self)),
            forall|i: int|
                0 <= i < old(self).sessions@.len() ==> (#[trigger] old(self).sessions@[i]).id
                    != s.id,
        ensures
            store_wf(*final(self)),
            final(self).sessions@ == old(self).sessions@.push(s),
            final(self).mounts@ == old(self).mounts@,
            final(self).users@ == old(self).users@,
            final(self).repo_jobs@ == old(self).repo_jobs@,
    {
        self.sessions.push(s);
    }

    /// Index of the session carrying `id`, if present.
    pub fn find_session_idx(&self, id: Uid) -> (r: Option<usize>)
        ensures
            r matches Some(i) ==> i < self.sessions@.len() && self.sessions@[i as int].id == id,
            r is None ==> forall|i: int|
                0 <= i < self.sessions@.len() ==> (#[trigger] self.sessions@[i]).id != id,
    {
        let n = self.sessions.len();
        let mut k: usize = 0;
        while k < n
            invariant
                k <= n,
                n == self.sessions@.len(),
                forall|i: int| 0 <= i < k ==> (#[trigger] self.sessions@[i]).id != id,
            decreases n - k,
        {
            if self.sessions[k].id == id {
                return Some(k);
            }
            k += 1;
        }
        None
    }

    /// Index of the job carrying `id`, if present.
    pub fn find_job_idx(&self, id: Uid) -> (r: Option<usize>)
        ensures
            r matches Some(i) ==> i < self.repo_jobs@.len() && (self.repo_jobs@[i as int])@.id
                == id.0,
            r is None ==> forall|i: int|
                0 <= i < self.repo_jobs@.len() ==> (#[trigger] self.repo_jobs@[i])@.id != id.0,
    {
        let n = self.repo_jobs.len();
        let mut k: usize = 0;
        while k < n
            invariant
                k <= n,
                n == self.repo_jobs@.len(),
                forall|i: int| 0 <= i < k ==> (#[trigger] self.repo_jobs@[i])@.id != id.0,
            decreases n - k,
        {
            if self.repo_jobs[k].id == id {
                return Some(k);
            }
            k += 1;
        }
        None
    }

    /// Inserts a well-formed job whose identifier is not yet taken.
    pub fn insert_job(&mut self, j: RepoJob)
        requires
            store_wf(*old(self)),
            job_wf(j@),
            forall|i: int|
                0 <= i < old(self).repo_jobs@.len() ==> (#[trigger] old(self).repo_jobs@[i])@.id
                    != j@.id,
        ensures
            store_wf(*final(self)),
            final(self).repo_jobs@ == old(self).repo_jobs@.push(j),
            final(self).mounts@ == old(self).mounts@,
            final(self).users@ == old(self).users@,
            final(self).sessions@ == old(self).sessions@,
    {
        proof {
            let ghost vs = job_views(self.repo_jobs@);
            assert(job_views(self.repo_jobs@.push(j)) =~= vs.push(j@));
        }
        self.repo_jobs.push(j);
    }

    /// Replaces the job at `i` by a well-formed one carrying the same
    /// identifier.
    pub fn update_job_at(&mut self, i: usize, j: RepoJob)
        requires
            store_wf(*old(self)),
            i < old(self).repo_jobs@.len(),
            job_wf(j@),
            j@.id == (old(self).repo_jobs@[i as int])@.id,
        ensures
            store_wf(*final(self)),
            final(self).repo_jobs@ == old(self).repo_jobs@.update(i as int, j),
            final(self).mounts@ == old(self).mounts@,
            final(self).users@ == old(self).users@,
            final(self).sessions@ == old(self).sessions@,
    {
        proof {
            let ghost vs = job_views(self.repo_jobs@);
            let ghost ws = vs.update(i as int, j@);
            assert(job_views(self.repo_jobs@.update(i as int, j)) =~= ws);
            assert forall|a: int, b: int| 0 <= a < b < ws.len() implies (#[trigger] ws[a]).id != (
            #[trigger] ws[b]).id by {
                assert(vs[a].id != vs[b].id);
                assert(ws[a] == if a == i {
                    j@
                } else {
                    vs[a]
                });
                assert(ws[b] == if b == i {
                    j@
                } else {
                    vs[b]
                });
            }
        }
        self.repo_jobs.set(i, j);
    }

    /// Copies of the users, in store order.
    pub fn all_users(&self) -> (r: Vec<User>)
        ensures
            user_views(r@) == user_views(self.users@),
    {
        let n = self.users.len();
        let mut out: Vec<User> = Vec::new();
        let mut k: usize = 0;
        while k < n
            invariant
                k <= n,
                n == self.users@.len(),
                out@.len() == k,
                forall|i: int| 0 <= i < k ==> (#[trigger] out@[i])@ == self.users@[i]@,
            decreases n - k,
        {
            out.push(self.users[k].duplicate());
            k += 1;
        }
        proof {
            assert(user_views(out@) =~= user_views(self.users@));
        }
        out
    }

    /// Copies of the jobs recorded against volume `(owner, name)`, in
    /// store order.
    pub fn jobs_for_mount(&self, owner: &str, name: &str) -> (r: Vec<RepoJob>)
        ensures
            job_views(r@) == jobs_filter(job_views(self.repo_jobs@), owner@, name@),
    {
        let ghost vs = job_views(self.repo_jobs@);
        let n = self.repo_jobs.len();
        let mut out: Vec<RepoJob> = Vec::new();
        let mut k: usize = 0;
        proof {
            assert(vs.take(0) =~= Seq::<RepoJobV>::empty());
            assert(job_views(out@) =~= Seq::<RepoJobV>::empty());
        }
        while k < n
            invariant
                k <= n,
                n == self.repo_jobs@.len(),
                vs == job_views(self.repo_jobs@),
                job_views(out@) == jobs_filter(vs.take(k as int), owner@, name@),
            decreases n - k,
        {
            proof {
                assert(vs.take(k + 1).drop_last() =~= vs.take(k as int));
                assert(vs.take(k + 1).last() == (self.repo_jobs@[k as int])@);
            }
            if crate::strutil::str_eq(self.repo_jobs[k].point_owned_by.as_str(), owner)
                && crate::strutil::str_eq(self.repo_jobs[k].point_name.as_str(), name) {
                let d = self.repo_jobs[k].duplicate();
                proof {
                    assert(job_views(out@.push(d)) =~= job_views(out@).push(d@));
                }
                out.push(d);
            }
            k += 1;
        }
        proof {
            assert(vs.take(n as int) =~= vs);
        }
        out
    }
}

} // verus!
