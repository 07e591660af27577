//! The job orchestrator: persisted backup/restore job records, their
//! progress relay, and their single terminal write.
//!
//! A job row is inserted in `Running` state, with zero bytes and no end
//! time, before any asynchronous work begins, so a returned job identifier
//! always names a queryable record. Progress events arrive through a
//! single consumer and only ever raise the transferred byte count or set
//! the total; the terminal write happens once, directly, and sets the end
//! time together with the outcome.

use vstd::prelude::*;
use vstd::string::*;
use crate::errors::NeptisError;
use crate::ids::Uid;
use crate::ids::fresh_uid;
use crate::mounts::JobStatus;
use crate::mounts::JobType;
use crate::mounts::RepoJob;
use crate::mounts::RepoJobV;
use crate::mounts::job_terminal;
use crate::mounts::job_wf;
use crate::store::Store;
use crate::store::store_wf;

verus! {

/// One tagged progress event, addressed to a job.
#[derive(Debug)]
pub enum SendUpdate {
    /// Raise the transferred byte count.
    Increment(u64),
    /// Set the expected total byte count.
    LengthSet(u64),
    /// A title; accepted but never persisted.
    TitleSet(String),
}

/// What a launched job needs to know about its volume.
#[derive(Debug)]
pub struct JobLaunchInfo {
    pub point_owned_by: String,
    pub point_name: String,
    pub repo_path: String,
    pub repo_pass: String,
}

/// `used + inc`, saturating at the top of `i64`.
pub open spec fn inc_clamped(used: int, inc: int) -> int {
    if used + inc <= i64::MAX {
        used + inc
    } else {
        i64::MAX as int
    }
}

/// `v` squeezed into a non-negative `i64`.
pub open spec fn u64_clamped(v: int) -> int {
    if v <= i64::MAX {
        v
    } else {
        i64::MAX as int
    }
}

/// A freshly launched job: `Running`, zero bytes transferred, no total,
/// no errors, no end time.
pub fn new_running_job(
    id: Uid,
    launch_info: &JobLaunchInfo,
    job_type: JobType,
    snapshot_id: Option<String>,
    now: i64,
) -> (r: RepoJob)
    ensures
        r@ == (RepoJobV {
            id: id.0,
            snapshot_id: match snapshot_id {
                Some(s) => Some(s@),
                None => None,
            },
            point_owned_by: launch_info.point_owned_by@,
            point_name: launch_info.point_name@,
            job_type: job_type,
            job_status: JobStatus::Running,
            used_bytes: 0,
            total_bytes: None,
            errors: Seq::empty(),
            create_date: now as int,
            end_date: None,
        }),
        job_wf(r@),
{
    let errors: Vec<String> = Vec::new();
    proof {
        assert(errors@.map_values(|e: String| e@) =~= Seq::<Seq<char>>::empty());
    }
    RepoJob {
        id,
        snapshot_id,
        point_owned_by: launch_info.point_owned_by.clone(),
        point_name: launch_info.point_name.clone(),
        job_type,
        job_status: JobStatus::Running,
        used_bytes: 0,
        total_bytes: None,
        errors,
        create_date: now,
        end_date: None,
    }
}

/// Launches a backup: a fresh identifier is drawn and the `Running` row
/// is inserted synchronously; the identifier comes back at once.
///
/// The engine work happens elsewhere and reports in through
/// [`handle_progress_update`] and [`finish_backup`]. In the vanishingly
/// rare case that the drawn identifier is already taken, nothing changes
/// and a store failure is reported.
pub fn start_backup(store: &mut Store, launch_info: &JobLaunchInfo, now: i64) -> (r: Result<
    Uid,
    NeptisError,
>)
    requires
        store_wf(*old(store)),
    ensures
        store_wf(*final(store)),
        final(store).users@ == old(store).users@,
        final(store).sessions@ == old(store).sessions@,
        final(store).mounts@ == old(store).mounts@,
        r matches Err(e) ==> e is DbQuery && *final(store) == *old(store),
        r matches Ok(id) ==> {
            &&& final(store).repo_jobs@.len() == old(store).repo_jobs@.len() + 1
            &&& (forall|j: int|
                0 <= j < old(store).repo_jobs@.len() ==> final(store).repo_jobs@[j] == old(
                    store,
                ).repo_jobs@[j])
            &&& (final(store).repo_jobs@.last())@ == (RepoJobV {
                id: id.0,
                snapshot_id: None,
                point_owned_by: launch_info.point_owned_by@,
                point_name: launch_info.point_name@,
                job_type: JobType::Backup,
                job_status: JobStatus::Running,
                used_bytes: 0,
                total_bytes: None,
                errors: Seq::empty(),
                create_date: now as int,
                end_date: None,
            })
        },
{
    let job_id = fresh_uid();
    if store.find_job_idx(job_id).is_some() {
        return Err(NeptisError::DbQuery(String::from_str("Job identifier already in use!")));
    }
    let job = new_running_job(job_id, launch_info, JobType::Backup, None, now);
    store.insert_job(job);
    Ok(job_id)
}

/// Launches a restore of `snap_path`: as [`start_backup`], but the job
/// carries the requested snapshot identifier from the start.
pub fn start_full_restore(store: &mut Store, launch_info: &JobLaunchInfo, snap_path: &str, now: i64) -> (r:
    Result<Uid, NeptisError>)
    requires
        store_wf(*old(store)),
    ensures
        store_wf(*final(store)),
        final(store).users@ == old(store).users@,
        final(store).sessions@ == old(store).sessions@,
        final(store).mounts@ == old(store).mounts@,
        r matches Err(e) ==> e is DbQuery && *final(store) == *old(store),
        r matches Ok(id) ==> {
            &&& final(store).repo_jobs@.len() == old(store).repo_jobs@.len() + 1
            &&& (forall|j: int|
                0 <= j < old(store).repo_jobs@.len() ==> final(store).repo_jobs@[j] == old(
                    store,
                ).repo_jobs@[j])
            &&& (final(store).repo_jobs@.last())@ == (RepoJobV {
                id: id.0,
                snapshot_id: Some(snap_path@),
                point_owned_by: launch_info.point_owned_by@,
                point_name: launch_info.point_name@,
                job_type: JobType::Restore,
                job_status: JobStatus::Running,
                used_bytes: 0,
                total_bytes: None,
                errors: Seq::empty(),
                create_date: now as int,
                end_date: None,
            })
        },
{
    let job_id = fresh_uid();
    if store.find_job_idx(job_id).is_some() {
        return Err(NeptisError::DbQuery(String::from_str("Job identifier already in use!")));
    }
    let job = new_running_job(
        job_id,
        launch_info,
        JobType::Restore,
        Some(String::from_str(snap_path)),
        now,
    );
    store.insert_job(job);
    Ok(job_id)
}

/// What one relayed progress event does to a job record: `Increment`
/// raises the transferred bytes (saturating), `LengthSet` sets the total
/// (clamped into `i64`), and a title changes nothing.
pub open spec fn applied_update(j: RepoJobV, upd: SendUpdate) -> RepoJobV {
    match upd {
        SendUpdate::Increment(n) => RepoJobV {
            used_bytes: inc_clamped(j.used_bytes, n as int),
            ..j
        },
        SendUpdate::LengthSet(n) => RepoJobV { total_bytes: Some(u64_clamped(n as int)), ..j },
        SendUpdate::TitleSet(_) => j,
    }
}

/// Applies one relayed progress event to the job it addresses.
///
/// The transferred byte count never decreases, and the record's status and
/// end time are untouched, whatever the event. An unknown identifier is a
/// store lookup failure and changes nothing; the relay ignores it.
pub fn handle_progress_update(store: &mut Store, job_id: Uid, r_update: &SendUpdate) -> (r: Result<
    usize,
    NeptisError,
>)
    requires
        store_wf(*old(store)),
    ensures
        store_wf(*final(store)),
        final(store).users@ == old(store).users@,
        final(store).sessions@ == old(store).sessions@,
        final(store).mounts@ == old(store).mounts@,
        r matches Err(e) ==> e is DbQuery && *final(store) == *old(store),
        r is Err <==> (forall|i: int|
            0 <= i < old(store).repo_jobs@.len() ==> (#[trigger] old(store).repo_jobs@[i])@.id
                != job_id.0),
        r is Ok ==> forall|i: int|
            (0 <= i < old(store).repo_jobs@.len() && (#[trigger] old(store).repo_jobs@[i])@.id
                == job_id.0) ==> {
                &&& final(store).repo_jobs@.len() == old(store).repo_jobs@.len()
                &&& (forall|j: int|
                    0 <= j < old(store).repo_jobs@.len() && j != i
                        ==> final(store).repo_jobs@[j] == old(store).repo_jobs@[j])
                &&& (final(store).repo_jobs@[i])@ == applied_update(
                    (old(store).repo_jobs@[i])@,
                    *r_update,
                )
                &&& (final(store).repo_jobs@[i])@.used_bytes
                    >= (old(store).repo_jobs@[i])@.used_bytes
                &&& (final(store).repo_jobs@[i])@.job_status
                    == (old(store).repo_jobs@[i])@.job_status
                &&& (final(store).repo_jobs@[i])@.end_date == (old(store).repo_jobs@[i])@.end_date
            },
{
    let found = store.find_job_idx(job_id);
    let idx = match found {
        Some(i) => i,
        None => {
            return Err(NeptisError::DbQuery(String::from_str("Job does not exist!")));
        },
    };
    proof {
        assert forall|j: int|
            (0 <= j < store.repo_jobs@.len() && (#[trigger] store.repo_jobs@[j])@.id == job_id.0)
                implies j == idx as int by {
            if j != idx as int {
                let a = if j < idx as int {
                    j
                } else {
                    idx as int
                };
                let b = if j < idx as int {
                    idx as int
                } else {
                    j
                };
                assert(crate::store::job_views(store.repo_jobs@)[a] == (store.repo_jobs@[a])@);
                assert(crate::store::job_views(store.repo_jobs@)[b] == (store.repo_jobs@[b])@);
            }
        }
    }
    let mut job = store.repo_jobs[idx].duplicate();
    match r_update {
        SendUpdate::Increment(inc) => {
            let inc_i: i64 = if *inc > (i64::MAX as u64) {
                i64::MAX
            } else {
                *inc as i64
            };
            job.used_bytes = if job.used_bytes <= i64::MAX - inc_i {
                job.used_bytes + inc_i
            } else {
                i64::MAX
            };
            proof {
                assert(job@.used_bytes == inc_clamped(
                    (store.repo_jobs@[idx as int])@.used_bytes,
                    *inc as int,
                ));
            }
        },
        SendUpdate::LengthSet(len) => {
            job.total_bytes = Some(
                if *len > (i64::MAX as u64) {
                    i64::MAX
                } else {
                    *len as i64
                },
            );
        },
        SendUpdate::TitleSet(_) => {
            return Ok(0);
        },
    }
    store.update_job_at(idx, job);
    Ok(1)
}

/// A relayed progress event never lowers a job's transferred byte count
/// and never touches its status or end time; only the terminal write (
/// which bypasses the relay) can end a job.
pub proof fn lemma_progress_monotone(j: RepoJobV, upd: SendUpdate)
    requires
        j.used_bytes <= i64::MAX,
    ensures
        applied_update(j, upd).used_bytes >= j.used_bytes,
        applied_update(j, upd).job_status == j.job_status,
        applied_update(j, upd).end_date == j.end_date,
        applied_update(j, upd).create_date == j.create_date,
        applied_update(j, upd).id == j.id,
{
}

/// The terminal record a finished backup leaves behind.
pub open spec fn finished_backup(
    j: RepoJobV,
    ret_snapshot: Option<(Seq<char>, Option<int>)>,
    err: Option<Seq<char>>,
    now: int,
) -> RepoJobV {
    match ret_snapshot {
        Some(snap) => RepoJobV {
            job_status: JobStatus::Successful,
            snapshot_id: Some(snap.0),
            used_bytes: match snap.1 {
                Some(total) => u64_clamped(total),
                None => j.used_bytes,
            },
            end_date: Some(now),
            ..j
        },
        None => RepoJobV {
            job_status: JobStatus::Failed,
            errors: j.errors.push(match err {
                Some(m) => m,
                None => Seq::empty(),
            }),
            end_date: Some(now),
            ..j
        },
    }
}

/// Writes a backup's one terminal state: on success the snapshot
/// identifier and (when the engine reported one) the final byte count; on
/// failure an appended error message. Either way the end time is set and
/// the record is terminal. This write bypasses the relay.
pub fn finish_backup(
    store: &mut Store,
    job_id: Uid,
    ret: Result<(String, Option<u64>), String>,
    now: i64,
) -> (r: Result<(), NeptisError>)
    requires
        store_wf(*old(store)),
    ensures
        store_wf(*final(store)),
        final(store).users@ == old(store).users@,
        final(store).sessions@ == old(store).sessions@,
        final(store).mounts@ == old(store).mounts@,
        r matches Err(e) ==> e is DbQuery && *final(store) == *old(store),
        r is Err <==> (forall|i: int|
            0 <= i < old(store).repo_jobs@.len() ==> (#[trigger] old(store).repo_jobs@[i])@.id
                != job_id.0),
        r is Ok ==> forall|i: int|
            (0 <= i < old(store).repo_jobs@.len() && (#[trigger] old(store).repo_jobs@[i])@.id
                == job_id.0) ==> {
                &&& final(store).repo_jobs@.len() == old(store).repo_jobs@.len()
                &&& (forall|j: int|
                    0 <= j < old(store).repo_jobs@.len() && j != i
                        ==> final(store).repo_jobs@[j] == old(store).repo_jobs@[j])
                &&& (final(store).repo_jobs@[i])@ == finished_backup(
                    (old(store).repo_jobs@[i])@,
                    match ret {
                        Ok(s) => Some(
                            (
                                (s.0)@,
                                match s.1 {
                                    Some(t) => Some(t as int),
                                    None => None,
                                },
                            ),
                        ),
                        Err(_) => None,
                    },
                    match ret {
                        Ok(_) => None,
                        Err(m) => Some(m@),
                    },
                    now as int,
                )
                &&& job_terminal((final(store).repo_jobs@[i])@.job_status)
                &&& (final(store).repo_jobs@[i])@.end_date == Some(now as int)
            },
{
    let found = store.find_job_idx(job_id);
    let idx = match found {
        Some(i) => i,
        None => {
            return Err(NeptisError::DbQuery(String::from_str("Job does not exist!")));
        },
    };
    proof {
        assert forall|j: int|
            (0 <= j < store.repo_jobs@.len() && (#[trigger] store.repo_jobs@[j])@.id == job_id.0)
                implies j == idx as int by {
            if j != idx as int {
                let a = if j < idx as int {
                    j
                } else {
                    idx as int
                };
                let b = if j < idx as int {
                    idx as int
                } else {
                    j
                };
                assert(crate::store::job_views(store.repo_jobs@)[a] == (store.repo_jobs@[a])@);
                assert(crate::store::job_views(store.repo_jobs@)[b] == (store.repo_jobs@[b])@);
            }
        }
    }
    let mut f_job = store.repo_jobs[idx].duplicate();
    f_job.end_date = Some(now);
    match ret {
        Ok((snap, total)) => {
            f_job.job_status = JobStatus::Successful;
            f_job.snapshot_id = Some(snap);
            match total {
                Some(t) => {
                    f_job.used_bytes = if t > (i64::MAX as u64) {
                        i64::MAX
                    } else {
                        t as i64
                    };
                },
                None => {},
            }
        },
        Err(e) => {
            f_job.job_status = JobStatus::Failed;
            let ghost olderrs = f_job.errors@.map_values(|s: String| s@);
            f_job.errors.push(e);
            proof {
                assert(f_job.errors@.map_values(|s: String| s@) =~= olderrs.push(
                    f_job.errors@.last()@,
                ));
            }
        },
    }
    store.update_job_at(idx, f_job);
    Ok(())
}

/// The terminal record a finished restore leaves behind.
pub open spec fn finished_restore(j: RepoJobV, err: Option<Seq<char>>, now: int) -> RepoJobV {
    match err {
        None => RepoJobV { job_status: JobStatus::Successful, end_date: Some(now), ..j },
        Some(m) => RepoJobV {
            job_status: JobStatus::Failed,
            errors: j.errors.push(m),
            end_date: Some(now),
            ..j
        },
    }
}

/// Writes a restore's one terminal state: success, or failure with an
/// appended error message; the end time is set either way. This write
/// bypasses the relay.
pub fn finish_restore(store: &mut Store, job_id: Uid, ret: Result<(), String>, now: i64) -> (r:
    Result<(), NeptisError>)
    requires
        store_wf(*old(store)),
    ensures
        store_wf(*final(store)),
        final(store).users@ == old(store).users@,
        final(store).sessions@ == old(store).sessions@,
        final(store).mounts@ == old(store).mounts@,
        r matches Err(e) ==> e is DbQuery && *final(store) == *old(store),
        r is Err <==> (forall|i: int|
            0 <= i < old(store).repo_jobs@.len() ==> (#[trigger] old(store).repo_jobs@[i])@.id
                != job_id.0),
        r is Ok ==> forall|i: int|
            (0 <= i < old(store).repo_jobs@.len() && (#[trigger] old(store).repo_jobs@[i])@.id
                == job_id.0) ==> {
                &&& final(store).repo_jobs@.len() == old(store).repo_jobs@.len()
                &&& (forall|j: int|
                    0 <= j < old(store).repo_jobs@.len() && j != i
                        ==> final(store).repo_jobs@[j] == old(store).repo_jobs@[j])
                &&& (final(store).repo_jobs@[i])@ == finished_restore(
                    (old(store).repo_jobs@[i])@,
                    match ret {
                        Ok(_) => None,
                        Err(m) => Some(m@),
                    },
                    now as int,
                )
                &&& job_terminal((final(store).repo_jobs@[i])@.job_status)
                &&& (final(store).repo_jobs@[i])@.end_date == Some(now as int)
            },
{
    let found = store.find_job_idx(job_id);
    let idx = match found {
        Some(i) => i,
        None => {
            return Err(NeptisError::DbQuery(String::from_str("Job does not exist!")));
        },
    };
    proof {
        assert forall|j: int|
            (0 <= j < store.repo_jobs@.len() && (#[trigger] store.repo_jobs@[j])@.id == job_id.0)
                implies j == idx as int by {
            if j != idx as int {
                let a = if j < idx as int {
                    j
                } else {
                    idx as int
                };
                let b = if j < idx as int {
                    idx as int
                } else {
                    j
                };
                assert(crate::store::job_views(store.repo_jobs@)[a] == (store.repo_jobs@[a])@);
                assert(crate::store::job_views(store.repo_jobs@)[b] == (store.repo_jobs@[b])@);
            }
        }
    }
    let mut f_job = store.repo_jobs[idx].duplicate();
    f_job.end_date = Some(now);
    match ret {
        Ok(_) => {
            f_job.job_status = JobStatus::Successful;
        },
        Err(e) => {
            f_job.job_status = JobStatus::Failed;
            let ghost olderrs = f_job.errors@.map_values(|s: String| s@);
            f_job.errors.push(e);
            proof {
                assert(f_job.errors@.map_values(|s: String| s@) =~= olderrs.push(
                    f_job.errors@.last()@,
                ));
            }
        },
    }
    store.update_job_at(idx, f_job);
    Ok(())
}

} // verus!
