//! The store-facing volume actions: listing, lookup, job listing and
//! backup launch.

use vstd::prelude::*;
use vstd::string::*;
use crate::errors::NeptisError;
use crate::jobs::JobLaunchInfo;
use crate::jobs::start_backup;
use crate::mount_dtos::PostForBackupApi;
use crate::mount_dtos::RepoJobDto;
use crate::mounts::Mount;
use crate::mounts::JobStatus;
use crate::mounts::JobType;
use crate::store::Store;
use crate::store::jobs_filter;
use crate::store::job_views;
use crate::store::mount_views;
use crate::store::owned_filter;
use crate::store::store_wf;
use crate::strutil::concat_str;
use crate::users::User;

verus! {

/// Copies of the caller's volumes, in store order.
pub fn get_all_mounts_for_user(store: &Store, auth_user: &User) -> (r: Vec<Mount>)
    ensures
        mount_views(r@) == owned_filter(mount_views(store.mounts@), auth_user@.user_name),
{
    store.mounts_for_user(auth_user.user_name.as_str())
}

/// The caller's volume named `p_name`; a missing one is a store lookup
/// failure.
pub fn get_one_mount(store: &Store, auth_user: &User, p_name: &str) -> (r: Result<
    Mount,
    NeptisError,
>)
    ensures
        r is Ok <==> exists|i: int|
            0 <= i < store.mounts@.len() && (#[trigger] store.mounts@[i])@.owned_by
                == auth_user@.user_name && store.mounts@[i]@.mount_name == p_name@,
        r matches Err(e) ==> e is DbQuery,
        r matches Ok(m) ==> exists|i: int|
            0 <= i < store.mounts@.len() && (#[trigger] store.mounts@[i])@.owned_by
                == auth_user@.user_name && store.mounts@[i]@.mount_name == p_name@ && m@
                == store.mounts@[i]@,
{
    let found = store.find_mount_idx(auth_user.user_name.as_str(), p_name);
    match found {
        Some(i) => {
            proof {
                assert((store.mounts@[i as int])@.owned_by == auth_user@.user_name);
            }
            Ok(store.mounts[i].duplicate())
        },
        None => Err(NeptisError::DbQuery(String::from_str("The point does not exist!"))),
    }
}

/// The jobs recorded against the caller's volume `p_name`, shaped for the
/// caller, in store order.
pub fn get_all_jobs(store: &Store, auth_user: &User, p_name: &str) -> (r: Result<
    Vec<RepoJobDto>,
    NeptisError,
>)
    ensures
        r matches Ok(v) ==> ({
            let filtered = jobs_filter(
                job_views(store.repo_jobs@),
                auth_user@.user_name,
                p_name@,
            );
            &&& v@.len() == filtered.len()
            &&& forall|i: int|
                0 <= i < v@.len() ==> (#[trigger] v@[i]).id.0 == filtered[i].id && (
                v@[i]).job_status == filtered[i].job_status && (v@[i]).used_bytes as int
                    == filtered[i].used_bytes && ((v@[i]).end_date is Some
                    <==> filtered[i].end_date is Some)
        }),
        r is Ok,
{
    let jobs = store.jobs_for_mount(auth_user.user_name.as_str(), p_name);
    let ghost filtered = jobs_filter(job_views(store.repo_jobs@), auth_user@.user_name, p_name@);
    let n = jobs.len();
    let mut out: Vec<RepoJobDto> = Vec::new();
    let mut k: usize = 0;
    while k < n
        invariant
            k <= n,
            n == jobs@.len(),
            out@.len() == k,
            job_views(jobs@) == filtered,
            forall|i: int|
                0 <= i < k ==> (#[trigger] out@[i]).id.0 == filtered[i].id && (out@[i]).job_status
                    == filtered[i].job_status && (out@[i]).used_bytes as int
                    == filtered[i].used_bytes && ((out@[i]).end_date is Some
                    <==> filtered[i].end_date is Some),
        decreases n - k,
    {
        proof {
            assert((jobs@[k as int])@ == job_views(jobs@)[k as int]);
        }
        match RepoJobDto::try_to_dto(auth_user, jobs[k].duplicate()) {
            Ok(d) => {
                out.push(d);
            },
            Err(e) => {
                return Err(e);
            },
        }
        k += 1;
    }
    Ok(out)
}

/// Launches a backup of the volume the request names: the volume must
/// exist; the launch info carries its repository path and passphrase; a
/// `Running` job row is inserted and reported back.
pub fn backup_mount(store: &mut Store, auth_user: &User, dto: &PostForBackupApi, now: i64) -> (r:
    Result<(RepoJobDto, JobLaunchInfo), NeptisError>)
    requires
        store_wf(*old(store)),
    ensures
        store_wf(*final(store)),
        final(store).users@ == old(store).users@,
        final(store).sessions@ == old(store).sessions@,
        final(store).mounts@ == old(store).mounts@,
        r is Err ==> *final(store) == *old(store),
        (forall|i: int|
            0 <= i < old(store).mounts@.len() ==> !((#[trigger] old(store).mounts@[i])@.owned_by
                == dto.point_user@ && old(store).mounts@[i]@.mount_name == dto.point_name@)) ==> (
        r matches Err(e) && e is DbQuery),
        (exists|i: int|
            0 <= i < old(store).mounts@.len() && (#[trigger] old(store).mounts@[i])@.owned_by
                == dto.point_user@ && old(store).mounts@[i]@.mount_name == dto.point_name@) ==> (
        r is Ok || (r matches Err(e) && e is DbQuery)),
        r matches Ok(p) ==> {
            &&& final(store).repo_jobs@.len() == old(store).repo_jobs@.len() + 1
            &&& ({
                let j = (final(store).repo_jobs@.last())@;
                &&& j.point_owned_by == dto.point_user@
                &&& j.point_name == dto.point_name@
                &&& j.job_type == JobType::Backup
                &&& j.job_status == JobStatus::Running
                &&& j.used_bytes == 0
                &&& j.end_date is None
                &&& (p.0).id.0 == j.id
                &&& (p.0).job_status == JobStatus::Running
                &&& (p.0).used_bytes == 0
                &&& (p.0).end_date is None
            })
            &&& exists|i: int|
                0 <= i < old(store).mounts@.len() && (#[trigger] old(store).mounts@[i])@.owned_by
                    == dto.point_user@ && old(store).mounts@[i]@.mount_name == dto.point_name@ && (
                p.1).repo_path@ == old(store).mounts@[i]@.repo_mnt_path + "/repo"@ && (
                p.1).repo_pass@ == old(store).mounts@[i]@.repo_password
        },
{
    let found = store.find_mount_idx(dto.point_user.as_str(), dto.point_name.as_str());
    let idx = match found {
        Some(i) => i,
        None => {
            return Err(NeptisError::DbQuery(String::from_str("The point does not exist!")));
        },
    };
    proof {
        assert((store.mounts@[idx as int])@.owned_by == dto.point_user@);
    }
    let f_point = &store.mounts[idx];
    let options = JobLaunchInfo {
        point_owned_by: dto.point_user.clone(),
        point_name: dto.point_name.clone(),
        repo_path: concat_str(f_point.repo_mnt_path.as_str(), "/repo"),
        repo_pass: f_point.repo_password.clone(),
    };
    let launch = JobLaunchInfo {
        point_owned_by: options.point_owned_by.clone(),
        point_name: options.point_name.clone(),
        repo_path: options.repo_path.clone(),
        repo_pass: options.repo_pass.clone(),
    };
    let ret_id = match start_backup(store, &options, now) {
        Ok(id) => id,
        Err(e) => {
            return Err(e);
        },
    };
    let ji = match store.find_job_idx(ret_id) {
        Some(i) => i,
        None => {
            return Err(NeptisError::DbQuery(String::from_str("Job does not exist!")));
        },
    };
    proof {
        let last = store.repo_jobs@.len() - 1;
        assert((store.repo_jobs@[last])@.id == ret_id.0);
        if ji as int != last {
            let a = if (ji as int) < last {
                ji as int
            } else {
                last
            };
            let b = if (ji as int) < last {
                last
            } else {
                ji as int
            };
            assert(crate::store::job_views(store.repo_jobs@)[a] == (store.repo_jobs@[a])@);
            assert(crate::store::job_views(store.repo_jobs@)[b] == (store.repo_jobs@[b])@);
            assert(false);
        }
        assert((old(store).mounts@[idx as int])@.owned_by == dto.point_user@);
    }
    let dto_out = match RepoJobDto::try_to_dto(auth_user, store.repo_jobs[ji].duplicate()) {
        Ok(d) => d,
        Err(e) => {
            return Err(e);
        },
    };
    Ok((dto_out, launch))
}

} // verus!
