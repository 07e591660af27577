//! Request and response shapes for the volume and file operations.
//!
//! Times are Unix seconds; file payloads travel as base64 text.

use vstd::prelude::*;
use vstd::string::*;
use crate::errors::NeptisError;
use crate::errors::is_unauthorized;
use crate::ids::Uid;
use crate::mounts::JobStatus;
use crate::mounts::JobType;
use crate::mounts::Mount;
use crate::mounts::RepoJob;
use crate::strutil::dup_strings;
use crate::users::User;

verus! {

/// A volume as reported to a caller, with live usage when available.
#[derive(Debug)]
pub struct MountDto {
    pub name: String,
    pub owned_by: String,
    pub data_max_bytes: i64,
    pub repo_max_bytes: i64,
    pub data_used_bytes: Option<i64>,
    pub repo_used_bytes: Option<i64>,
    pub date_created: i64,
    pub data_accessed: i64,
    pub repo_accessed: i64,
}

/// A job record as reported to a caller.
#[derive(Debug)]
pub struct RepoJobDto {
    pub id: Uid,
    pub snapshot_id: Option<String>,
    pub point_owned_by: String,
    pub point_name: String,
    pub job_type: JobType,
    pub job_status: JobStatus,
    pub used_bytes: i64,
    pub total_bytes: Option<i64>,
    pub errors: Vec<String>,
    pub create_date: i64,
    pub end_date: Option<i64>,
}

/// One filesystem entry in a browse listing.
#[derive(Debug)]
pub struct NodeDto {
    pub path: String,
    pub atime: i64,
    pub ctime: i64,
    pub mtime: i64,
    pub is_dir: bool,
    pub bytes: u64,
}

/// A timestamp argument: a specific time, or "now".
#[derive(Clone, Copy, PartialEq, Eq, Structural, Debug)]
pub enum TimeOrNow {
    /// Specific time provided.
    SpecificTime(i64),
    /// Current time.
    Now,
}

/// Attribute changes a file update may carry.
#[derive(Debug)]
pub struct SetAttrRequest {
    /// File size in bytes.
    pub size: Option<u64>,
    /// Last access time.
    pub atime: Option<TimeOrNow>,
    /// Last modification time.
    pub mtime: Option<TimeOrNow>,
}

/// An update of an existing file.
#[derive(Debug)]
pub struct PutForFileApi {
    pub path: String,
    pub base64: Option<String>,
    pub new_path: Option<String>,
    pub offset: Option<SeekPos>,
    pub attr: Option<SetAttrRequest>,
}

/// Sets one extended attribute.
#[derive(Debug)]
pub struct PutForXattrApi {
    pub path: String,
    pub key: String,
    pub base64: String,
}

/// Removes one extended attribute.
#[derive(Debug)]
pub struct DeleteForXattrApi {
    pub path: String,
    pub key: String,
}

/// Creates a file or directory.
#[derive(Debug)]
pub struct PostForFileApi {
    pub path: String,
    pub is_dir: bool,
    pub base64: Option<String>,
    pub offset: Option<SeekPos>,
}

/// A seek position inside a file.
#[derive(Clone, Copy, PartialEq, Eq, Structural, Debug)]
pub enum SeekPos {
    Start(u64),
    End(i64),
    Current(i64),
}

/// Reads a byte range out of a file.
#[derive(Debug)]
pub struct GetForDumpApi {
    pub path: String,
    pub offset: SeekPos,
    pub size: usize,
}

/// Requested byte ceilings for a volume create-or-resize.
#[derive(Debug)]
pub struct PutForMountApi {
    pub data_bytes: i64,
    pub repo_bytes: i64,
}

/// Launches a backup of one volume.
#[derive(Debug)]
pub struct PostForBackupApi {
    pub point_user: String,
    pub point_name: String,
    pub tags: Option<Vec<String>>,
    pub dry_run: bool,
}

impl NodeDto {
    /// Clamps a timestamp to the epoch, so nothing predates it.
    pub fn safe_time(t: i64) -> (r: i64)
        ensures
            r == if t < 0 {
                0int
            } else {
                t as int
            },
    {
        if t < 0 {
            0
        } else {
            t
        }
    }

    /// Builds an entry from the metadata of a file, read as plain values.
    pub fn from_metadata(path: &str, atime: i64, ctime: i64, mtime: i64, is_dir: bool, bytes: u64) -> (r:
        NodeDto)
        ensures
            r.path@ == path@,
            r.atime == Self::safe_time_spec(atime),
            r.ctime == Self::safe_time_spec(ctime),
            r.mtime == Self::safe_time_spec(mtime),
            r.is_dir == is_dir,
            r.bytes == bytes,
    {
        NodeDto {
            path: String::from_str(path),
            atime: Self::safe_time(atime),
            ctime: Self::safe_time(ctime),
            mtime: Self::safe_time(mtime),
            is_dir,
            bytes,
        }
    }

    /// What [`NodeDto::safe_time`] returns.
    pub open spec fn safe_time_spec(t: i64) -> int {
        if t < 0 {
            0int
        } else {
            t as int
        }
    }
}

impl RepoJobDto {
    /// Copies a job record into its caller-facing shape; every field is
    /// reported as stored.
    pub fn try_to_dto(_auth_user: &User, item: RepoJob) -> (r: Result<RepoJobDto, NeptisError>)
        ensures
            r matches Ok(d) ==> {
                &&& d.id == item.id
                &&& match (d.snapshot_id, item.snapshot_id) {
                    (Some(a), Some(b)) => a@ == b@,
                    (None, None) => true,
                    _ => false,
                }
                &&& d.point_owned_by@ == item.point_owned_by@
                &&& d.point_name@ == item.point_name@
                &&& d.job_type == item.job_type
                &&& d.job_status == item.job_status
                &&& d.used_bytes == item.used_bytes
                &&& d.total_bytes == item.total_bytes
                &&& d.errors@.map_values(|e: String| e@) == item.errors@.map_values(
                    |e: String| e@,
                )
                &&& d.create_date == item.create_date
                &&& d.end_date == item.end_date
            },
            r is Ok,
    {
        let snapshot_id = match &item.snapshot_id {
            Some(s) => Some(s.clone()),
            None => None,
        };
        Ok(RepoJobDto {
            id: item.id,
            snapshot_id,
            point_owned_by: item.point_owned_by.clone(),
            point_name: item.point_name.clone(),
            job_type: item.job_type,
            job_status: item.job_status,
            used_bytes: item.used_bytes,
            total_bytes: item.total_bytes,
            errors: dup_strings(&item.errors),
            create_date: item.create_date,
            end_date: item.end_date,
        })
    }
}

impl MountDto {
    /// Copies a volume into its caller-facing shape, attaching the live
    /// usage the host reported (when the volume could be mounted).
    ///
    /// Only the owner or an administrator may see a volume.
    pub fn try_to_dto(
        auth_user: &User,
        item: Mount,
        data_used_bytes: Option<i64>,
        repo_used_bytes: Option<i64>,
    ) -> (r: Result<MountDto, NeptisError>)
        ensures
            r is Ok <==> (auth_user@.is_admin || auth_user@.user_name == item@.owned_by),
            r matches Err(e) ==> is_unauthorized(e, "You do not have access!"@),
            r matches Ok(d) ==> {
                &&& d.name@ == item@.mount_name
                &&& d.owned_by@ == item@.owned_by
                &&& d.data_max_bytes == item.data_max_bytes
                &&& d.repo_max_bytes == item.repo_max_bytes
                &&& d.data_used_bytes == data_used_bytes
                &&& d.repo_used_bytes == repo_used_bytes
                &&& d.date_created == item.date_created
                &&& d.data_accessed == item.data_accessed
                &&& d.repo_accessed == item.repo_accessed
            },
    {
        if !auth_user.is_admin && !crate::strutil::str_eq(
            auth_user.user_name.as_str(),
            item.owned_by.as_str(),
        ) {
            return Err(NeptisError::Unauthorized(String::from_str("You do not have access!")));
        }
        Ok(MountDto {
            name: item.mount_name.clone(),
            owned_by: item.owned_by.clone(),
            data_max_bytes: item.data_max_bytes,
            repo_max_bytes: item.repo_max_bytes,
            data_used_bytes,
            repo_used_bytes,
            date_created: item.date_created,
            data_accessed: item.data_accessed,
            repo_accessed: item.repo_accessed,
        })
    }
}

} // verus!
