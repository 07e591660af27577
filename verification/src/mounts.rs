//! The volume ("mount") and job records that the store persists.
//!
//! Timestamps throughout the library are Unix seconds held in `i64`.

use vstd::prelude::*;
use vstd::string::*;
use crate::errors::ValidateError;
use crate::ids::Uid;
use crate::strutil::trim_spec;
use crate::strutil::trim_str;
use crate::traits::CleanValidate;

verus! {

/// One per-user volume: a pair of loopback image files (data and backup
/// repository) with their mount directories, byte ceilings and timestamps.
#[derive(Debug)]
pub struct Mount {
    pub owned_by: String,
    pub mount_name: String,
    pub data_img_path: String,
    pub data_mnt_path: String,
    pub repo_password: String,
    pub data_max_bytes: i64,
    pub repo_img_path: String,
    pub repo_mnt_path: String,
    pub repo_max_bytes: i64,
    pub date_created: i64,
    pub data_accessed: i64,
    pub repo_accessed: i64,
    pub locked: bool,
}

/// The mathematical value of a [`Mount`].
pub ghost struct MountV {
    pub owned_by: Seq<char>,
    pub mount_name: Seq<char>,
    pub data_img_path: Seq<char>,
    pub data_mnt_path: Seq<char>,
    pub repo_password: Seq<char>,
    pub data_max_bytes: int,
    pub repo_img_path: Seq<char>,
    pub repo_mnt_path: Seq<char>,
    pub repo_max_bytes: int,
    pub date_created: int,
    pub data_accessed: int,
    pub repo_accessed: int,
    pub locked: bool,
}

impl View for Mount {
    type V = MountV;

    open spec fn view(&self) -> MountV {
        MountV {
            owned_by: self.owned_by@,
            mount_name: self.mount_name@,
            data_img_path: self.data_img_path@,
            data_mnt_path: self.data_mnt_path@,
            repo_password: self.repo_password@,
            data_max_bytes: self.data_max_bytes as int,
            repo_img_path: self.repo_img_path@,
            repo_mnt_path: self.repo_mnt_path@,
            repo_max_bytes: self.repo_max_bytes as int,
            date_created: self.date_created as int,
            data_accessed: self.data_accessed as int,
            repo_accessed: self.repo_accessed as int,
            locked: self.locked,
        }
    }
}

impl Mount {
    /// An explicit field-by-field copy, equal to the original in value.
    pub fn duplicate(&self) -> (r: Mount)
        ensures
            r@ == self@,
    {
        Mount {
            owned_by: self.owned_by.clone(),
            mount_name: self.mount_name.clone(),
            data_img_path: self.data_img_path.clone(),
            data_mnt_path: self.data_mnt_path.clone(),
            repo_password: self.repo_password.clone(),
            data_max_bytes: self.data_max_bytes,
            repo_img_path: self.repo_img_path.clone(),
            repo_mnt_path: self.repo_mnt_path.clone(),
            repo_max_bytes: self.repo_max_bytes,
            date_created: self.date_created,
            data_accessed: self.data_accessed,
            repo_accessed: self.repo_accessed,
            locked: self.locked,
        }
    }
}

/// What a backup/restore job does.
#[derive(Clone, Copy, PartialEq, Eq, Structural, Debug)]
pub enum JobType {
    Backup,
    Restore,
}

/// Where a job stands. `NotStarted` exists for completeness; jobs are
/// always inserted directly as `Running`.
#[derive(Clone, Copy, PartialEq, Eq, Structural, Debug)]
pub enum JobStatus {
    NotStarted,
    Running,
    Successful,
    Failed,
}

/// The persisted record of one backup or restore invocation.
#[derive(Debug)]
pub struct RepoJob {
    pub id: Uid,
    pub snapshot_id: Option<String>,
    pub point_owned_by: String,
    pub point_name: String,
    pub job_type: JobType,
    pub job_status: JobStatus,
    pub used_bytes: i64,
    pub total_bytes: Option<i64>,
    pub errors: Vec<String>,
    pub create_date: i64,
    pub end_date: Option<i64>,
}

/// The mathematical value of a [`RepoJob`].
pub ghost struct RepoJobV {
    pub id: u128,
    pub snapshot_id: Option<Seq<char>>,
    pub point_owned_by: Seq<char>,
    pub point_name: Seq<char>,
    pub job_type: JobType,
    pub job_status: JobStatus,
    pub used_bytes: int,
    pub total_bytes: Option<int>,
    pub errors: Seq<Seq<char>>,
    pub create_date: int,
    pub end_date: Option<int>,
}

impl View for RepoJob {
    type V = RepoJobV;

    open spec fn view(&self) -> RepoJobV {
        RepoJobV {
            id: self.id.0,
            snapshot_id: match self.snapshot_id {
                Some(s) => Some(s@),
                None => None,
            },
            point_owned_by: self.point_owned_by@,
            point_name: self.point_name@,
            job_type: self.job_type,
            job_status: self.job_status,
            used_bytes: self.used_bytes as int,
            total_bytes: match self.total_bytes {
                Some(t) => Some(t as int),
                None => None,
            },
            errors: self.errors@.map_values(|e: String| e@),
            create_date: self.create_date as int,
            end_date: match self.end_date {
                Some(t) => Some(t as int),
                None => None,
            },
        }
    }
}

impl RepoJob {
    /// An explicit field-by-field copy, equal to the original in value.
    pub fn duplicate(&self) -> (r: RepoJob)
        ensures
            r@ == self@,
    {
        let snapshot_id = match &self.snapshot_id {
            Some(s) => Some(s.clone()),
            None => None,
        };
        let errors = crate::strutil::dup_strings(&self.errors);
        proof {
            assert(errors@.map_values(|e: String| e@) == self.errors@.map_values(
                |e: String| e@,
            ));
        }
        RepoJob {
            id: self.id,
            snapshot_id,
            point_owned_by: self.point_owned_by.clone(),
            point_name: self.point_name.clone(),
            job_type: self.job_type,
            job_status: self.job_status,
            used_bytes: self.used_bytes,
            total_bytes: self.total_bytes,
            errors,
            create_date: self.create_date,
            end_date: self.end_date,
        }
    }
}

/// A status from which no further transition happens.
pub open spec fn job_terminal(s: JobStatus) -> bool {
    s == JobStatus::Successful || s == JobStatus::Failed
}

/// Well-formedness of a job record: the end timestamp is present exactly
/// on terminal records, and the transferred byte count never goes negative.
pub open spec fn job_wf(j: RepoJobV) -> bool {
    &&& j.end_date is Some <==> job_terminal(j.job_status)
    &&& j.used_bytes >= 0
}

/// A volume whose name, owner and path fields are non-empty and whose
/// ceilings are non-negative.
pub open spec fn mount_ok(m: MountV) -> bool {
    &&& m.mount_name.len() > 0
    &&& m.data_img_path.len() > 0
    &&& m.data_mnt_path.len() > 0
    &&& m.repo_img_path.len() > 0
    &&& m.repo_mnt_path.len() > 0
    &&& m.owned_by.len() > 0
    &&& m.data_max_bytes >= 0
    &&& m.repo_max_bytes >= 0
}

/// `t` is `m` with its name, owner and path fields trimmed and every other
/// field kept.
pub open spec fn mount_trimmed_to(m: MountV, t: MountV) -> bool {
    t == MountV {
        owned_by: trim_spec(m.owned_by),
        mount_name: trim_spec(m.mount_name),
        data_img_path: trim_spec(m.data_img_path),
        data_mnt_path: trim_spec(m.data_mnt_path),
        repo_img_path: trim_spec(m.repo_img_path),
        repo_mnt_path: trim_spec(m.repo_mnt_path),
        ..m
    }
}

impl CleanValidate for Mount {
    fn validate(self) -> (r: Result<Self, ValidateError>)
        ensures
            r matches Ok(t) ==> mount_trimmed_to(self@, t@) && mount_ok(t@),
            r is Ok <==> ({
                &&& trim_spec(self.mount_name@).len() > 0
                &&& trim_spec(self.data_img_path@).len() > 0
                &&& trim_spec(self.data_mnt_path@).len() > 0
                &&& trim_spec(self.repo_img_path@).len() > 0
                &&& trim_spec(self.repo_mnt_path@).len() > 0
                &&& trim_spec(self.owned_by@).len() > 0
                &&& self.data_max_bytes >= 0
                &&& self.repo_max_bytes >= 0
            }),
            r is Err ==> r->Err_0 is ValueRequired || r->Err_0 is OutOfRange,
            trim_spec(self.mount_name@).len() == 0 ==> (r matches Err(
                ValidateError::ValueRequired(m),
            ) && m@ == "You must enter a name!"@),
            trim_spec(self.mount_name@).len() > 0 && trim_spec(self.data_img_path@).len() == 0
                ==> (r matches Err(ValidateError::ValueRequired(m)) && m@
                == "You must enter a data image path!"@),
            trim_spec(self.mount_name@).len() > 0 && trim_spec(self.data_img_path@).len() > 0
                && trim_spec(self.data_mnt_path@).len() == 0 ==> (r matches Err(
                ValidateError::ValueRequired(m),
            ) && m@ == "You must enter a data mount path!"@),
            trim_spec(self.mount_name@).len() > 0 && trim_spec(self.data_img_path@).len() > 0
                && trim_spec(self.data_mnt_path@).len() > 0 && trim_spec(
                self.repo_img_path@,
            ).len() == 0 ==> (r matches Err(ValidateError::ValueRequired(m)) && m@
                == "You must enter a repo image path!"@),
    {
        let mount_name = String::from_str(trim_str(self.mount_name.as_str()));
        let owned_by = String::from_str(trim_str(self.owned_by.as_str()));
        let data_img_path = String::from_str(trim_str(self.data_img_path.as_str()));
        let data_mnt_path = String::from_str(trim_str(self.data_mnt_path.as_str()));
        let repo_img_path = String::from_str(trim_str(self.repo_img_path.as_str()));
        let repo_mnt_path = String::from_str(trim_str(self.repo_mnt_path.as_str()));
        if mount_name.as_str().unicode_len() == 0 {
            return Err(ValidateError::ValueRequired(String::from_str("You must enter a name!")));
        }
        if data_img_path.as_str().unicode_len() == 0 {
            return Err(ValidateError::ValueRequired(
                String::from_str("You must enter a data image path!"),
            ));
        }
        if data_mnt_path.as_str().unicode_len() == 0 {
            return Err(ValidateError::ValueRequired(
                String::from_str("You must enter a data mount path!"),
            ));
        }
        if repo_img_path.as_str().unicode_len() == 0 {
            return Err(ValidateError::ValueRequired(
                String::from_str("You must enter a repo image path!"),
            ));
        }
        if repo_mnt_path.as_str().unicode_len() == 0 {
            return Err(ValidateError::ValueRequired(
                String::from_str("You must enter a repo mount path!"),
            ));
        }
        if owned_by.as_str().unicode_len() == 0 {
            return Err(ValidateError::ValueRequired(String::from_str("You must enter an owner!")));
        }
        if self.data_max_bytes < 0 {
            return Err(ValidateError::OutOfRange(
                String::from_str("Max data bytes must be greater than zero!"),
            ));
        }
        if self.repo_max_bytes < 0 {
            return Err(ValidateError::OutOfRange(
                String::from_str("Max repo bytes must be greater than zero!"),
            ));
        }
        Ok(Mount { owned_by, mount_name, data_img_path, data_mnt_path, repo_img_path, repo_mnt_path, ..self })
    }
}

} // verus!
