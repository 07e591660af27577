//! The job orchestrator: launch, progress relay and the terminal write.

use neptis::hash::EncodedHash;
use neptis::jobs::{
    finish_backup, finish_restore, handle_progress_update, start_backup, start_full_restore,
    JobLaunchInfo, SendUpdate,
};
use neptis::mount_actions::{backup_mount, get_all_jobs};
use neptis::mount_dtos::PostForBackupApi;
use neptis::mounts::{JobStatus, JobType, Mount};
use neptis::store::Store;
use neptis::users::User;

fn launch() -> JobLaunchInfo {
    JobLaunchInfo {
        point_owned_by: "alice".to_string(),
        point_name: "backup1".to_string(),
        repo_path: "/srv/repo/backup1-alice-REPO/repo".to_string(),
        repo_pass: "pw".to_string(),
    }
}

fn alice() -> User {
    User {
        user_name: "alice".to_string(),
        first_name: "Alice".to_string(),
        last_name: "A".to_string(),
        password_hash: EncodedHash::hash("pw"),
        create_date: 0,
        is_admin: false,
        max_data_bytes: 50_000_000,
        max_snapshot_bytes: 50_000_000,
    }
}

fn vol() -> Mount {
    Mount {
        owned_by: "alice".to_string(),
        mount_name: "backup1".to_string(),
        data_img_path: "/srv/data/backup1-alice-DATA.img".to_string(),
        data_mnt_path: "/srv/data/backup1-alice-DATA".to_string(),
        repo_password: "pw".to_string(),
        data_max_bytes: 10_000_000,
        repo_img_path: "/srv/repo/backup1-alice-REPO.img".to_string(),
        repo_mnt_path: "/srv/repo/backup1-alice-REPO".to_string(),
        repo_max_bytes: 10_000_000,
        date_created: 0,
        data_accessed: 0,
        repo_accessed: 0,
        locked: false,
    }
}

#[test]
fn a_new_job_is_running_with_zero_bytes_and_no_end() {
    let mut store = Store::new();
    let id = start_backup(&mut store, &launch(), 500).unwrap();
    let job = &store.repo_jobs[0];
    assert_eq!(job.id, id);
    assert_eq!(job.job_status, JobStatus::Running);
    assert_eq!(job.job_type, JobType::Backup);
    assert_eq!(job.used_bytes, 0);
    assert!(job.total_bytes.is_none());
    assert!(job.end_date.is_none());
    assert!(job.errors.is_empty());
    assert_eq!(job.create_date, 500);
}

#[test]
fn a_restore_carries_its_snapshot_from_the_start() {
    let mut store = Store::new();
    let _ = start_full_restore(&mut store, &launch(), "snap-7", 500).unwrap();
    let job = &store.repo_jobs[0];
    assert_eq!(job.job_type, JobType::Restore);
    assert_eq!(job.snapshot_id.as_deref(), Some("snap-7"));
    assert_eq!(job.job_status, JobStatus::Running);
}

#[test]
fn progress_is_monotone_until_the_terminal_write() {
    let mut store = Store::new();
    let id = start_backup(&mut store, &launch(), 500).unwrap();
    handle_progress_update(&mut store, id, &SendUpdate::Increment(100)).unwrap();
    assert_eq!(store.repo_jobs[0].used_bytes, 100);
    handle_progress_update(&mut store, id, &SendUpdate::Increment(50)).unwrap();
    assert_eq!(store.repo_jobs[0].used_bytes, 150);
    handle_progress_update(&mut store, id, &SendUpdate::LengthSet(1000)).unwrap();
    assert_eq!(store.repo_jobs[0].total_bytes, Some(1000));
    assert_eq!(store.repo_jobs[0].used_bytes, 150);
    handle_progress_update(&mut store, id, &SendUpdate::TitleSet("indexing".to_string()))
        .unwrap();
    assert_eq!(store.repo_jobs[0].used_bytes, 150);
    assert_eq!(store.repo_jobs[0].job_status, JobStatus::Running);
    assert!(store.repo_jobs[0].end_date.is_none());
    finish_backup(&mut store, id, Ok(("snap-1".to_string(), Some(12345))), 900).unwrap();
    let job = &store.repo_jobs[0];
    assert_eq!(job.job_status, JobStatus::Successful);
    assert_eq!(job.snapshot_id.as_deref(), Some("snap-1"));
    assert_eq!(job.used_bytes, 12345);
    assert_eq!(job.end_date, Some(900));
}

#[test]
fn a_failed_backup_appends_its_error_durably() {
    let mut store = Store::new();
    let id = start_backup(&mut store, &launch(), 500).unwrap();
    finish_backup(&mut store, id, Err("engine failed".to_string()), 900).unwrap();
    let job = &store.repo_jobs[0];
    assert_eq!(job.job_status, JobStatus::Failed);
    assert_eq!(job.errors, vec!["engine failed".to_string()]);
    assert_eq!(job.end_date, Some(900));
    assert!(job.snapshot_id.is_none());
}

#[test]
fn a_finished_restore_is_terminal_either_way() {
    let mut store = Store::new();
    let ok_id = start_full_restore(&mut store, &launch(), "s", 500).unwrap();
    finish_restore(&mut store, ok_id, Ok(()), 600).unwrap();
    assert_eq!(store.repo_jobs[0].job_status, JobStatus::Successful);
    assert_eq!(store.repo_jobs[0].end_date, Some(600));
    let bad_id = start_full_restore(&mut store, &launch(), "s", 700).unwrap();
    finish_restore(&mut store, bad_id, Err("missing snapshot".to_string()), 800).unwrap();
    assert_eq!(store.repo_jobs[1].job_status, JobStatus::Failed);
    assert_eq!(store.repo_jobs[1].end_date, Some(800));
}

#[test]
fn progress_for_an_unknown_job_changes_nothing() {
    let mut store = Store::new();
    let id = start_backup(&mut store, &launch(), 500).unwrap();
    let bogus = neptis::ids::Uid(id.0 ^ 1);
    assert!(handle_progress_update(&mut store, bogus, &SendUpdate::Increment(7)).is_err());
    assert_eq!(store.repo_jobs[0].used_bytes, 0);
}

#[test]
fn backup_mount_returns_a_queryable_running_job() {
    let mut store = Store::new();
    let user = alice();
    store.insert_mount(vol());
    let dto = PostForBackupApi {
        point_user: "alice".to_string(),
        point_name: "backup1".to_string(),
        tags: None,
        dry_run: false,
    };
    let (job_dto, info) = backup_mount(&mut store, &user, &dto, 500).unwrap();
    assert_eq!(job_dto.job_status, JobStatus::Running);
    assert_eq!(job_dto.used_bytes, 0);
    assert!(job_dto.end_date.is_none());
    assert_eq!(info.repo_path, "/srv/repo/backup1-alice-REPO/repo");
    assert_eq!(info.repo_pass, "pw");
    let listed = get_all_jobs(&store, &user, "backup1").unwrap();
    assert_eq!(listed.len(), 1);
    assert_eq!(listed[0].id, job_dto.id);
}

#[test]
fn backup_of_a_missing_volume_is_a_lookup_failure() {
    let mut store = Store::new();
    let user = alice();
    let dto = PostForBackupApi {
        point_user: "alice".to_string(),
        point_name: "nope".to_string(),
        tags: None,
        dry_run: false,
    };
    assert!(backup_mount(&mut store, &user, &dto, 500).is_err());
}
