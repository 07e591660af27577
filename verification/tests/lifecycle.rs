//! The volume lifecycle: provision-or-resize decisions, mount plans and
//! deletion.

use neptis::errors::NeptisError;
use neptis::hash::EncodedHash;
use neptis::hostinfo::MountStats;
use neptis::lifecycle::{
    confirm_mounted, delete_one_mount, ensure_point_mounted_plan, put_mount_commit_provision,
    put_mount_commit_resize, put_mount_plan, HostCmd, HostEnv, MountObs, PutMountObs, PutMountPlan,
    ResizeObs,
};
use neptis::mount_dtos::PutForMountApi;
use neptis::mounts::Mount;
use neptis::store::Store;
use neptis::users::User;

fn alice(quota: i64) -> User {
    User {
        user_name: "alice".to_string(),
        first_name: "Alice".to_string(),
        last_name: "A".to_string(),
        password_hash: EncodedHash::hash("pw"),
        create_date: 0,
        is_admin: false,
        max_data_bytes: quota,
        max_snapshot_bytes: quota,
    }
}

fn stats(path: &str, used: usize, avail: usize) -> MountStats {
    MountStats { path: path.to_string(), b_total: used + avail, b_used: used, b_avail: avail }
}

fn env() -> HostEnv {
    HostEnv {
        data_path: "/srv/data".to_string(),
        repo_path: "/srv/repo".to_string(),
        d_sys: stats("/srv/data", 0, 1_000_000_000),
        r_sys: stats("/srv/repo", 0, 1_000_000_000),
    }
}

fn resize_obs(d_used: usize, r_used: usize) -> ResizeObs {
    ResizeObs {
        d_stats: stats("/mnt/d", d_used, 1_000_000_000),
        r_stats: stats("/mnt/r", r_used, 1_000_000_000),
        d_block_size: 4096,
        r_block_size: 4096,
        scratch_data: "/srv/data/scratch-1".to_string(),
        scratch_repo: "/srv/data/scratch-2".to_string(),
    }
}

fn provision_backup1(store: &mut Store, user: &User) -> Mount {
    let dto = PutForMountApi { data_bytes: 10_000_000, repo_bytes: 10_000_000 };
    let plan = put_mount_plan(store, user, "backup1", &dto, &env(), &PutMountObs::Fresh, 1000)
        .unwrap();
    match plan {
        PutMountPlan::Provision { mount, cmds } => {
            assert_eq!(cmds.len(), 8);
            let copy = mount.duplicate();
            put_mount_commit_provision(store, mount).unwrap();
            copy
        },
        _ => panic!("expected a provision plan"),
    }
}

#[test]
fn provision_persists_the_row() {
    // A 10MB/10MB volume fits a 50MB/50MB quota and is created.
    let mut store = Store::new();
    let user = alice(50_000_000);
    let mount = provision_backup1(&mut store, &user);
    assert_eq!(mount.owned_by, "alice");
    assert_eq!(mount.mount_name, "backup1");
    assert_eq!(mount.data_img_path, "/srv/data/backup1-alice-DATA.img");
    assert_eq!(mount.data_mnt_path, "/srv/data/backup1-alice-DATA");
    assert_eq!(mount.repo_img_path, "/srv/repo/backup1-alice-REPO.img");
    assert_eq!(mount.repo_mnt_path, "/srv/repo/backup1-alice-REPO");
    assert_eq!(mount.repo_password.chars().count(), 8);
    assert!(!mount.locked);
    assert_eq!(store.mounts.len(), 1);
}

#[test]
fn second_call_for_the_same_name_is_a_resize() {
    // The "upsert": a second call for a taken name resizes, never
    // duplicates the row.
    let mut store = Store::new();
    let user = alice(50_000_000);
    let _ = provision_backup1(&mut store, &user);
    let dto = PutForMountApi { data_bytes: 20_000_000, repo_bytes: 12_000_000 };
    let obs = PutMountObs::Existing(resize_obs(1_000_000, 1_000_000));
    let plan = put_mount_plan(&store, &user, "backup1", &dto, &env(), &obs, 2000).unwrap();
    match plan {
        PutMountPlan::Resize { idx, cmds, new_data, new_repo } => {
            assert_eq!(idx, 0);
            assert_eq!(new_data, 20_000_000);
            assert_eq!(new_repo, 12_000_000);
            // Both classes grow: 9 commands for data, 10 for the
            // repository image (its view is unmounted first).
            assert_eq!(cmds.len(), 19);
            assert!(matches!(cmds[0], HostCmd::CreateDirAll(_)));
            put_mount_commit_resize(&mut store, "alice", "backup1", new_data, new_repo, 2000)
                .unwrap();
        },
        _ => panic!("expected a resize plan"),
    }
    assert_eq!(store.mounts.len(), 1);
    assert_eq!(store.mounts[0].data_max_bytes, 20_000_000);
    assert_eq!(store.mounts[0].repo_max_bytes, 12_000_000);
    assert_eq!(store.mounts[0].data_accessed, 2000);
}

#[test]
fn noop_resize_is_refused() {
    // Equal ceilings on both classes: nothing to change is an error.
    let mut store = Store::new();
    let user = alice(50_000_000);
    let _ = provision_backup1(&mut store, &user);
    let dto = PutForMountApi { data_bytes: 10_000_000, repo_bytes: 10_000_000 };
    let obs = PutMountObs::Existing(resize_obs(0, 0));
    let before = store.mounts[0].duplicate();
    let r = put_mount_plan(&store, &user, "backup1", &dto, &env(), &obs, 2000);
    match r {
        Err(NeptisError::BadRequest(m)) => assert_eq!(m, "No modification is necessary"),
        _ => panic!("expected the no-op refusal"),
    }
    assert_eq!(store.mounts[0].data_max_bytes, before.data_max_bytes);
}

#[test]
fn shrink_below_used_is_refused() {
    // 9MB used: shrinking the data class to 6MB must fail before any
    // physical step, leaving the store untouched.
    let mut store = Store::new();
    let user = alice(50_000_000);
    let _ = provision_backup1(&mut store, &user);
    let dto = PutForMountApi { data_bytes: 6_000_000, repo_bytes: 12_000_000 };
    let obs = PutMountObs::Existing(resize_obs(9_000_000, 0));
    let r = put_mount_plan(&store, &user, "backup1", &dto, &env(), &obs, 2000);
    match r {
        Err(NeptisError::BadRequest(m)) => {
            assert_eq!(m, "Not enough free space to shrink. Please delete files and try again")
        },
        _ => panic!("expected the shrink refusal"),
    }
    assert_eq!(store.mounts[0].data_max_bytes, 10_000_000);
}

#[test]
fn quota_refuses_resize_beyond_ceiling() {
    let mut store = Store::new();
    let user = alice(15_000_000);
    let _ = provision_backup1(&mut store, &user);
    let dto = PutForMountApi { data_bytes: 15_000_001, repo_bytes: 10_000_001 };
    let obs = PutMountObs::Existing(resize_obs(0, 0));
    let r = put_mount_plan(&store, &user, "backup1", &dto, &env(), &obs, 2000);
    match r {
        Err(NeptisError::BadRequest(m)) => assert_eq!(m, "Not enough space on your account!"),
        _ => panic!("expected the quota refusal"),
    }
}

#[test]
fn allocation_floor_applies_to_both_classes() {
    let store = Store::new();
    let user = alice(50_000_000);
    let dto = PutForMountApi { data_bytes: 5_000_000, repo_bytes: 10_000_000 };
    assert!(put_mount_plan(&store, &user, "v", &dto, &env(), &PutMountObs::Fresh, 0).is_err());
    let dto = PutForMountApi { data_bytes: 10_000_000, repo_bytes: 5_000_000 };
    assert!(put_mount_plan(&store, &user, "v", &dto, &env(), &PutMountObs::Fresh, 0).is_err());
}

#[test]
fn provision_over_quota_is_refused() {
    let store = Store::new();
    let user = alice(8_000_000);
    let dto = PutForMountApi { data_bytes: 10_000_000, repo_bytes: 10_000_000 };
    let r = put_mount_plan(&store, &user, "v", &dto, &env(), &PutMountObs::Fresh, 0);
    match r {
        Err(NeptisError::BadRequest(m)) => assert_eq!(m, "Not enough space on your account!"),
        _ => panic!("expected the quota refusal"),
    }
}

fn mounted_obs(m: &Mount) -> MountObs {
    MountObs {
        data_img_exists: true,
        repo_img_exists: true,
        data_mnt_exists: true,
        repo_mnt_exists: true,
        mount_table: format!(
            "{} on {} type ext4 (rw)\n{} on {} type ext4 (rw)",
            m.data_img_path, m.data_mnt_path, m.repo_img_path, m.repo_mnt_path
        ),
        repo_dir_exists: true,
        repo_view_exists: true,
        repo_view_nonempty: true,
    }
}

#[test]
fn ensure_mounted_twice_plans_nothing() {
    // Idempotence: over a fully mounted volume the plan is empty, so a
    // second run attempts no duplicate mount.
    let mut store = Store::new();
    let user = alice(50_000_000);
    let m = provision_backup1(&mut store, &user);
    let obs = mounted_obs(&m);
    let plan1 = ensure_point_mounted_plan(&m, true, &obs).unwrap();
    assert!(plan1.is_empty());
    let plan2 = ensure_point_mounted_plan(&m, true, &obs).unwrap();
    assert!(plan2.is_empty());
    assert!(confirm_mounted(&m, true, &obs).is_ok());
}

#[test]
fn unmounted_volume_gets_mount_commands() {
    let mut store = Store::new();
    let user = alice(50_000_000);
    let m = provision_backup1(&mut store, &user);
    let obs = MountObs {
        data_img_exists: true,
        repo_img_exists: true,
        data_mnt_exists: false,
        repo_mnt_exists: false,
        mount_table: "".to_string(),
        repo_dir_exists: true,
        repo_view_exists: false,
        repo_view_nonempty: false,
    };
    let plan = ensure_point_mounted_plan(&m, true, &obs).unwrap();
    let mounts = plan
        .iter()
        .filter(|c| matches!(c, HostCmd::Mount { .. }))
        .count();
    assert_eq!(mounts, 2);
    assert!(plan.iter().any(|c| matches!(c, HostCmd::SpawnRepoViewMount { .. })));
    assert!(confirm_mounted(&m, true, &obs).is_err());
}

#[test]
fn missing_image_is_corruption() {
    let mut store = Store::new();
    let user = alice(50_000_000);
    let m = provision_backup1(&mut store, &user);
    let mut obs = mounted_obs(&m);
    obs.data_img_exists = false;
    match ensure_point_mounted_plan(&m, false, &obs) {
        Err(NeptisError::InternalError(msg)) => assert_eq!(msg, "Point is corrupted"),
        _ => panic!("expected corruption"),
    }
}

#[test]
fn delete_refuses_locked_volumes() {
    let mut store = Store::new();
    let user = alice(50_000_000);
    let _ = provision_backup1(&mut store, &user);
    store.mounts[0].locked = true;
    match delete_one_mount(&mut store, &user, "backup1", "") {
        Err(NeptisError::InternalError(m)) => assert_eq!(m, "The point is currently locked"),
        _ => panic!("expected the lock refusal"),
    }
    assert_eq!(store.mounts.len(), 1);
}

#[test]
fn delete_removes_the_row_first_and_plans_teardown() {
    let mut store = Store::new();
    let user = alice(50_000_000);
    let m = provision_backup1(&mut store, &user);
    let table = format!("{} on {} type ext4 (rw)", m.data_img_path, m.data_mnt_path);
    let (gone, plan) = delete_one_mount(&mut store, &user, "backup1", &table).unwrap();
    assert_eq!(gone.mount_name, "backup1");
    assert_eq!(store.mounts.len(), 0);
    // Data image was mounted: unmount, remove dir, remove file; the
    // repository image was not mounted: remove dir, remove file.
    assert_eq!(plan.len(), 5);
    assert!(matches!(&plan[0], HostCmd::Umount(p) if *p == m.data_mnt_path));
    assert!(matches!(&plan[4], HostCmd::RemoveFile(p) if *p == m.repo_img_path));
}

#[test]
fn delete_of_a_missing_volume_is_a_lookup_failure() {
    let mut store = Store::new();
    let user = alice(50_000_000);
    assert!(matches!(
        delete_one_mount(&mut store, &user, "nope", ""),
        Err(NeptisError::DbQuery(_))
    ));
}

#[test]
fn volume_lookup_and_listing_follow_ownership() {
    let mut store = Store::new();
    let user = alice(50_000_000);
    let _ = provision_backup1(&mut store, &user);
    let mine = neptis::mount_actions::get_all_mounts_for_user(&store, &user);
    assert_eq!(mine.len(), 1);
    let one = neptis::mount_actions::get_one_mount(&store, &user, "backup1").unwrap();
    assert_eq!(one.mount_name, "backup1");
    assert!(neptis::mount_actions::get_one_mount(&store, &user, "nope").is_err());
    let mut stranger = alice(0);
    stranger.user_name = "mallory".to_string();
    assert!(neptis::mount_actions::get_all_mounts_for_user(&store, &stranger).is_empty());
}

#[test]
fn volume_reports_hide_other_owners() {
    let mut store = Store::new();
    let user = alice(50_000_000);
    let m = provision_backup1(&mut store, &user);
    let dto =
        neptis::mount_dtos::MountDto::try_to_dto(&user, m.duplicate(), Some(5), None).unwrap();
    assert_eq!(dto.name, "backup1");
    assert_eq!(dto.data_used_bytes, Some(5));
    let mut stranger = alice(0);
    stranger.user_name = "mallory".to_string();
    assert!(matches!(
        neptis::mount_dtos::MountDto::try_to_dto(&stranger, m, None, None),
        Err(NeptisError::Unauthorized(_))
    ));
}

#[test]
fn commit_provision_validates_and_refuses_duplicates() {
    let mut store = Store::new();
    let user = alice(50_000_000);
    let first = provision_backup1(&mut store, &user);
    assert!(matches!(
        put_mount_commit_provision(&mut store, first),
        Err(NeptisError::DbQuery(_))
    ));
    let mut nameless = provision_backup1_plan_only(&user);
    nameless.mount_name = "  ".to_string();
    assert!(matches!(
        put_mount_commit_provision(&mut store, nameless),
        Err(NeptisError::Validation(_))
    ));
    assert_eq!(store.mounts.len(), 1);
}

fn provision_backup1_plan_only(user: &User) -> Mount {
    let store = Store::new();
    let dto = PutForMountApi { data_bytes: 10_000_000, repo_bytes: 10_000_000 };
    match put_mount_plan(&store, user, "backup1", &dto, &env(), &PutMountObs::Fresh, 1000).unwrap()
    {
        PutMountPlan::Provision { mount, .. } => mount,
        _ => panic!("expected a provision plan"),
    }
}
