//! The quota guard: ceilings are enforced with the boundary case allowed.

use neptis::hash::EncodedHash;
use neptis::mounts::Mount;
use neptis::quota::{check_class_aggregate, ensure_single_limit, ensure_user_limit};
use neptis::users::User;

fn user(max_data: i64, max_snap: i64) -> User {
    User {
        user_name: "alice".to_string(),
        first_name: "Alice".to_string(),
        last_name: "A".to_string(),
        password_hash: EncodedHash::hash("pw"),
        create_date: 0,
        is_admin: false,
        max_data_bytes: max_data,
        max_snapshot_bytes: max_snap,
    }
}

fn vol(name: &str, data_max: i64, repo_max: i64) -> Mount {
    Mount {
        owned_by: "alice".to_string(),
        mount_name: name.to_string(),
        data_img_path: format!("/srv/{name}-DATA.img"),
        data_mnt_path: format!("/srv/{name}-DATA"),
        repo_password: "pw".to_string(),
        data_max_bytes: data_max,
        repo_img_path: format!("/srv/{name}-REPO.img"),
        repo_mnt_path: format!("/srv/{name}-REPO"),
        repo_max_bytes: repo_max,
        date_created: 0,
        data_accessed: 0,
        repo_accessed: 0,
        locked: false,
    }
}

#[test]
fn single_limit_allows_the_boundary() {
    let u = user(100, 50);
    assert!(ensure_single_limit(&u, 100, true).is_ok());
    assert!(ensure_single_limit(&u, 101, true).is_err());
    assert!(ensure_single_limit(&u, 50, false).is_ok());
    assert!(ensure_single_limit(&u, 51, false).is_err());
}

#[test]
fn pair_limit_requires_both_classes() {
    let u = user(100, 50);
    assert!(ensure_user_limit(&u, 100, 50).is_ok());
    assert!(ensure_user_limit(&u, 101, 50).is_err());
    assert!(ensure_user_limit(&u, 100, 51).is_err());
    assert!(ensure_user_limit(&u, 0, 0).is_ok());
}

#[test]
fn aggregate_spans_all_volumes() {
    let u = user(30_000_000, 30_000_000);
    let mounts = vec![vol("a", 10_000_000, 5_000_000), vol("b", 10_000_000, 5_000_000)];
    // 20M allocated; 10M more hits the ceiling exactly.
    assert!(check_class_aggregate(&u, &mounts, 10_000_000, true).is_ok());
    assert!(check_class_aggregate(&u, &mounts, 10_000_001, true).is_err());
    // Shrinking always passes the quota check.
    assert!(check_class_aggregate(&u, &mounts, -5_000_000, true).is_ok());
    // Repository class counts its own ceiling.
    assert!(check_class_aggregate(&u, &mounts, 20_000_000, false).is_ok());
    assert!(check_class_aggregate(&u, &mounts, 20_000_001, false).is_err());
}
