//! Path resolution: the virtual `data`/`repo` namespace and its
//! read/write classification.

use neptis::mounts::Mount;
use neptis::paths::{from_rel_s2, stage_user_s2, to_rel_s2};

fn vol(owner: &str, name: &str) -> Mount {
    Mount {
        owned_by: owner.to_string(),
        mount_name: name.to_string(),
        data_img_path: "/srv/data/v-DATA.img".to_string(),
        data_mnt_path: "/srv/data/v-DATA".to_string(),
        repo_password: "pw".to_string(),
        data_max_bytes: 10_000_000,
        repo_img_path: "/srv/repo/v-REPO.img".to_string(),
        repo_mnt_path: "/srv/repo/v-REPO".to_string(),
        repo_max_bytes: 10_000_000,
        date_created: 0,
        data_accessed: 0,
        repo_accessed: 0,
        locked: false,
    }
}

#[test]
fn data_subpath_is_writable() {
    let m = vol("alice", "vol");
    let (phys, rw) = from_rel_s2("data/docs/a.txt", &m).unwrap();
    assert_eq!(phys, "/srv/data/v-DATA/docs/a.txt");
    assert!(rw);
}

#[test]
fn bare_data_is_writable() {
    let m = vol("alice", "vol");
    let (phys, rw) = from_rel_s2("data", &m).unwrap();
    assert_eq!(phys, "/srv/data/v-DATA");
    assert!(rw);
}

#[test]
fn bare_repo_is_read_only() {
    let m = vol("alice", "vol");
    let (phys, rw) = from_rel_s2("repo", &m).unwrap();
    assert_eq!(phys, "/srv/repo/v-REPO/repo-mnt");
    assert!(!rw);
}

#[test]
fn repo_subpath_is_writable() {
    let m = vol("alice", "vol");
    let (phys, rw) = from_rel_s2("repo/x", &m).unwrap();
    assert_eq!(phys, "/srv/repo/v-REPO/repo-mnt/x");
    assert!(rw);
}

#[test]
fn slashes_are_stripped_once() {
    let m = vol("alice", "vol");
    let (phys, rw) = from_rel_s2("/data/x/", &m).unwrap();
    assert_eq!(phys, "/srv/data/v-DATA/x");
    assert!(rw);
}

#[test]
fn empty_path_is_rejected() {
    let m = vol("alice", "vol");
    assert!(from_rel_s2("", &m).is_err());
    assert!(from_rel_s2("/", &m).is_err());
}

#[test]
fn unknown_prefix_is_rejected() {
    let m = vol("alice", "vol");
    assert!(from_rel_s2("bogus/x", &m).is_err());
    assert!(from_rel_s2("bogus", &m).is_err());
}

#[test]
fn to_rel_maps_back_into_the_namespace() {
    let m = vol("alice", "vol");
    assert_eq!(to_rel_s2("/srv/data/v-DATA/docs", &m).unwrap(), "/data/docs");
    assert_eq!(to_rel_s2("/srv/repo/v-REPO/repo-mnt/x", &m).unwrap(), "/repo/x");
    assert!(to_rel_s2("/elsewhere", &m).is_err());
    assert!(to_rel_s2("", &m).is_err());
}

#[test]
fn stage_picks_the_named_volume() {
    let mounts = vec![vol("alice", "a"), vol("alice", "b")];
    let (m, rest) = stage_user_s2("/b/data/x", &mounts).unwrap();
    assert_eq!(m.mount_name, "b");
    assert_eq!(rest, "data/x");
}

#[test]
fn stage_rejects_unknown_volume_and_bare_names() {
    let mounts = vec![vol("alice", "a")];
    assert!(stage_user_s2("/c/data/x", &mounts).is_err());
    assert!(stage_user_s2("/a", &mounts).is_err());
    assert!(stage_user_s2("", &mounts).is_err());
}
