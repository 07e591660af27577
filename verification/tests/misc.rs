//! Encryption, file-operation checks, browse filters, rolling secrets
//! and the route tables.

use neptis::crypto::{decrypt, encrypt};
use neptis::files::{
    browse_base_path, browse_filter_push, browse_roots, delete_file_target, is_reserved_listing,
    node_path_present, post_file_checks, put_file_checks, put_file_payload, resolve_writable,
    PostFileAction,
};
use neptis::mount_dtos::{NodeDto, PostForFileApi, PutForFileApi};
use neptis::mounts::Mount;
use neptis::secret::RollingSecret;

fn vol() -> Mount {
    Mount {
        owned_by: "alice".to_string(),
        mount_name: "vol".to_string(),
        data_img_path: "/srv/data/v-DATA.img".to_string(),
        data_mnt_path: "/srv/data/v-DATA".to_string(),
        repo_password: "pw".to_string(),
        data_max_bytes: 10_000_000,
        repo_img_path: "/srv/repo/v-REPO.img".to_string(),
        repo_mnt_path: "/srv/repo/v-REPO".to_string(),
        repo_max_bytes: 10_000_000,
        date_created: 0,
        data_accessed: 77,
        repo_accessed: 0,
        locked: false,
    }
}

#[test]
fn aes_round_trips_under_a_32_byte_key() {
    let key = [3u8; 32];
    let ct = encrypt(&key, b"attack at dawn").unwrap();
    assert_eq!(ct.len(), 16 + 16);
    assert_ne!(&ct[16..], b"attack at dawn".as_slice());
    assert_eq!(decrypt(&key, &ct).unwrap(), b"attack at dawn");
    assert!(decrypt(&[4u8; 32], &ct).map_or(true, |p| p.as_slice() != b"attack at dawn"));
    assert!(encrypt(&[1u8; 7], b"x").is_none());
    assert!(decrypt(&key, b"short").is_none());
}

#[test]
fn file_create_checks_guard_existing_targets() {
    let mk = |is_dir: bool, base64: Option<&str>| PostForFileApi {
        path: "/vol/data/f".to_string(),
        is_dir,
        base64: base64.map(|s| s.to_string()),
        offset: None,
    };
    assert!(post_file_checks(&mk(false, None), true).is_err());
    assert!(post_file_checks(&mk(true, Some("aGVsbG8=")), false).is_err());
    assert!(matches!(post_file_checks(&mk(true, None), false), Ok(PostFileAction::MakeDir)));
    match post_file_checks(&mk(false, Some("aGVsbG8=")), false) {
        Ok(PostFileAction::WriteNew(v)) => assert_eq!(v, b"hello"),
        _ => panic!("expected a write action"),
    }
    match post_file_checks(&mk(false, None), false) {
        Ok(PostFileAction::WriteNew(v)) => assert!(v.is_empty()),
        _ => panic!("expected an empty write action"),
    }
}

#[test]
fn file_update_checks_guard_missing_targets() {
    let dto = PutForFileApi {
        path: "/vol/data/f".to_string(),
        base64: Some("aGVsbG8=".to_string()),
        new_path: None,
        offset: None,
        attr: None,
    };
    assert!(put_file_checks(&dto, false, false).is_err());
    assert!(put_file_checks(&dto, true, true).is_err());
    assert!(put_file_checks(&dto, true, false).is_ok());
    assert_eq!(put_file_payload(&dto).unwrap(), b"hello");
}

#[test]
fn writable_resolution_refuses_the_bare_repository() {
    let mounts = vec![vol()];
    assert!(resolve_writable(&mounts, "/vol/repo").is_err());
    assert_eq!(resolve_writable(&mounts, "/vol/data/x").unwrap(), "/srv/data/v-DATA/x");
    assert!(delete_file_target(&mounts, "/vol/repo/").is_err());
    assert_eq!(delete_file_target(&mounts, "/vol/data/x").unwrap(), "/srv/data/v-DATA/x");
}

#[test]
fn browse_roots_respect_subtree_and_depth() {
    let m = vol();
    let all = browse_roots(&m, "/", 2);
    let paths: Vec<&str> = all.iter().map(|n| n.path.as_str()).collect();
    assert_eq!(paths, vec!["/vol", "/vol/repo", "/vol/data"]);
    assert!(all.iter().all(|n| n.is_dir && n.bytes == 0 && n.atime == 77));
    let shallow = browse_roots(&m, "/", 1);
    let paths: Vec<&str> = shallow.iter().map(|n| n.path.as_str()).collect();
    assert_eq!(paths, vec!["/vol"]);
    let scoped = browse_roots(&m, "/vol/data", 2);
    let paths: Vec<&str> = scoped.iter().map(|n| n.path.as_str()).collect();
    assert_eq!(paths, vec!["/vol/data"]);
}

#[test]
fn browse_filter_deduplicates_and_scopes() {
    let node = |p: &str| NodeDto {
        path: p.to_string(),
        atime: 0,
        ctime: 0,
        mtime: 0,
        is_dir: false,
        bytes: 1,
    };
    let mut out = Vec::new();
    browse_filter_push(&mut out, node("/vol/data/a"), "/vol", 3);
    browse_filter_push(&mut out, node("/vol/data/a"), "/vol", 3);
    browse_filter_push(&mut out, node("/other/data/a"), "/vol", 3);
    browse_filter_push(&mut out, node("/vol/data/deep/deep/deep"), "/vol", 3);
    assert_eq!(out.len(), 1);
    assert!(node_path_present(&out, "/vol/data/a"));
    assert!(!node_path_present(&out, "/other/data/a"));
    assert!(is_reserved_listing("/data/lost+found/x"));
    assert!(!is_reserved_listing("/data/docs"));
}

#[test]
fn browse_base_paths_follow_the_two_branches() {
    let m = vol();
    assert_eq!(browse_base_path(&m, "repo"), "/srv/repo/v-REPO/repo-mnt");
    assert_eq!(browse_base_path(&m, "repo/x"), "/srv/repo/v-REPO/repo-mnt/x");
    assert_eq!(browse_base_path(&m, "data"), "/srv/data/v-DATA");
    assert_eq!(browse_base_path(&m, "data/x/y"), "/srv/data/v-DATA/x/y");
    assert_eq!(browse_base_path(&m, ""), "/srv/data/v-DATA");
    assert_eq!(browse_base_path(&m, "other"), "/srv/data/v-DATA/other");
}

#[test]
fn node_metadata_clamps_times_to_the_epoch() {
    let n = NodeDto::from_metadata("/vol/data/f", -5, 10, 20, false, 42);
    assert_eq!(n.atime, 0);
    assert_eq!(n.ctime, 10);
    assert_eq!(n.mtime, 20);
    assert_eq!(n.bytes, 42);
    assert!(!n.is_dir);
}

#[test]
fn rolling_secrets_produce_aes_keys() {
    let secret = RollingSecret::generate().unwrap();
    let key = secret.rolling_key().unwrap();
    assert_eq!(key.len(), 32);
    let data = b"state secret";
    let ct = encrypt(&key, data).unwrap();
    assert_eq!(decrypt(&key, &ct).unwrap(), data);
    assert!(RollingSecret::from_string("only-two\u{a7}parts").is_none());
    assert!(RollingSecret::from_string("").is_none());
}

#[test]
fn route_tables_cover_every_operation() {
    let users = neptis::user_handlers::get_routes();
    assert_eq!(users.len(), 6);
    assert_eq!(users[4].method, "POST");
    assert_eq!(users[4].path, "/auth");
    let mounts = neptis::mount_handlers::get_routes();
    assert_eq!(mounts.len(), 14);
    assert_eq!(mounts[2].method, "PUT");
    assert_eq!(mounts[2].path, "/id/<name>");
}
