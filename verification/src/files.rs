//! Decisions for the per-file operations: path resolution against the
//! caller's volumes, read-only gating, create/update checks, payload
//! decoding, and the filters a directory browse applies.
//!
//! The filesystem reads and writes themselves happen outside the library;
//! everything here is a function of the request and of what the host
//! reported.

use vstd::prelude::*;
use vstd::string::*;
use crate::encoding::b64_dec_of;
use crate::encoding::b64_decode;
use crate::errors::NeptisError;
use crate::errors::is_bad_request;
use crate::mount_dtos::NodeDto;
use crate::mount_dtos::PostForFileApi;
use crate::mount_dtos::PutForFileApi;
use crate::mounts::Mount;
use crate::paths::first_seg;
use crate::paths::from_rel_post;
use crate::paths::from_rel_s2;
use crate::paths::rest_seg;
use crate::paths::slash_idx;
use crate::paths::stage_user_s2;
use crate::paths::strip_slashes;
use crate::strutil::concat_str;
use crate::strutil::count_char;
use crate::strutil::count_char_spec;
use crate::strutil::is_prefix;
use crate::strutil::starts_with_str;
use crate::strutil::str_eq;
use crate::strutil::strip_all_leading;
use crate::strutil::strip_all_spec;

verus! {

/// Resolves a client path against the caller's volumes: the first segment
/// picks the volume, the rest resolves inside it to a physical path and
/// its writability.
pub fn resolve_user_path(user_mounts: &Vec<Mount>, path: &str) -> (r: Result<
    (String, bool),
    NeptisError,
>)
    ensures
        r matches Err(e) ==> e is BadRequest,
        ({
            let rel = strip_slashes(path@);
            let seg = first_seg(rel);
            &&& ((rel.len() == 0 || slash_idx(rel) == rel.len() || (forall|i: int|
                0 <= i < user_mounts@.len() ==> (#[trigger] user_mounts@[i])@.mount_name != seg))
                ==> (r matches Err(e) && is_bad_request(e, "Failed to parse path: "@ + path@)))
            &&& (rel.len() > 0 && slash_idx(rel) < rel.len() ==> forall|i: int|
                (0 <= i < user_mounts@.len() && (#[trigger] user_mounts@[i])@.mount_name == seg
                    && (forall|j: int|
                    0 <= j < i ==> (#[trigger] user_mounts@[j])@.mount_name != seg))
                    ==> from_rel_post(user_mounts@[i], rest_seg(rel), r))
        }),
{
    let staged = stage_user_s2(path, user_mounts);
    match staged {
        Err(e) => Err(e),
        Ok((mount, s2)) => from_rel_s2(s2.as_str(), &mount),
    }
}

/// Resolves a path that the operation will write through; a read-only
/// resolution is refused.
pub fn resolve_writable(user_mounts: &Vec<Mount>, path: &str) -> (r: Result<String, NeptisError>)
    ensures
        r matches Err(e) ==> e is BadRequest,
        ({
            let rel = strip_slashes(path@);
            let seg = first_seg(rel);
            rel.len() > 0 && slash_idx(rel) < rel.len() ==> forall|i: int|
                (0 <= i < user_mounts@.len() && (#[trigger] user_mounts@[i])@.mount_name == seg
                    && (forall|j: int|
                    0 <= j < i ==> (#[trigger] user_mounts@[j])@.mount_name != seg)) ==> (
                r matches Ok(p) ==> crate::paths::resolved_ok(
                    user_mounts@[i],
                    strip_slashes(rest_seg(rel)),
                    p@,
                    true,
                ))
        }),
        ({
            let rel = strip_slashes(path@);
            let seg = first_seg(rel);
            rel.len() > 0 && slash_idx(rel) < rel.len() ==> forall|i: int|
                (0 <= i < user_mounts@.len() && (#[trigger] user_mounts@[i])@.mount_name == seg
                    && (forall|j: int|
                    0 <= j < i ==> (#[trigger] user_mounts@[j])@.mount_name != seg)) ==> ({
                    let rel2 = strip_slashes(rest_seg(rel));
                    rel2.len() > 0 && (first_seg(rel2) == "data"@ || (first_seg(rel2) == "repo"@
                        && rest_seg(rel2).len() > 0)) ==> r is Ok
                })
        }),
{
    match resolve_user_path(user_mounts, path) {
        Err(e) => Err(e),
        Ok((abs_path, is_rw)) => {
            if !is_rw {
                Err(NeptisError::BadRequest(String::from_str("This requested file is read-only!")))
            } else {
                Ok(abs_path)
            }
        },
    }
}

/// Resolves the target of a delete; a read-only resolution is refused
/// with the delete-specific message.
pub fn delete_file_target(user_mounts: &Vec<Mount>, path: &str) -> (r: Result<String, NeptisError>)
    ensures
        r matches Err(e) ==> e is BadRequest,
        ({
            let rel = strip_slashes(path@);
            let seg = first_seg(rel);
            rel.len() > 0 && slash_idx(rel) < rel.len() ==> forall|i: int|
                (0 <= i < user_mounts@.len() && (#[trigger] user_mounts@[i])@.mount_name == seg
                    && (forall|j: int|
                    0 <= j < i ==> (#[trigger] user_mounts@[j])@.mount_name != seg)) ==> (
                r matches Ok(p) ==> crate::paths::resolved_ok(
                    user_mounts@[i],
                    strip_slashes(rest_seg(rel)),
                    p@,
                    true,
                ))
        }),
        ({
            let rel = strip_slashes(path@);
            let seg = first_seg(rel);
            rel.len() > 0 && slash_idx(rel) < rel.len() ==> forall|i: int|
                (0 <= i < user_mounts@.len() && (#[trigger] user_mounts@[i])@.mount_name == seg
                    && (forall|j: int|
                    0 <= j < i ==> (#[trigger] user_mounts@[j])@.mount_name != seg)) ==> ({
                    let rel2 = strip_slashes(rest_seg(rel));
                    rel2.len() > 0 && (first_seg(rel2) == "data"@ || (first_seg(rel2) == "repo"@
                        && rest_seg(rel2).len() > 0)) ==> r is Ok
                })
        }),
{
    match resolve_user_path(user_mounts, path) {
        Err(e) => Err(e),
        Ok((abs_path, is_rw)) => {
            if !is_rw {
                Err(NeptisError::BadRequest(String::from_str("The path is not writable!")))
            } else {
                Ok(abs_path)
            }
        },
    }
}

/// What a file-create request, once resolved, is allowed to do.
#[derive(Debug)]
pub enum PostFileAction {
    /// Create the directory (and its parents).
    MakeDir,
    /// Create the file and write the decoded payload.
    WriteNew(Vec<u8>),
}

/// Checks a file-create request against what the host reported about the
/// target: an existing target must be updated instead, and a directory
/// cannot carry file contents. The payload decodes from base64; absent or
/// undecodable content writes as empty.
pub fn post_file_checks(dto: &PostForFileApi, target_exists: bool) -> (r: Result<
    PostFileAction,
    NeptisError,
>)
    ensures
        target_exists ==> (r matches Err(e) && is_bad_request(
            e,
            "File already exists! Use PUT method."@,
        )),
        !target_exists && dto.is_dir && dto.base64 is Some ==> (r matches Err(e) && is_bad_request(
            e,
            "You cannot write file contents to a directory!"@,
        )),
        !target_exists && dto.is_dir && dto.base64 is None ==> r == Ok::<
            PostFileAction,
            NeptisError,
        >(PostFileAction::MakeDir),
        !target_exists && !dto.is_dir ==> (r matches Ok(a) && (a matches PostFileAction::WriteNew(
            v,
        ) && v@ == match dto.base64 {
            Some(s) => match b64_dec_of(s@) {
                Some(d) => d,
                None => Seq::empty(),
            },
            None => Seq::empty(),
        })),
{
    if target_exists {
        return Err(NeptisError::BadRequest(String::from_str("File already exists! Use PUT method.")));
    }
    if dto.is_dir {
        if dto.base64.is_some() {
            return Err(NeptisError::BadRequest(
                String::from_str("You cannot write file contents to a directory!"),
            ));
        }
        return Ok(PostFileAction::MakeDir);
    }
    let decoded = match &dto.base64 {
        Some(s) => match b64_decode(s.as_str()) {
            Some(v) => v,
            None => Vec::new(),
        },
        None => Vec::new(),
    };
    Ok(PostFileAction::WriteNew(decoded))
}

/// Checks a file-update request against what the host reported: the
/// target must already exist, and a directory cannot take file contents.
pub fn put_file_checks(dto: &PutForFileApi, target_exists: bool, target_is_dir: bool) -> (r:
    Result<(), NeptisError>)
    ensures
        r is Ok <==> target_exists && !(target_is_dir && dto.base64 is Some),
        !target_exists ==> (r matches Err(e) && is_bad_request(
            e,
            "File does not exist! Use POST method."@,
        )),
        target_exists && target_is_dir && dto.base64 is Some ==> (r matches Err(e)
            && is_bad_request(e, "Cannot write file contents of directory!"@)),
{
    if !target_exists {
        return Err(NeptisError::BadRequest(String::from_str("File does not exist! Use POST method.")));
    }
    if target_is_dir && dto.base64.is_some() {
        return Err(NeptisError::BadRequest(
            String::from_str("Cannot write file contents of directory!"),
        ));
    }
    Ok(())
}

/// The payload of an update, decoded: present exactly when base64 content
/// was supplied and decodes.
pub fn put_file_payload(dto: &PutForFileApi) -> (r: Option<Vec<u8>>)
    ensures
        r matches Some(v) ==> (dto.base64 matches Some(s) && b64_dec_of(s@) == Some(v@)),
        r is None <==> (dto.base64 is None || b64_dec_of(dto.base64->Some_0@) is None),
{
    match &dto.base64 {
        Some(s) => b64_decode(s.as_str()),
        None => None,
    }
}

/// Entries under the data volume's reserved lost-and-found directory are
/// suppressed from listings.
pub fn is_reserved_listing(rel_path: &str) -> (r: bool)
    ensures
        r <==> is_prefix("/data/lost+found"@, rel_path@),
{
    starts_with_str(rel_path, "/data/lost+found")
}

/// The paths of a node list.
pub open spec fn node_paths(v: Seq<NodeDto>) -> Seq<Seq<char>> {
    v.map_values(|n: NodeDto| n.path@)
}

/// True when some listed node already carries `path`.
pub fn node_path_present(v: &Vec<NodeDto>, path: &str) -> (r: bool)
    ensures
        r <==> exists|i: int| 0 <= i < v@.len() && (#[trigger] v@[i]).path@ == path@,
{
    let n = v.len();
    let mut k: usize = 0;
    while k < n
        invariant
            k <= n,
            n == v@.len(),
            forall|i: int| 0 <= i < k ==> (#[trigger] v@[i]).path@ != path@,
        decreases n - k,
    {
        if str_eq(v[k].path.as_str(), path) {
            proof {
                assert((v@[k as int]).path@ == path@);
            }
            return true;
        }
        k += 1;
    }
    false
}

/// A browse keeps an entry exactly when its path extends the requested
/// path and sits within the allowed slash depth.
pub open spec fn browse_keeps(path: Seq<char>, request: Seq<char>, allowed_depth: int) -> bool {
    is_prefix(request, path) && count_char_spec(path, '/') <= allowed_depth
}

/// Appends `node` to the listing unless it falls outside the requested
/// subtree or depth, or an entry with its path is already listed.
pub fn browse_filter_push(
    result: &mut Vec<NodeDto>,
    node: NodeDto,
    request_path: &str,
    allowed_depth: usize,
)
    ensures
        browse_keeps(node.path@, request_path@, allowed_depth as int) && !(exists|i: int|
            0 <= i < old(result)@.len() && (#[trigger] old(result)@[i]).path@ == node.path@)
            ==> final(result)@ == old(result)@.push(node),
        !(browse_keeps(node.path@, request_path@, allowed_depth as int) && !(exists|i: int|
            0 <= i < old(result)@.len() && (#[trigger] old(result)@[i]).path@ == node.path@))
            ==> final(result)@ == old(result)@,
{
    if starts_with_str(node.path.as_str(), request_path) && count_char(node.path.as_str(), '/')
        <= allowed_depth {
        if !node_path_present(result, node.path.as_str()) {
            result.push(node);
        }
    }
}

/// The synthetic top-level entries of one volume: the volume root and its
/// `repo` and `data` branches, each kept only within the requested
/// subtree and depth, timestamped from the volume's data access time.
pub fn browse_roots(mount: &Mount, request_path: &str, allowed_depth: usize) -> (r: Vec<NodeDto>)
    ensures
        r@.len() <= 3,
        forall|i: int|
            0 <= i < r@.len() ==> {
                &&& (#[trigger] r@[i]).is_dir
                &&& r@[i].bytes == 0
                &&& r@[i].atime == mount.data_accessed
                &&& r@[i].ctime == mount.data_accessed
                &&& r@[i].mtime == mount.data_accessed
                &&& browse_keeps(r@[i].path@, request_path@, allowed_depth as int)
                &&& (r@[i].path@ == "/"@ + mount@.mount_name || r@[i].path@ == "/"@
                    + mount@.mount_name + "/repo"@ || r@[i].path@ == "/"@ + mount@.mount_name
                    + "/data"@)
            },
        forall|p: Seq<char>|
            (#[trigger] browse_keeps(p, request_path@, allowed_depth as int) && (p == "/"@
                + mount@.mount_name || p == "/"@ + mount@.mount_name + "/repo"@ || p == "/"@
                + mount@.mount_name + "/data"@)) ==> exists|i: int|
                0 <= i < r@.len() && (#[trigger] r@[i]).path@ == p,
{
    let mount_root = concat_str("/", mount.mount_name.as_str());
    let repo_root = concat_str(mount_root.as_str(), "/repo");
    let data_root = concat_str(mount_root.as_str(), "/data");
    let ghost c0 = mount_root@;
    let ghost c1 = repo_root@;
    let ghost c2 = data_root@;
    let mut out: Vec<NodeDto> = Vec::new();
    let t = mount.data_accessed;
    let keep0 = starts_with_str(mount_root.as_str(), request_path) && count_char(
        mount_root.as_str(),
        '/',
    ) <= allowed_depth;
    let keep1 = starts_with_str(repo_root.as_str(), request_path) && count_char(
        repo_root.as_str(),
        '/',
    ) <= allowed_depth;
    let keep2 = starts_with_str(data_root.as_str(), request_path) && count_char(
        data_root.as_str(),
        '/',
    ) <= allowed_depth;
    let ghost mut i0: int = 0;
    let ghost mut i1: int = 0;
    let ghost mut i2: int = 0;
    if keep0 {
        proof {
            i0 = out@.len() as int;
        }
        out.push(
            NodeDto { path: mount_root, atime: t, ctime: t, mtime: t, is_dir: true, bytes: 0 },
        );
    }
    if keep1 {
        proof {
            i1 = out@.len() as int;
        }
        out.push(
            NodeDto { path: repo_root, atime: t, ctime: t, mtime: t, is_dir: true, bytes: 0 },
        );
    }
    if keep2 {
        proof {
            i2 = out@.len() as int;
        }
        out.push(
            NodeDto { path: data_root, atime: t, ctime: t, mtime: t, is_dir: true, bytes: 0 },
        );
    }
    proof {
        assert forall|p: Seq<char>|
            (#[trigger] browse_keeps(p, request_path@, allowed_depth as int) && (p == c0 || p == c1
                || p == c2)) implies exists|i: int|
            0 <= i < out@.len() && (#[trigger] out@[i]).path@ == p by {
            if p == c0 {
                assert(keep0);
                assert(out@[i0].path@ == c0);
            } else if p == c1 {
                assert(keep1);
                assert(out@[i1].path@ == c1);
            } else {
                assert(keep2);
                assert(out@[i2].path@ == c2);
            }
        }
    }
    out
}

/// The physical directory a browse of `subpath` starts from: the `repo`
/// branch maps under the repository view, the `data` branch (or anything
/// else) under the data mount.
pub fn browse_base_path(mount: &Mount, subpath: &str) -> (r: String)
    ensures
        is_prefix("repo"@, subpath@) ==> ({
            let sub = strip_all_spec(subpath@.subrange(4, subpath@.len() as int), '/');
            r@ == if sub.len() == 0 {
                mount@.repo_mnt_path + "/repo-mnt"@
            } else {
                mount@.repo_mnt_path + "/repo-mnt/"@ + sub
            }
        }),
        !is_prefix("repo"@, subpath@) && is_prefix("data"@, subpath@) ==> ({
            let sub = strip_all_spec(subpath@.subrange(4, subpath@.len() as int), '/');
            r@ == if sub.len() == 0 {
                mount@.data_mnt_path
            } else {
                mount@.data_mnt_path + "/"@ + sub
            }
        }),
        !is_prefix("repo"@, subpath@) && !is_prefix("data"@, subpath@) ==> ({
            let sub = strip_all_spec(subpath@, '/');
            r@ == if sub.len() == 0 {
                mount@.data_mnt_path
            } else {
                mount@.data_mnt_path + "/"@ + sub
            }
        }),
{
    if starts_with_str(subpath, "repo") {
        proof {
            reveal_strlit("repo");
        }
        let sub = strip_all_leading(crate::strutil::suffix_from(subpath, 4), '/');
        if sub.unicode_len() == 0 {
            concat_str(mount.repo_mnt_path.as_str(), "/repo-mnt")
        } else {
            concat_str(concat_str(mount.repo_mnt_path.as_str(), "/repo-mnt/").as_str(), sub)
        }
    } else if starts_with_str(subpath, "data") {
        proof {
            reveal_strlit("data");
        }
        let sub = strip_all_leading(crate::strutil::suffix_from(subpath, 4), '/');
        if sub.unicode_len() == 0 {
            mount.data_mnt_path.clone()
        } else {
            concat_str(concat_str(mount.data_mnt_path.as_str(), "/").as_str(), sub)
        }
    } else {
        let sub = strip_all_leading(subpath, '/');
        if sub.unicode_len() == 0 {
            mount.data_mnt_path.clone()
        } else {
            concat_str(concat_str(mount.data_mnt_path.as_str(), "/").as_str(), sub)
        }
    }
}

} // verus!
