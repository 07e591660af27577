//! The path resolver: the stateless translation between a client-visible
//! virtual path and a physical filesystem path, with its read/write
//! classification.
//!
//! The virtual namespace has exactly two first-level segments under a
//! volume: `data` and `repo`. `data/<rest>` maps into the data mount and
//! is always writable; `repo/<rest>` maps under the repository view mount
//! and is writable exactly when `<rest>` is non-empty, so the bare
//! repository root stays read-only.

use vstd::prelude::*;
use vstd::string::*;
use crate::errors::NeptisError;
use crate::errors::is_bad_request;
use crate::mounts::Mount;
use crate::strutil::concat_str;
use crate::strutil::find_char;
use crate::strutil::is_prefix;
use crate::strutil::starts_with_str;
use crate::strutil::strip_leading;
use crate::strutil::strip_trailing;
use crate::strutil::str_eq;
use crate::strutil::suffix_from;

verus! {

/// `p` with one trailing and then one leading `/` removed.
pub open spec fn strip_slashes(p: Seq<char>) -> Seq<char> {
    let q = if p.len() > 0 && p.last() == '/' {
        p.subrange(0, p.len() - 1)
    } else {
        p
    };
    if q.len() > 0 && q[0] == '/' {
        q.subrange(1, q.len() as int)
    } else {
        q
    }
}

/// Index of the first `/` in `p`, or `p.len()` when there is none.
pub open spec fn slash_idx(p: Seq<char>) -> int
    decreases p.len(),
{
    if p.len() == 0 {
        0
    } else if p[0] == '/' {
        0
    } else {
        1 + slash_idx(p.subrange(1, p.len() as int))
    }
}

/// The part of `p` before its first `/` (all of `p` when there is none).
pub open spec fn first_seg(p: Seq<char>) -> Seq<char> {
    p.subrange(0, slash_idx(p))
}

/// The part of `p` after its first `/` (empty when there is none).
pub open spec fn rest_seg(p: Seq<char>) -> Seq<char> {
    if slash_idx(p) == p.len() {
        Seq::empty()
    } else {
        p.subrange(slash_idx(p) + 1, p.len() as int)
    }
}

/// Pins down [`slash_idx`] from the "first occurrence" facts an index
/// search establishes.
pub proof fn lemma_slash_idx(p: Seq<char>, i: int)
    requires
        0 <= i <= p.len(),
        forall|j: int| 0 <= j < i ==> p[j] != '/',
        i == p.len() || p[i] == '/',
    ensures
        slash_idx(p) == i,
    decreases i,
{
    if i == 0 {
    } else {
        let t = p.subrange(1, p.len() as int);
        lemma_slash_idx(t, i - 1);
    }
}

/// The physical path and writability the `data`/`repo` branches resolve to.
pub open spec fn resolved_ok(m: Mount, rel: Seq<char>, phys: Seq<char>, writable: bool) -> bool {
    let seg = first_seg(rel);
    let rest = rest_seg(rel);
    if seg == "data"@ {
        &&& writable
        &&& phys == if rest.len() > 0 {
            m.data_mnt_path@ + "/"@ + rest
        } else {
            m.data_mnt_path@
        }
    } else if seg == "repo"@ {
        &&& writable == (rest.len() > 0)
        &&& phys == if rest.len() > 0 {
            m.repo_mnt_path@ + "/repo-mnt/"@ + rest
        } else {
            m.repo_mnt_path@ + "/repo-mnt"@
        }
    } else {
        false
    }
}

/// The bad-path message resolution reports for a stripped path `rel`
/// whose first segment is not recognized.
pub open spec fn resolve_err_msg(rel: Seq<char>) -> Seq<char> {
    if slash_idx(rel) < rel.len() {
        "Invalid prefix in "@ + rel
    } else {
        "Cannot resolve "@ + rel
    }
}

/// Everything [`from_rel_s2`] promises of its result.
pub open spec fn from_rel_post(point: Mount, path: Seq<char>, r: Result<
    (String, bool),
    NeptisError,
>) -> bool {
    let rel = strip_slashes(path);
    &&& (rel.len() == 0 ==> (r matches Err(e) && is_bad_request(e, "Cannot resolve "@ + path)))
    &&& (rel.len() > 0 && (first_seg(rel) == "data"@ || first_seg(rel) == "repo"@) ==> (r matches Ok(
        p,
    ) && resolved_ok(point, rel, (p.0)@, p.1)))
    &&& (rel.len() > 0 && first_seg(rel) != "data"@ && first_seg(rel) != "repo"@ ==> (r matches Err(
        e,
    ) && is_bad_request(e, resolve_err_msg(rel))))
}

/// Resolves a volume-relative virtual path to a physical path and its
/// writability.
///
/// The path is first stripped of one trailing and one leading `/`; an
/// empty remainder or an unknown first segment is a bad-path error.
pub fn from_rel_s2(path: &str, point: &Mount) -> (r: Result<(String, bool), NeptisError>)
    ensures
        from_rel_post(*point, path@, r),
{
    let rel = strip_leading(strip_trailing(path, '/'), '/');
    let n = rel.unicode_len();
    if n == 0 {
        return Err(NeptisError::BadRequest(concat_str("Cannot resolve ", path)));
    }
    let found = find_char(rel, '/');
    let (seg, rest) = match found {
        Some(i) => {
            proof {
                lemma_slash_idx(rel@, i as int);
            }
            (rel.substring_char(0, i), suffix_from(rel, i + 1))
        },
        None => {
            proof {
                lemma_slash_idx(rel@, n as int);
                assert(rel@.subrange(0, n as int) =~= rel@);
                reveal_strlit("");
            }
            (rel, "")
        },
    };
    let rest_len = rest.unicode_len();
    if str_eq(seg, "data") {
        let phys = if rest_len > 0 {
            concat_str(concat_str(point.data_mnt_path.as_str(), "/").as_str(), rest)
        } else {
            String::from_str(point.data_mnt_path.as_str())
        };
        Ok((phys, true))
    } else if str_eq(seg, "repo") {
        let phys = if rest_len > 0 {
            concat_str(
                concat_str(point.repo_mnt_path.as_str(), "/repo-mnt/").as_str(),
                rest,
            )
        } else {
            concat_str(point.repo_mnt_path.as_str(), "/repo-mnt")
        };
        Ok((phys, rest_len > 0))
    } else if found.is_some() {
        Err(NeptisError::BadRequest(concat_str("Invalid prefix in ", rel)))
    } else {
        Err(NeptisError::BadRequest(concat_str("Cannot resolve ", rel)))
    }
}

/// Maps a physical path back into the virtual namespace of `point`,
/// replacing the mount prefix by `/data` or `/repo`.
pub fn to_rel_s2(path: &str, point: &Mount) -> (r: Result<String, NeptisError>)
    ensures
        path@.len() == 0 ==> (r matches Err(e) && is_bad_request(e, "Cannot resolve "@ + path@)),
        path@.len() > 0 && is_prefix(point.data_mnt_path@, path@) ==> (r matches Ok(v) && v@
            == "/data"@ + path@.subrange(point.data_mnt_path@.len() as int, path@.len() as int)),
        path@.len() > 0 && !is_prefix(point.data_mnt_path@, path@) && is_prefix(
            point.repo_mnt_path@ + "/repo-mnt"@,
            path@,
        ) ==> (r matches Ok(v) && v@ == "/repo"@ + path@.subrange(
            (point.repo_mnt_path@.len() + 9) as int,
            path@.len() as int,
        )),
        path@.len() > 0 && !is_prefix(point.data_mnt_path@, path@) && !is_prefix(
            point.repo_mnt_path@ + "/repo-mnt"@,
            path@,
        ) ==> (r matches Err(e) && is_bad_request(e, "Cannot resolve "@ + path@)),
{
    let n = path.unicode_len();
    if n == 0 {
        return Err(NeptisError::BadRequest(concat_str("Cannot resolve ", path)));
    }
    let data_mnt = point.data_mnt_path.as_str();
    if starts_with_str(path, data_mnt) {
        let rest = suffix_from(path, data_mnt.unicode_len());
        return Ok(concat_str("/data", rest));
    }
    let repo_prefix = concat_str(point.repo_mnt_path.as_str(), "/repo-mnt");
    if starts_with_str(path, repo_prefix.as_str()) {
        let rest = suffix_from(path, repo_prefix.as_str().unicode_len());
        proof {
            assert(repo_prefix@.len() == point.repo_mnt_path@.len() + 9) by {
                reveal_strlit("/repo-mnt");
            }
        }
        return Ok(concat_str("/repo", rest));
    }
    Err(NeptisError::BadRequest(concat_str("Cannot resolve ", path)))
}

/// Splits a client path into the volume it addresses and the remainder.
///
/// The first segment names the volume; the first volume in `user_mounts`
/// bearing that name is returned together with everything after the
/// segment.
pub fn stage_user_s2(path: &str, user_mounts: &Vec<Mount>) -> (r: Result<
    (Mount, String),
    NeptisError,
>)
    ensures
        ({
            let rel = strip_slashes(path@);
            let seg = first_seg(rel);
            let rest = rest_seg(rel);
            &&& (r matches Ok(p) ==> {
                &&& slash_idx(rel) < rel.len()
                &&& p.1@ == rest
                &&& exists|i: int|
                    {
                        &&& 0 <= i < user_mounts@.len()
                        &&& #[trigger] user_mounts@[i]@.mount_name == seg
                        &&& p.0@ == user_mounts@[i]@
                        &&& forall|j: int| 0 <= j < i ==> user_mounts@[j]@.mount_name != seg
                    }
            })
            &&& (r matches Err(e) ==> {
                &&& is_bad_request(e, "Failed to parse path: "@ + path@)
                &&& (rel.len() == 0 || slash_idx(rel) == rel.len() || forall|i: int|
                    0 <= i < user_mounts@.len() ==> (#[trigger] user_mounts@[i])@.mount_name != seg)
            })
            &&& (r is Ok <==> rel.len() > 0 && slash_idx(rel) < rel.len() && exists|i: int|
                0 <= i < user_mounts@.len() && (#[trigger] user_mounts@[i])@.mount_name == seg)
        }),
{
    let rel = strip_leading(strip_trailing(path, '/'), '/');
    let n = rel.unicode_len();
    if n == 0 {
        return Err(NeptisError::BadRequest(concat_str("Failed to parse path: ", path)));
    }
    let found = find_char(rel, '/');
    match found {
        None => {
            proof {
                lemma_slash_idx(rel@, n as int);
            }
            Err(NeptisError::BadRequest(concat_str("Failed to parse path: ", path)))
        },
        Some(i) => {
            proof {
                lemma_slash_idx(rel@, i as int);
            }
            let seg = rel.substring_char(0, i);
            let rest = suffix_from(rel, i + 1);
            let m = user_mounts.len();
            let mut k: usize = 0;
            while k < m
                invariant
                    k <= m,
                    m == user_mounts@.len(),
                    rel@ == strip_slashes(path@),
                    slash_idx(rel@) == i as int,
                    i < rel@.len(),
                    seg@ == first_seg(rel@),
                    rest@ == rest_seg(rel@),
                    forall|j: int| 0 <= j < k ==> (#[trigger] user_mounts@[j])@.mount_name != seg@,
                decreases m - k,
            {
                if str_eq(user_mounts[k].mount_name.as_str(), seg) {
                    proof {
                        assert((user_mounts@[k as int])@.mount_name == seg@);
                    }
                    return Ok((user_mounts[k].duplicate(), String::from_str(rest)));
                }
                k += 1;
            }
            Err(NeptisError::BadRequest(concat_str("Failed to parse path: ", path)))
        },
    }
}

} // verus!
