//! The volume lifecycle manager: provision, resize, mount and delete.
//!
//! Every physical step is expressed as a [`HostCmd`] value inside a checked
//! plan. The library decides and orders the commands; a host driver
//! executes them and reports what it observed. Any command failure is
//! fatal for the operation and nothing is retried.

use vstd::prelude::*;
use vstd::string::*;
use crate::errors::NeptisError;
use crate::errors::is_bad_request;
use crate::errors::is_internal_error;
use crate::hostinfo::mounted_in;
use crate::mounts::Mount;
use crate::store::Store;
use crate::store::store_wf;
use crate::strutil::concat_str;
use crate::users::User;

verus! {

/// One privileged host action, as data.
#[derive(Debug)]
pub enum HostCmd {
    /// `mkdir -p <path>`
    CreateDirAll(String),
    /// `rmdir <path>`
    RemoveDir(String),
    /// `rm <path>`
    RemoveFile(String),
    /// `mount -o rw,sync,loop <img> <mnt>`
    Mount { img: String, mnt: String },
    /// `umount <path>`
    Umount(String),
    /// `chmod 777 <path>`
    Chmod(String),
    /// `e2fsck -f -y <img>`
    Fsck(String),
    /// `fallocate -l <bytes> <img>`
    Fallocate { img: String, bytes: i64 },
    /// `resize2fs <img>` (grow the filesystem to fill the image)
    ResizeFs(String),
    /// `resize2fs <img> <blocks>` (shrink the filesystem to `blocks`)
    ResizeFsTo { img: String, blocks: i64 },
    /// `mkfs.ext4 <img>`
    Mkfs(String),
    /// Start the engine's snapshot-browsing mount of `repo_dir` at
    /// `view_dir`, asynchronously, using `pass`.
    SpawnRepoViewMount { pass: String, repo_dir: String, view_dir: String },
    /// Sleep for the fixed repository-view grace period.
    WaitGrace,
}

/// What the host driver observed before a mount-ensure decision.
#[derive(Debug)]
pub struct MountObs {
    /// The data image file exists.
    pub data_img_exists: bool,
    /// The repository image file exists.
    pub repo_img_exists: bool,
    /// The data mount directory exists.
    pub data_mnt_exists: bool,
    /// The repository mount directory exists.
    pub repo_mnt_exists: bool,
    /// Captured `mount -l` output.
    pub mount_table: String,
    /// `<repo_mnt>/repo` exists.
    pub repo_dir_exists: bool,
    /// `<repo_mnt>/repo-mnt` exists.
    pub repo_view_exists: bool,
    /// `<repo_mnt>/repo-mnt` has at least one entry.
    pub repo_view_nonempty: bool,
}

/// Some path field of the volume is blank.
pub open spec fn blank_paths(m: Mount) -> bool {
    ||| m@.data_img_path.len() == 0
    ||| m@.data_mnt_path.len() == 0
    ||| m@.repo_img_path.len() == 0
}

/// Both images appear in the mount table, and (when the repository view is
/// wanted) the view directory exists and is already populated.
pub open spec fn fully_mounted(m: Mount, use_repo: bool, obs: MountObs) -> bool {
    &&& obs.data_mnt_exists
    &&& obs.repo_mnt_exists
    &&& mounted_in(obs.mount_table@, m@.data_img_path, m@.data_mnt_path)
    &&& mounted_in(obs.mount_table@, m@.repo_img_path, m@.repo_mnt_path)
    &&& (use_repo ==> obs.repo_view_exists && obs.repo_view_nonempty)
}

/// Decides what [`ensure_point_mounted_plan`] may refuse outright.
pub open spec fn ensure_mount_refused(m: Mount, use_repo: bool, obs: MountObs, e: NeptisError) -> bool {
    if blank_paths(m) {
        is_bad_request(e, "Image / Mount path(s) are blank!"@)
    } else if !obs.data_img_exists || !obs.repo_img_exists {
        is_internal_error(e, "Point is corrupted"@)
    } else {
        use_repo && !obs.repo_dir_exists && is_internal_error(e, "Repository is corrupted"@)
    }
}

/// Plans the commands that bring a volume to the mounted state.
///
/// Blank paths are a caller error; a missing image or (when the view is
/// wanted) a missing repository directory means the volume is corrupted.
/// Nothing is planned for a part that is already mounted, so a second run
/// over a fully mounted volume plans nothing at all.
pub fn ensure_point_mounted_plan(point: &Mount, use_repo: bool, obs: &MountObs) -> (r: Result<
    Vec<HostCmd>,
    NeptisError,
>)
    ensures
        r is Ok <==> !blank_paths(*point) && obs.data_img_exists && obs.repo_img_exists && (
        use_repo ==> obs.repo_dir_exists),
        r matches Err(e) ==> ensure_mount_refused(*point, use_repo, *obs, e),
        r matches Ok(plan) ==> {
            &&& fully_mounted(*point, use_repo, *obs) ==> plan@.len() == 0
            &&& forall|i: int|
                0 <= i < plan@.len() ==> ((#[trigger] plan@[i]) matches HostCmd::Mount {
                    img,
                    mnt,
                } ==> !mounted_in(obs.mount_table@, img@, mnt@))
            &&& !mounted_in(obs.mount_table@, point@.data_img_path, point@.data_mnt_path)
                ==> exists|i: int|
                0 <= i < plan@.len() && ((#[trigger] plan@[i]) matches HostCmd::Mount { img, mnt }
                    && img@ == point@.data_img_path && mnt@ == point@.data_mnt_path)
            &&& !mounted_in(obs.mount_table@, point@.repo_img_path, point@.repo_mnt_path)
                ==> exists|i: int|
                0 <= i < plan@.len() && ((#[trigger] plan@[i]) matches HostCmd::Mount { img, mnt }
                    && img@ == point@.repo_img_path && mnt@ == point@.repo_mnt_path)
            &&& (use_repo && !obs.repo_view_nonempty) ==> exists|i: int|
                0 <= i < plan@.len() && ((#[trigger] plan@[i])
                    matches HostCmd::SpawnRepoViewMount { pass, repo_dir, view_dir }
                    && pass@ == point@.repo_password && repo_dir@ == point@.repo_mnt_path
                    + "/repo"@ && view_dir@ == point@.repo_mnt_path + "/repo-mnt"@)
            &&& !use_repo ==> forall|i: int|
                0 <= i < plan@.len() ==> !((#[trigger] plan@[i]) is SpawnRepoViewMount)
        },
{
    if point.data_img_path.as_str().unicode_len() == 0 || point.data_mnt_path.as_str().unicode_len()
        == 0 || point.repo_img_path.as_str().unicode_len() == 0 {
        return Err(NeptisError::BadRequest(String::from_str("Image / Mount path(s) are blank!")));
    }
    if !obs.data_img_exists || !obs.repo_img_exists {
        return Err(NeptisError::InternalError(String::from_str("Point is corrupted")));
    }
    if use_repo && !obs.repo_dir_exists {
        return Err(NeptisError::InternalError(String::from_str("Repository is corrupted")));
    }
    let mut plan: Vec<HostCmd> = Vec::new();
    if !obs.data_mnt_exists {
        plan.push(HostCmd::CreateDirAll(point.data_mnt_path.clone()));
    }
    if !obs.repo_mnt_exists {
        plan.push(HostCmd::CreateDirAll(point.repo_mnt_path.clone()));
    }
    let data_mounted = crate::hostinfo::raw_mnt_check(
        obs.mount_table.as_str(),
        point.data_img_path.as_str(),
        point.data_mnt_path.as_str(),
    );
    let ghost mut data_mount_idx: int = 0;
    if !data_mounted {
        proof {
            data_mount_idx = plan@.len() as int;
        }
        plan.push(
            HostCmd::Mount { img: point.data_img_path.clone(), mnt: point.data_mnt_path.clone() },
        );
        plan.push(HostCmd::Chmod(point.data_mnt_path.clone()));
        plan.push(HostCmd::Chmod(point.data_img_path.clone()));
    }
    let repo_mounted = crate::hostinfo::raw_mnt_check(
        obs.mount_table.as_str(),
        point.repo_img_path.as_str(),
        point.repo_mnt_path.as_str(),
    );
    let ghost mut repo_mount_idx: int = 0;
    if !repo_mounted {
        proof {
            repo_mount_idx = plan@.len() as int;
        }
        plan.push(
            HostCmd::Mount { img: point.repo_img_path.clone(), mnt: point.repo_mnt_path.clone() },
        );
        plan.push(HostCmd::Chmod(point.repo_mnt_path.clone()));
        plan.push(HostCmd::Chmod(point.repo_img_path.clone()));
    }
    let ghost mut spawn_idx: int = 0;
    if use_repo {
        if !obs.repo_view_exists {
            plan.push(
                HostCmd::CreateDirAll(concat_str(point.repo_mnt_path.as_str(), "/repo-mnt")),
            );
        }
        if !obs.repo_view_nonempty {
            proof {
                spawn_idx = plan@.len() as int;
            }
            plan.push(
                HostCmd::SpawnRepoViewMount {
                    pass: point.repo_password.clone(),
                    repo_dir: concat_str(point.repo_mnt_path.as_str(), "/repo"),
                    view_dir: concat_str(point.repo_mnt_path.as_str(), "/repo-mnt"),
                },
            );
            plan.push(HostCmd::WaitGrace);
        }
    }
    proof {
        if !data_mounted {
            assert(plan@[data_mount_idx] matches HostCmd::Mount { img, mnt } && img@
                == point@.data_img_path && mnt@ == point@.data_mnt_path);
        }
        if !repo_mounted {
            assert(plan@[repo_mount_idx] matches HostCmd::Mount { img, mnt } && img@
                == point@.repo_img_path && mnt@ == point@.repo_mnt_path);
        }
        if use_repo && !obs.repo_view_nonempty {
            assert(plan@[spawn_idx] matches HostCmd::SpawnRepoViewMount {
                pass,
                repo_dir,
                view_dir,
            } && pass@ == point@.repo_password && repo_dir@ == point@.repo_mnt_path + "/repo"@
                && view_dir@ == point@.repo_mnt_path + "/repo-mnt"@);
        }
    }
    Ok(plan)
}

/// Confirms, from a fresh observation taken after the plan ran, that the
/// volume is mounted; mount failure is fatal.
pub fn confirm_mounted(point: &Mount, use_repo: bool, obs: &MountObs) -> (r: Result<
    (),
    NeptisError,
>)
    ensures
        r is Ok <==> mounted_in(obs.mount_table@, point@.data_img_path, point@.data_mnt_path)
            && mounted_in(obs.mount_table@, point@.repo_img_path, point@.repo_mnt_path) && (use_repo
            ==> obs.repo_view_nonempty),
        !(mounted_in(obs.mount_table@, point@.data_img_path, point@.data_mnt_path) && mounted_in(
            obs.mount_table@,
            point@.repo_img_path,
            point@.repo_mnt_path,
        )) ==> (r matches Err(e) && is_internal_error(e, "Failed to mount point!"@)),
        (mounted_in(obs.mount_table@, point@.data_img_path, point@.data_mnt_path) && mounted_in(
            obs.mount_table@,
            point@.repo_img_path,
            point@.repo_mnt_path,
        ) && use_repo && !obs.repo_view_nonempty) ==> (r matches Err(e) && is_internal_error(
            e,
            "Failed to mount the repository!"@,
        )),
{
    let data_mounted = crate::hostinfo::raw_mnt_check(
        obs.mount_table.as_str(),
        point.data_img_path.as_str(),
        point.data_mnt_path.as_str(),
    );
    let repo_mounted = crate::hostinfo::raw_mnt_check(
        obs.mount_table.as_str(),
        point.repo_img_path.as_str(),
        point.repo_mnt_path.as_str(),
    );
    if !data_mounted || !repo_mounted {
        return Err(NeptisError::InternalError(String::from_str("Failed to mount point!")));
    }
    if use_repo && !obs.repo_view_nonempty {
        return Err(NeptisError::InternalError(
            String::from_str("Failed to mount the repository!"),
        ));
    }
    Ok(())
}

/// The teardown plan for one volume: unmount whatever the mount table
/// still shows, then remove each mount directory and image file.
pub open spec fn delete_plan_ok(plan: Seq<HostCmd>, m: Mount, table: Seq<char>) -> bool {
    let d_mounted = mounted_in(table, m@.data_img_path, m@.data_mnt_path);
    let r_mounted = mounted_in(table, m@.repo_img_path, m@.repo_mnt_path);
    let d_len: int = if d_mounted {
        3
    } else {
        2
    };
    &&& plan.len() == d_len + if r_mounted {
        3int
    } else {
        2int
    }
    &&& (d_mounted ==> (plan[0] matches HostCmd::Umount(p) && p@ == m@.data_mnt_path))
    &&& (plan[d_len - 2] matches HostCmd::RemoveDir(p) && p@ == m@.data_mnt_path)
    &&& (plan[d_len - 1] matches HostCmd::RemoveFile(p) && p@ == m@.data_img_path)
    &&& (r_mounted ==> (plan[d_len] matches HostCmd::Umount(p) && p@ == m@.repo_mnt_path))
    &&& (plan[plan.len() - 2] matches HostCmd::RemoveDir(p) && p@ == m@.repo_mnt_path)
    &&& (plan[plan.len() - 1] matches HostCmd::RemoveFile(p) && p@ == m@.repo_img_path)
}

/// Deletes a volume: the row leaves the store first (so no new operation
/// can race the teardown), then the plan removes the physical remains.
///
/// A locked volume is refused; a missing one is a store lookup failure.
pub fn delete_one_mount(store: &mut Store, auth_user: &User, p_name: &str, mount_table: &str) -> (r:
    Result<(Mount, Vec<HostCmd>), NeptisError>)
    requires
        store_wf(*old(store)),
    ensures
        store_wf(*final(store)),
        r is Ok <==> exists|i: int|
            0 <= i < old(store).mounts@.len() && (#[trigger] old(store).mounts@[i])@.owned_by
                == auth_user@.user_name && old(store).mounts@[i]@.mount_name == p_name@ && !old(
                store,
            ).mounts@[i].locked,
        r matches Err(e) ==> {
            &&& *final(store) == *old(store)
            &&& (e is DbQuery || is_internal_error(e, "The point is currently locked"@))
            &&& (e is DbQuery <==> (forall|i: int|
                0 <= i < old(store).mounts@.len() ==> !((#[trigger] old(
                    store,
                ).mounts@[i])@.owned_by == auth_user@.user_name && old(
                    store,
                ).mounts@[i]@.mount_name == p_name@)))
        },
        r matches Ok(p) ==> {
            &&& exists|i: int|
                {
                    &&& 0 <= i < old(store).mounts@.len()
                    &&& (#[trigger] old(store).mounts@[i])@.owned_by == auth_user@.user_name
                    &&& old(store).mounts@[i]@.mount_name == p_name@
                    &&& p.0 == old(store).mounts@[i]
                    &&& !old(store).mounts@[i].locked
                    &&& final(store).mounts@ == old(store).mounts@.remove(i)
                }
            &&& final(store).users@ == old(store).users@
            &&& final(store).sessions@ == old(store).sessions@
            &&& final(store).repo_jobs@ == old(store).repo_jobs@
            &&& delete_plan_ok((p.1)@, p.0, mount_table@)
        },
{
    let owner = auth_user.user_name.as_str();
    let found = store.find_mount_idx(owner, p_name);
    let idx = match found {
        None => {
            return Err(NeptisError::DbQuery(String::from_str("The point does not exist!")));
        },
        Some(i) => i,
    };
    proof {
        assert forall|j: int|
            (0 <= j < store.mounts@.len() && (#[trigger] store.mounts@[j])@.owned_by
                == auth_user@.user_name && store.mounts@[j]@.mount_name == p_name@) implies j
            == idx as int by {
            if j != idx as int {
                let a = if j < idx as int {
                    j
                } else {
                    idx as int
                };
                let b = if j < idx as int {
                    idx as int
                } else {
                    j
                };
                assert(crate::store::mount_views(store.mounts@)[a] == (store.mounts@[a])@);
                assert(crate::store::mount_views(store.mounts@)[b] == (store.mounts@[b])@);
            }
        }
    }
    if store.mounts[idx].locked {
        return Err(NeptisError::InternalError(String::from_str("The point is currently locked")));
    }
    let p_mount = store.remove_mount_at(idx);
    let mut plan: Vec<HostCmd> = Vec::new();
    let d_mounted = crate::hostinfo::raw_mnt_check(
        mount_table,
        p_mount.data_img_path.as_str(),
        p_mount.data_mnt_path.as_str(),
    );
    if d_mounted {
        plan.push(HostCmd::Umount(p_mount.data_mnt_path.clone()));
    }
    plan.push(HostCmd::RemoveDir(p_mount.data_mnt_path.clone()));
    plan.push(HostCmd::RemoveFile(p_mount.data_img_path.clone()));
    let r_mounted = crate::hostinfo::raw_mnt_check(
        mount_table,
        p_mount.repo_img_path.as_str(),
        p_mount.repo_mnt_path.as_str(),
    );
    if r_mounted {
        plan.push(HostCmd::Umount(p_mount.repo_mnt_path.clone()));
    }
    plan.push(HostCmd::RemoveDir(p_mount.repo_mnt_path.clone()));
    plan.push(HostCmd::RemoveFile(p_mount.repo_img_path.clone()));
    Ok((p_mount, plan))
}

/// Host facts for a volume create-or-resize: the configured base
/// directories for images, with the free space of each.
#[derive(Debug)]
pub struct HostEnv {
    /// Base directory for data images.
    pub data_path: String,
    /// Base directory for repository images.
    pub repo_path: String,
    /// Usage of the filesystem holding `data_path`.
    pub d_sys: crate::hostinfo::MountStats,
    /// Usage of the filesystem holding `repo_path`.
    pub r_sys: crate::hostinfo::MountStats,
}

/// Host facts gathered from an existing, mounted volume before a resize.
#[derive(Debug)]
pub struct ResizeObs {
    /// Usage of the mounted data filesystem.
    pub d_stats: crate::hostinfo::MountStats,
    /// Usage of the mounted repository filesystem.
    pub r_stats: crate::hostinfo::MountStats,
    /// Block size of the data image's filesystem.
    pub d_block_size: usize,
    /// Block size of the repository image's filesystem.
    pub r_block_size: usize,
    /// A fresh scratch directory for remount-validating the data image.
    pub scratch_data: String,
    /// A fresh scratch directory for remount-validating the repository image.
    pub scratch_repo: String,
}

/// Whether the volume addressed by a create-or-resize already exists.
#[derive(Debug)]
pub enum PutMountObs {
    /// It exists; the resize facts were gathered from it.
    Existing(ResizeObs),
    /// No volume of that name exists for the caller.
    Fresh,
}

/// The decided outcome of a create-or-resize request.
#[derive(Debug)]
pub enum PutMountPlan {
    /// Resize the volume at `idx`: run `cmds`, then commit the new ceilings.
    Resize { idx: usize, cmds: Vec<HostCmd>, new_data: i64, new_repo: i64 },
    /// Create `mount`: run `cmds`, mount it, initialize its repository,
    /// then commit the row.
    Provision { mount: Mount, cmds: Vec<HostCmd> },
}

/// The first rule one byte class of a resize request breaks, as its
/// message: a zero delta is a no-op error; shrinking below the bytes in
/// use is refused; growth must fit in the host's free space; and the
/// post-change aggregate must satisfy the quota guard. The boundary case
/// (aggregate equal to the ceiling) is allowed.
pub open spec fn resize_class_refusal(
    cur: int,
    new: int,
    used: int,
    avail: int,
    sum: int,
    limit: int,
) -> Option<Seq<char>> {
    if new == cur {
        Some("No modification is necessary"@)
    } else if new < used {
        Some("Not enough free space to shrink. Please delete files and try again"@)
    } else if new > cur && avail < new - cur {
        Some("Not enough free space on server"@)
    } else if sum + (new - cur) > limit {
        Some("Not enough space on your account!"@)
    } else {
        None
    }
}

/// A resize that changes nothing in a byte class (the requested ceiling
/// equals the current one) is refused as a no-op, whatever the usage,
/// free space and quota say.
pub proof fn lemma_resize_noop_refused(cur: int, used: int, avail: int, sum: int, limit: int)
    ensures
        resize_class_refusal(cur, cur, used, avail, sum, limit) == Some(
            "No modification is necessary"@,
        ),
{
}

/// A resize that would shrink a class below the bytes currently in use is
/// refused, so no physical command is ever planned for it.
pub proof fn lemma_resize_shrink_below_used_refused(
    cur: int,
    new: int,
    used: int,
    avail: int,
    sum: int,
    limit: int,
)
    requires
        new != cur,
        new < used,
    ensures
        resize_class_refusal(cur, new, used, avail, sum, limit) == Some(
            "Not enough free space to shrink. Please delete files and try again"@,
        ),
{
}

/// The quota guard allows the boundary case: a post-change aggregate that
/// exactly equals the ceiling passes, one byte more is refused.
pub proof fn lemma_quota_boundary(cur: int, new: int, used: int, avail: int, sum: int)
    requires
        new != cur,
        new >= used,
        new > cur ==> avail >= new - cur,
    ensures
        resize_class_refusal(cur, new, used, avail, sum, sum + (new - cur)) is None,
        resize_class_refusal(cur, new, used, avail, sum, sum + (new - cur) - 1) == Some(
            "Not enough space on your account!"@,
        ),
{
}

/// A block size the shrink arithmetic can work with.
pub open spec fn block_size_usable(bs: int) -> bool {
    0 < bs <= i64::MAX
}

/// The first rule a provision request breaks, if any, as its message.
pub open spec fn provision_refusal(
    new_data: int,
    new_repo: int,
    d_avail: int,
    r_avail: int,
    d_sum: int,
    r_sum: int,
    u: crate::users::UserV,
) -> Option<Seq<char>> {
    if d_avail < new_data {
        Some("Not enough data free space on server"@)
    } else if r_avail < new_repo {
        Some("Not enough repo free space on server"@)
    } else if d_sum + new_data > u.max_data_bytes {
        Some("Not enough space on your account!"@)
    } else if r_sum + new_repo > u.max_snapshot_bytes {
        Some("Not enough space on your account!"@)
    } else {
        None
    }
}

/// The strictly ordered physical resize sequence for one image.
///
/// A repository image first loses its view mount. Then: scratch directory,
/// unmount, check; for growth allocate, check again and grow the
/// filesystem, for shrink the filesystem shrinks to `blocks` and is
/// checked again; finally a mount into the scratch directory validates the
/// image, which is then unmounted and the scratch directory removed.
pub open spec fn resize_image_cmds_ok(
    cmds: Seq<HostCmd>,
    is_data: bool,
    img: Seq<char>,
    mnt: Seq<char>,
    scratch: Seq<char>,
    new_bytes: int,
    blocks: int,
    grow: bool,
) -> bool {
    let k: int = if is_data {
        0
    } else {
        1
    };
    &&& cmds.len() == k + if grow {
        9int
    } else {
        8int
    }
    &&& (!is_data ==> (cmds[0] matches HostCmd::Umount(p) && p@ == mnt + "/repo-mnt"@))
    &&& (cmds[k] matches HostCmd::CreateDirAll(p) && p@ == scratch)
    &&& (cmds[k + 1] matches HostCmd::Umount(p) && p@ == mnt)
    &&& (cmds[k + 2] matches HostCmd::Fsck(p) && p@ == img)
    &&& if grow {
        &&& (cmds[k + 3] matches HostCmd::Fallocate { img: i2, bytes } && i2@ == img && bytes
            == new_bytes)
        &&& (cmds[k + 4] matches HostCmd::Fsck(p) && p@ == img)
        &&& (cmds[k + 5] matches HostCmd::ResizeFs(p) && p@ == img)
        &&& (cmds[k + 6] matches HostCmd::Mount { img: i2, mnt: m2 } && i2@ == img && m2@
            == scratch)
        &&& (cmds[k + 7] matches HostCmd::Umount(p) && p@ == scratch)
        &&& (cmds[k + 8] matches HostCmd::RemoveDir(p) && p@ == scratch)
    } else {
        &&& (cmds[k + 3] matches HostCmd::ResizeFsTo { img: i2, blocks: b2 } && i2@ == img && b2
            == blocks)
        &&& (cmds[k + 4] matches HostCmd::Fsck(p) && p@ == img)
        &&& (cmds[k + 5] matches HostCmd::Mount { img: i2, mnt: m2 } && i2@ == img && m2@
            == scratch)
        &&& (cmds[k + 6] matches HostCmd::Umount(p) && p@ == scratch)
        &&& (cmds[k + 7] matches HostCmd::RemoveDir(p) && p@ == scratch)
    }
}

/// Appends the resize sequence for one image to `plan`.
fn push_resize_image_cmds(
    plan: &mut Vec<HostCmd>,
    is_data: bool,
    grow: bool,
    img: &String,
    mnt: &String,
    scratch: &String,
    new_bytes: i64,
    blocks: i64,
) -> (n: usize)
    ensures
        final(plan)@.len() == old(plan)@.len() + n,
        final(plan)@.subrange(0, old(plan)@.len() as int) == old(plan)@,
        resize_image_cmds_ok(
            final(plan)@.subrange(old(plan)@.len() as int, final(plan)@.len() as int),
            is_data,
            img@,
            mnt@,
            scratch@,
            new_bytes as int,
            blocks as int,
            grow,
        ),
{
    let base = plan.len();
    if !is_data {
        plan.push(HostCmd::Umount(concat_str(mnt.as_str(), "/repo-mnt")));
    }
    plan.push(HostCmd::CreateDirAll(scratch.clone()));
    plan.push(HostCmd::Umount(mnt.clone()));
    plan.push(HostCmd::Fsck(img.clone()));
    if grow {
        plan.push(HostCmd::Fallocate { img: img.clone(), bytes: new_bytes });
        plan.push(HostCmd::Fsck(img.clone()));
        plan.push(HostCmd::ResizeFs(img.clone()));
    } else {
        plan.push(HostCmd::ResizeFsTo { img: img.clone(), blocks });
        plan.push(HostCmd::Fsck(img.clone()));
    }
    plan.push(HostCmd::Mount { img: img.clone(), mnt: scratch.clone() });
    plan.push(HostCmd::Umount(scratch.clone()));
    plan.push(HostCmd::RemoveDir(scratch.clone()));
    proof {
        assert(plan@.subrange(0, base as int) =~= old(plan)@);
    }
    plan.len() - base
}

/// The allocation sequence for a fresh volume: for each image, its mount
/// directory, the allocated image, a fresh filesystem, open permissions.
pub open spec fn provision_cmds_ok(cmds: Seq<HostCmd>, m: Mount) -> bool {
    &&& cmds.len() == 8
    &&& (cmds[0] matches HostCmd::CreateDirAll(p) && p@ == m@.data_mnt_path)
    &&& (cmds[1] matches HostCmd::Fallocate { img, bytes } && img@ == m@.data_img_path && bytes
        == m@.data_max_bytes)
    &&& (cmds[2] matches HostCmd::Mkfs(p) && p@ == m@.data_img_path)
    &&& (cmds[3] matches HostCmd::Chmod(p) && p@ == m@.data_img_path)
    &&& (cmds[4] matches HostCmd::CreateDirAll(p) && p@ == m@.repo_mnt_path)
    &&& (cmds[5] matches HostCmd::Fallocate { img, bytes } && img@ == m@.repo_img_path && bytes
        == m@.repo_max_bytes)
    &&& (cmds[6] matches HostCmd::Mkfs(p) && p@ == m@.repo_img_path)
    &&& (cmds[7] matches HostCmd::Chmod(p) && p@ == m@.repo_img_path)
}

/// Relies on `passwords::PasswordGenerator::generate_one`: with length 8,
/// numbers and both letter cases enabled and similar characters excluded,
/// the strict generator always succeeds and returns 8 ASCII characters.
#[verifier::external_body]
fn generate_repo_password() -> (r: String)
    ensures
        r@.len() == 8,
{
    passwords::PasswordGenerator::new()
        .length(8)
        .numbers(true)
        .lowercase_letters(true)
        .uppercase_letters(true)
        .symbols(false)
        .spaces(false)
        .exclude_similar_characters(true)
        .strict(true)
        .generate_one()
        .unwrap()
}

/// Relies on `rustic_backend::BackendOptions::to_backends` and
/// `rustic_core::Repository::{new, init}`: creates an empty encrypted
/// repository at `repo_dir`, protected by `password`.
#[verifier::external_body]
fn engine_init_repository(repo_dir: &str, password: &str) -> (r: Result<(), String>) {
    let backends = rustic_backend::BackendOptions::default()
        .repository(repo_dir)
        .to_backends()
        .map_err(|e| e.to_string())?;
    let repo = rustic_core::Repository::new(&rustic_core::RepositoryOptions::default(), &backends)
        .map_err(|e| e.to_string())?;
    let creds = rustic_core::Credentials::password(password);
    repo.init(&creds, &rustic_core::KeyOptions::default(), &rustic_core::ConfigOptions::default())
        .map_err(|e| e.to_string())?;
    Ok(())
}

/// The data-class quota aggregate a resize or provision must respect.
pub open spec fn user_class_sum(s: Store, owner: Seq<char>, is_data: bool) -> int {
    crate::quota::class_sum(
        crate::store::owned_filter(crate::store::mount_views(s.mounts@), owner),
        is_data,
    )
}

/// The volume at `i` of the store is the one keyed `(owner, name)`.
pub open spec fn store_mount_at(s: Store, i: int, owner: Seq<char>, name: Seq<char>) -> bool {
    &&& 0 <= i < s.mounts@.len()
    &&& (s.mounts@[i])@.owned_by == owner
    &&& (s.mounts@[i])@.mount_name == name
}

/// Everything [`put_mount_plan`] promises of a resize decision for the
/// volume `pt`, given the gathered facts.
pub open spec fn resize_outcome_ok(
    r: Result<PutMountPlan, NeptisError>,
    i: int,
    pt: crate::mounts::MountV,
    new_data: int,
    new_repo: int,
    ro: ResizeObs,
    env: HostEnv,
    d_sum: int,
    r_sum: int,
    u: crate::users::UserV,
) -> bool {
    let d_ref = resize_class_refusal(
        pt.data_max_bytes,
        new_data,
        ro.d_stats.b_used as int,
        env.d_sys.b_avail as int,
        d_sum,
        u.max_data_bytes,
    );
    let r_ref = resize_class_refusal(
        pt.repo_max_bytes,
        new_repo,
        ro.r_stats.b_used as int,
        env.r_sys.b_avail as int,
        r_sum,
        u.max_snapshot_bytes,
    );
    &&& (d_ref is Some ==> (r matches Err(e) && is_bad_request(e, d_ref->Some_0)))
    &&& (d_ref is None && !block_size_usable(ro.d_block_size as int) ==> (r matches Err(e)
        && is_internal_error(e, "Failed to determine block size of FS"@)))
    &&& (d_ref is None && block_size_usable(ro.d_block_size as int) && r_ref is Some ==> (
    r matches Err(e) && is_bad_request(e, r_ref->Some_0)))
    &&& (d_ref is None && block_size_usable(ro.d_block_size as int) && r_ref is None
        && !block_size_usable(ro.r_block_size as int) ==> (r matches Err(e) && is_internal_error(
        e,
        "Failed to determine block size of FS"@,
    )))
    &&& (d_ref is None && r_ref is None && block_size_usable(ro.d_block_size as int)
        && block_size_usable(ro.r_block_size as int) ==> r is Ok)
    &&& (r matches Ok(p) ==> (p matches PutMountPlan::Resize { idx, cmds, new_data: nd, new_repo: nr }
        && idx == i && nd == new_data && nr == new_repo && ({
        let grow_d = new_data > pt.data_max_bytes;
        let grow_r = new_repo > pt.repo_max_bytes;
        let dlen: int = if grow_d {
            9
        } else {
            8
        };
        let rlen: int = 1 + if grow_r {
            9int
        } else {
            8int
        };
        &&& cmds@.len() == dlen + rlen
        &&& resize_image_cmds_ok(
            cmds@.subrange(0, dlen),
            true,
            pt.data_img_path,
            pt.data_mnt_path,
            ro.scratch_data@,
            new_data,
            new_data / (ro.d_block_size as int),
            grow_d,
        )
        &&& resize_image_cmds_ok(
            cmds@.subrange(dlen, dlen + rlen),
            false,
            pt.repo_img_path,
            pt.repo_mnt_path,
            ro.scratch_repo@,
            new_repo,
            new_repo / (ro.r_block_size as int),
            grow_r,
        )
    })))
}

/// Everything [`put_mount_plan`] promises of a provision decision.
pub open spec fn provision_outcome_ok(
    r: Result<PutMountPlan, NeptisError>,
    owner: Seq<char>,
    name: Seq<char>,
    new_data: int,
    new_repo: int,
    env: HostEnv,
    d_sum: int,
    r_sum: int,
    u: crate::users::UserV,
    now: int,
) -> bool {
    let refusal = provision_refusal(
        new_data,
        new_repo,
        env.d_sys.b_avail as int,
        env.r_sys.b_avail as int,
        d_sum,
        r_sum,
        u,
    );
    &&& (refusal is Some ==> (r matches Err(e) && is_bad_request(e, refusal->Some_0)))
    &&& (refusal is None ==> r is Ok)
    &&& (r matches Ok(p) ==> (p matches PutMountPlan::Provision { mount, cmds }
        && provision_cmds_ok(cmds@, mount) && ({
        let m = mount@;
        &&& m.owned_by == owner
        &&& m.mount_name == name
        &&& m.data_max_bytes == new_data
        &&& m.repo_max_bytes == new_repo
        &&& m.date_created == now
        &&& m.data_accessed == now
        &&& m.repo_accessed == now
        &&& !m.locked
        &&& m.repo_password.len() == 8
        &&& m.data_img_path == env.data_path@ + "/"@ + name + "-"@ + owner + "-DATA.img"@
        &&& m.data_mnt_path == env.data_path@ + "/"@ + name + "-"@ + owner + "-DATA"@
        &&& m.repo_img_path == env.repo_path@ + "/"@ + name + "-"@ + owner + "-REPO.img"@
        &&& m.repo_mnt_path == env.repo_path@ + "/"@ + name + "-"@ + owner + "-REPO"@
    })))
}

/// Decides a create-or-resize request.
///
/// Both requested ceilings must clear the minimum allocation floor. A
/// volume already keyed `(caller, name)` turns the call into a resize of
/// that volume; otherwise a fresh volume is planned. All checks run here,
/// before any physical step.
pub fn put_mount_plan(
    store: &Store,
    auth_user: &User,
    m_name: &str,
    dto: &crate::mount_dtos::PutForMountApi,
    env: &HostEnv,
    obs: &PutMountObs,
    now: i64,
) -> (r: Result<PutMountPlan, NeptisError>)
    requires
        store_wf(*store),
        (obs is Existing) <==> exists|i: int|
            store_mount_at(*store, i, auth_user@.user_name, m_name@),
    ensures
        dto.data_bytes <= 5_000_000 ==> (r matches Err(e) && is_bad_request(
            e,
            "You must allocate at least 5MB on your data storage!"@,
        )),
        dto.data_bytes > 5_000_000 && dto.repo_bytes <= 5_000_000 ==> (r matches Err(e)
            && is_bad_request(e, "You must allocate at least 5MB on your repository storage."@)),
        r matches Ok(p) ==> ((p is Resize) <==> (obs is Existing)),
        (dto.data_bytes > 5_000_000 && dto.repo_bytes > 5_000_000) ==> (
        obs matches PutMountObs::Existing(ro) ==> forall|i: int|
            store_mount_at(*store, i, auth_user@.user_name, m_name@) ==> resize_outcome_ok(
                r,
                i,
                (#[trigger] store.mounts@[i])@,
                dto.data_bytes as int,
                dto.repo_bytes as int,
                *ro,
                *env,
                user_class_sum(*store, auth_user@.user_name, true),
                user_class_sum(*store, auth_user@.user_name, false),
                auth_user@,
            )),
        (dto.data_bytes > 5_000_000 && dto.repo_bytes > 5_000_000 && obs is Fresh)
            ==> provision_outcome_ok(
            r,
            auth_user@.user_name,
            m_name@,
            dto.data_bytes as int,
            dto.repo_bytes as int,
            *env,
            user_class_sum(*store, auth_user@.user_name, true),
            user_class_sum(*store, auth_user@.user_name, false),
            auth_user@,
            now as int,
        ),
{
    if dto.data_bytes <= 5_000_000 {
        return Err(NeptisError::BadRequest(
            String::from_str("You must allocate at least 5MB on your data storage!"),
        ));
    }
    if dto.repo_bytes <= 5_000_000 {
        return Err(NeptisError::BadRequest(
            String::from_str("You must allocate at least 5MB on your repository storage."),
        ));
    }
    let owner = auth_user.user_name.as_str();
    let all_mounts = store.mounts_for_user(owner);
    proof {
        crate::store::lemma_owned_filter_ok(
            crate::store::mount_views(store.mounts@),
            auth_user@.user_name,
        );
        assert forall|i: int| 0 <= i < all_mounts@.len() implies crate::mounts::mount_ok(
            (#[trigger] all_mounts@[i])@,
        ) by {
            assert((all_mounts@[i])@ == crate::store::mount_views(all_mounts@)[i]);
        }
    }
    match obs {
        PutMountObs::Existing(ro) => {
            let found = store.find_mount_idx(owner, m_name);
            let idx = match found {
                Some(i) => i,
                None => {
                    proof {
                        assert(false);
                    }
                    return Err(NeptisError::InternalError(String::from_str("unreachable")));
                },
            };
            proof {
                assert forall|j: int|
                    store_mount_at(*store, j, auth_user@.user_name, m_name@) implies j
                    == idx as int by {
                    if j != idx as int {
                        let a = if j < idx as int {
                            j
                        } else {
                            idx as int
                        };
                        let b = if j < idx as int {
                            idx as int
                        } else {
                            j
                        };
                        assert(crate::store::mount_views(store.mounts@)[a] == (store.mounts@[a])@);
                        assert(crate::store::mount_views(store.mounts@)[b] == (store.mounts@[b])@);
                    }
                }
            }
            let point = &store.mounts[idx];
            let cur_d = point.data_max_bytes;
            let cur_r = point.repo_max_bytes;
            if dto.data_bytes == cur_d {
                return Err(NeptisError::BadRequest(
                    String::from_str("No modification is necessary"),
                ));
            }
            if (dto.data_bytes as u64) < (ro.d_stats.b_used as u64) {
                return Err(NeptisError::BadRequest(
                    String::from_str("Not enough free space to shrink. Please delete files and try again"),
                ));
            }
            let grow_d = dto.data_bytes > cur_d;
            if grow_d && (env.d_sys.b_avail as u64) < ((dto.data_bytes - cur_d) as u64) {
                return Err(NeptisError::BadRequest(
                    String::from_str("Not enough free space on server"),
                ));
            }
            match crate::quota::check_class_aggregate(
                auth_user,
                &all_mounts,
                dto.data_bytes - cur_d,
                true,
            ) {
                Ok(_) => (),
                Err(e) => {
                    return Err(e);
                },
            }
            if ro.d_block_size == 0 || (ro.d_block_size as u64) > (i64::MAX as u64) {
                return Err(NeptisError::InternalError(
                    String::from_str("Failed to determine block size of FS"),
                ));
            }
            if dto.repo_bytes == cur_r {
                return Err(NeptisError::BadRequest(
                    String::from_str("No modification is necessary"),
                ));
            }
            if (dto.repo_bytes as u64) < (ro.r_stats.b_used as u64) {
                return Err(NeptisError::BadRequest(
                    String::from_str("Not enough free space to shrink. Please delete files and try again"),
                ));
            }
            let grow_r = dto.repo_bytes > cur_r;
            if grow_r && (env.r_sys.b_avail as u64) < ((dto.repo_bytes - cur_r) as u64) {
                return Err(NeptisError::BadRequest(
                    String::from_str("Not enough free space on server"),
                ));
            }
            match crate::quota::check_class_aggregate(
                auth_user,
                &all_mounts,
                dto.repo_bytes - cur_r,
                false,
            ) {
                Ok(_) => (),
                Err(e) => {
                    return Err(e);
                },
            }
            if ro.r_block_size == 0 || (ro.r_block_size as u64) > (i64::MAX as u64) {
                return Err(NeptisError::InternalError(
                    String::from_str("Failed to determine block size of FS"),
                ));
            }
            let d_blocks = dto.data_bytes / (ro.d_block_size as i64);
            let r_blocks = dto.repo_bytes / (ro.r_block_size as i64);
            let mut cmds: Vec<HostCmd> = Vec::new();
            let dlen = push_resize_image_cmds(
                &mut cmds,
                true,
                grow_d,
                &point.data_img_path,
                &point.data_mnt_path,
                &ro.scratch_data,
                dto.data_bytes,
                d_blocks,
            );
            let _rlen = push_resize_image_cmds(
                &mut cmds,
                false,
                grow_r,
                &point.repo_img_path,
                &point.repo_mnt_path,
                &ro.scratch_repo,
                dto.repo_bytes,
                r_blocks,
            );
            Ok(
                PutMountPlan::Resize {
                    idx,
                    cmds,
                    new_data: dto.data_bytes,
                    new_repo: dto.repo_bytes,
                },
            )
        },
        PutMountObs::Fresh => {
            if (env.d_sys.b_avail as u64) < (dto.data_bytes as u64) {
                return Err(NeptisError::BadRequest(
                    String::from_str("Not enough data free space on server"),
                ));
            }
            if (env.r_sys.b_avail as u64) < (dto.repo_bytes as u64) {
                return Err(NeptisError::BadRequest(
                    String::from_str("Not enough repo free space on server"),
                ));
            }
            match crate::quota::check_class_aggregate(auth_user, &all_mounts, dto.data_bytes, true) {
                Ok(_) => (),
                Err(e) => {
                    return Err(e);
                },
            }
            match crate::quota::check_class_aggregate(
                auth_user,
                &all_mounts,
                dto.repo_bytes,
                false,
            ) {
                Ok(_) => (),
                Err(e) => {
                    return Err(e);
                },
            }
            let stem_d = concat_str(
                concat_str(
                    concat_str(concat_str(env.data_path.as_str(), "/").as_str(), m_name).as_str(),
                    "-",
                ).as_str(),
                owner,
            );
            let stem_r = concat_str(
                concat_str(
                    concat_str(concat_str(env.repo_path.as_str(), "/").as_str(), m_name).as_str(),
                    "-",
                ).as_str(),
                owner,
            );
            let p_mount = Mount {
                mount_name: String::from_str(m_name),
                owned_by: auth_user.user_name.clone(),
                data_img_path: concat_str(stem_d.as_str(), "-DATA.img"),
                data_mnt_path: concat_str(stem_d.as_str(), "-DATA"),
                repo_img_path: concat_str(stem_r.as_str(), "-REPO.img"),
                repo_mnt_path: concat_str(stem_r.as_str(), "-REPO"),
                repo_password: generate_repo_password(),
                data_max_bytes: dto.data_bytes,
                repo_max_bytes: dto.repo_bytes,
                date_created: now,
                data_accessed: now,
                repo_accessed: now,
                locked: false,
            };
            let mut cmds: Vec<HostCmd> = Vec::new();
            cmds.push(HostCmd::CreateDirAll(p_mount.data_mnt_path.clone()));
            cmds.push(
                HostCmd::Fallocate { img: p_mount.data_img_path.clone(), bytes: dto.data_bytes },
            );
            cmds.push(HostCmd::Mkfs(p_mount.data_img_path.clone()));
            cmds.push(HostCmd::Chmod(p_mount.data_img_path.clone()));
            cmds.push(HostCmd::CreateDirAll(p_mount.repo_mnt_path.clone()));
            cmds.push(
                HostCmd::Fallocate { img: p_mount.repo_img_path.clone(), bytes: dto.repo_bytes },
            );
            cmds.push(HostCmd::Mkfs(p_mount.repo_img_path.clone()));
            cmds.push(HostCmd::Chmod(p_mount.repo_img_path.clone()));
            Ok(PutMountPlan::Provision { mount: p_mount, cmds })
        },
    }
}

/// Commits a finished resize: the row keyed `(owner, name)` gets its new
/// ceilings and freshly touched access timestamps. Runs only after every
/// physical step of the plan succeeded; a missing row is a store lookup
/// failure and nothing changes.
pub fn put_mount_commit_resize(
    store: &mut Store,
    owner: &str,
    m_name: &str,
    new_data: i64,
    new_repo: i64,
    now: i64,
) -> (r: Result<(), NeptisError>)
    requires
        store_wf(*old(store)),
        new_data >= 0,
        new_repo >= 0,
    ensures
        store_wf(*final(store)),
        r is Ok <==> exists|i: int| store_mount_at(*old(store), i, owner@, m_name@),
        r matches Err(e) ==> e is DbQuery && *final(store) == *old(store),
        r is Ok ==> final(store).users@ == old(store).users@ && final(store).sessions@ == old(
            store,
        ).sessions@ && final(store).repo_jobs@ == old(store).repo_jobs@,
        r is Ok ==> forall|i: int|
            store_mount_at(*old(store), i, owner@, m_name@) ==> final(store).mounts@.len() == old(
                store,
            ).mounts@.len() && (forall|j: int|
                0 <= j < old(store).mounts@.len() && j != i ==> final(store).mounts@[j] == old(
                    store,
                ).mounts@[j]) && (#[trigger] final(store).mounts@[i])@
                == (crate::mounts::MountV {
                data_max_bytes: new_data as int,
                repo_max_bytes: new_repo as int,
                data_accessed: now as int,
                repo_accessed: now as int,
                ..(old(store).mounts@[i])@
            }),
{
    let found = store.find_mount_idx(owner, m_name);
    let idx = match found {
        Some(i) => i,
        None => {
            proof {
                assert forall|i: int|
                    !store_mount_at(*store, i, owner@, m_name@) by {
                    if 0 <= i < store.mounts@.len() {
                        assert(!((store.mounts@[i])@.owned_by == owner@
                            && store.mounts@[i]@.mount_name == m_name@));
                    }
                }
            }
            return Err(NeptisError::DbQuery(String::from_str("The point does not exist!")));
        },
    };
    proof {
        assert(store_mount_at(*store, idx as int, owner@, m_name@));
        assert forall|j: int| store_mount_at(*store, j, owner@, m_name@) implies j
            == idx as int by {
            if j != idx as int {
                let a = if j < idx as int {
                    j
                } else {
                    idx as int
                };
                let b = if j < idx as int {
                    idx as int
                } else {
                    j
                };
                assert(crate::store::mount_views(store.mounts@)[a] == (store.mounts@[a])@);
                assert(crate::store::mount_views(store.mounts@)[b] == (store.mounts@[b])@);
            }
        }
    }
    let mut u_point = store.mounts[idx].duplicate();
    u_point.data_max_bytes = new_data;
    u_point.repo_max_bytes = new_repo;
    u_point.data_accessed = now;
    u_point.repo_accessed = now;
    store.update_mount_at(idx, u_point);
    Ok(())
}

/// Commits a finished provision: validates the new row and inserts it.
/// Runs only after allocation, mounting and repository initialization all
/// succeeded. A row that meanwhile took the key is a store failure; an
/// invalid row is a validation failure; either way nothing changes.
pub fn put_mount_commit_provision(store: &mut Store, mount: Mount) -> (r: Result<(), NeptisError>)
    requires
        store_wf(*old(store)),
    ensures
        store_wf(*final(store)),
        r matches Err(e) ==> (e is Validation || e is DbQuery) && *final(store) == *old(store),
        r is Ok ==> final(store).users@ == old(store).users@ && final(store).sessions@ == old(
            store,
        ).sessions@ && final(store).repo_jobs@ == old(store).repo_jobs@,
        r is Ok <==> ({
            &&& crate::strutil::trim_spec(mount@.mount_name).len() > 0
            &&& crate::strutil::trim_spec(mount@.data_img_path).len() > 0
            &&& crate::strutil::trim_spec(mount@.data_mnt_path).len() > 0
            &&& crate::strutil::trim_spec(mount@.repo_img_path).len() > 0
            &&& crate::strutil::trim_spec(mount@.repo_mnt_path).len() > 0
            &&& crate::strutil::trim_spec(mount@.owned_by).len() > 0
            &&& mount@.data_max_bytes >= 0
            &&& mount@.repo_max_bytes >= 0
            &&& (forall|i: int|
                0 <= i < old(store).mounts@.len() ==> !((#[trigger] old(
                    store,
                ).mounts@[i])@.owned_by == crate::strutil::trim_spec(mount@.owned_by) && old(
                    store,
                ).mounts@[i]@.mount_name == crate::strutil::trim_spec(mount@.mount_name)))
        }),
        r is Ok ==> final(store).mounts@.len() == old(store).mounts@.len() + 1 && (forall|j: int|
            0 <= j < old(store).mounts@.len() ==> final(store).mounts@[j] == old(
                store,
            ).mounts@[j]) && crate::mounts::mount_trimmed_to(
            mount@,
            (final(store).mounts@.last())@,
        ),
{
    let t = match crate::traits::CleanValidate::validate(mount) {
        Ok(t) => t,
        Err(e) => {
            return Err(NeptisError::Validation(e));
        },
    };
    let dup = store.find_mount_idx(t.owned_by.as_str(), t.mount_name.as_str());
    if dup.is_some() {
        return Err(NeptisError::DbQuery(String::from_str("The point already exists!")));
    }
    store.insert_mount(t);
    Ok(())
}

/// Initializes the backup repository inside a freshly provisioned,
/// mounted volume, using its generated passphrase. Engine failures come
/// back as engine errors; nothing else is promised of the outcome.
pub fn init_mount_repository(point: &Mount) -> (r: Result<(), NeptisError>)
    ensures
        r matches Err(e) ==> e is RusticJob,
{
    let repo_dir = concat_str(point.repo_mnt_path.as_str(), "/repo");
    match engine_init_repository(repo_dir.as_str(), point.repo_password.as_str()) {
        Ok(u) => Ok(u),
        Err(m) => Err(NeptisError::RusticJob(m)),
    }
}

} // verus!
