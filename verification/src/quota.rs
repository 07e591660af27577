//! The quota guard: pure validation of per-user byte ceilings.
//!
//! Both checks take the aggregate *after* the proposed change, across all
//! of the user's volumes, and allow it exactly when it does not exceed the
//! user's ceiling for the class; the boundary case (aggregate equal to the
//! ceiling) is allowed.

use vstd::prelude::*;
use vstd::string::*;
use crate::errors::NeptisError;
use crate::errors::is_bad_request;
use crate::users::User;
use crate::users::UserV;

verus! {

/// The user's ceiling for one byte class.
pub open spec fn class_limit(u: UserV, is_data: bool) -> int {
    if is_data {
        u.max_data_bytes
    } else {
        u.max_snapshot_bytes
    }
}

/// Allows a post-change aggregate `bytes` for one byte class exactly when
/// it stays within the user's ceiling for that class.
pub fn ensure_single_limit(auth_user: &User, bytes: usize, is_data: bool) -> (r: Result<
    (),
    NeptisError,
>)
    ensures
        r is Ok <==> bytes as int <= class_limit(auth_user@, is_data),
        r matches Err(e) ==> is_bad_request(e, "Not enough space on your account!"@),
{
    let limit = if is_data {
        auth_user.max_data_bytes
    } else {
        auth_user.max_snapshot_bytes
    };
    if limit >= 0 && bytes as u64 <= limit as u64 {
        Ok(())
    } else {
        Err(NeptisError::BadRequest(String::from_str("Not enough space on your account!")))
    }
}

/// Allows a post-change pair of aggregates exactly when each stays within
/// its ceiling.
pub fn ensure_user_limit(auth_user: &User, d_total: usize, r_total: usize) -> (r: Result<
    (),
    NeptisError,
>)
    ensures
        r is Ok <==> d_total as int <= auth_user@.max_data_bytes && r_total as int
            <= auth_user@.max_snapshot_bytes,
        r matches Err(e) ==> is_bad_request(e, "Not enough space on your account!"@),
{
    let d_ok = auth_user.max_data_bytes >= 0 && d_total as u64 <= auth_user.max_data_bytes as u64;
    let r_ok = auth_user.max_snapshot_bytes >= 0 && r_total as u64
        <= auth_user.max_snapshot_bytes as u64;
    if d_ok && r_ok {
        Ok(())
    } else {
        Err(NeptisError::BadRequest(String::from_str("Not enough space on your account!")))
    }
}

/// The sum of one byte class's ceilings over a set of volumes.
pub open spec fn class_sum(ms: Seq<crate::mounts::MountV>, is_data: bool) -> int
    decreases ms.len(),
{
    if ms.len() == 0 {
        0
    } else {
        class_sum(ms.drop_last(), is_data) + if is_data {
            ms.last().data_max_bytes
        } else {
            ms.last().repo_max_bytes
        }
    }
}

proof fn lemma_class_sum_tail(ms: Seq<crate::mounts::MountV>, is_data: bool, k: int)
    requires
        forall|i: int| 0 <= i < ms.len() ==> crate::mounts::mount_ok(#[trigger] ms[i]),
        0 <= k <= ms.len(),
    ensures
        class_sum(ms, is_data) >= class_sum(ms.take(k), is_data),
    decreases ms.len() - k,
{
    if k < ms.len() {
        assert(ms.take(k + 1).drop_last() =~= ms.take(k));
        assert(ms.take(k + 1).last() == ms[k]);
        lemma_class_sum_tail(ms, is_data, k + 1);
    } else {
        assert(ms.take(k) =~= ms);
    }
}

/// Sums one class's ceilings, or reports that the sum leaves `u64`.
fn class_sum_u64(mounts: &Vec<crate::mounts::Mount>, is_data: bool) -> (r: Option<u64>)
    requires
        forall|i: int|
            0 <= i < mounts@.len() ==> crate::mounts::mount_ok((#[trigger] mounts@[i])@),
    ensures
        ({
            let total = class_sum(crate::store::mount_views(mounts@), is_data);
            &&& (r matches Some(v) ==> v == total)
            &&& (r is Some <==> total <= u64::MAX)
        }),
{
    let ghost vs = crate::store::mount_views(mounts@);
    let n = mounts.len();
    let mut acc: u64 = 0;
    let mut k: usize = 0;
    proof {
        assert(vs.take(0) =~= Seq::<crate::mounts::MountV>::empty());
        assert forall|i: int| 0 <= i < vs.len() implies crate::mounts::mount_ok(
            #[trigger] vs[i],
        ) by {
            assert(vs[i] == (mounts@[i])@);
        }
    }
    while k < n
        invariant
            k <= n,
            n == mounts@.len(),
            vs == crate::store::mount_views(mounts@),
            forall|i: int| 0 <= i < vs.len() ==> crate::mounts::mount_ok(#[trigger] vs[i]),
            acc == class_sum(vs.take(k as int), is_data),
        decreases n - k,
    {
        let x = if is_data {
            mounts[k].data_max_bytes
        } else {
            mounts[k].repo_max_bytes
        };
        proof {
            assert(vs.take(k + 1).drop_last() =~= vs.take(k as int));
            assert(vs.take(k + 1).last() == vs[k as int]);
            assert(crate::mounts::mount_ok(vs[k as int]));
        }
        if acc > u64::MAX - (x as u64) {
            proof {
                lemma_class_sum_tail(vs, is_data, k + 1);
            }
            return None;
        }
        acc = acc + (x as u64);
        k += 1;
    }
    proof {
        assert(vs.take(n as int) =~= vs);
    }
    Some(acc)
}

/// Consults the quota guard for one byte class: the post-change aggregate
/// (current sum plus `delta`) must stay within the user's ceiling.
pub fn check_class_aggregate(
    auth_user: &User,
    mounts: &Vec<crate::mounts::Mount>,
    delta: i64,
    is_data: bool,
) -> (r: Result<(), NeptisError>)
    requires
        forall|i: int|
            0 <= i < mounts@.len() ==> crate::mounts::mount_ok((#[trigger] mounts@[i])@),
    ensures
        r is Ok <==> class_sum(crate::store::mount_views(mounts@), is_data) + delta <= class_limit(
            auth_user@,
            is_data,
        ),
        r matches Err(e) ==> is_bad_request(e, "Not enough space on your account!"@),
{
    let limit = if is_data {
        auth_user.max_data_bytes
    } else {
        auth_user.max_snapshot_bytes
    };
    let ok = match class_sum_u64(mounts, is_data) {
        None => false,
        Some(v) => {
            let post: i128 = v as i128 + delta as i128;
            post <= limit as i128
        },
    };
    if ok {
        Ok(())
    } else {
        Err(NeptisError::BadRequest(String::from_str("Not enough space on your account!")))
    }
}

} // verus!
