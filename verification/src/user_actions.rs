//! The user operations: account management and session login/lookup.

use vstd::prelude::*;
use vstd::string::*;
use crate::crypto::decrypt;
use crate::crypto::decrypt_of;
use crate::crypto::encrypt;
use crate::encoding::b64_dec_of;
use crate::encoding::b64_decode;
use crate::encoding::b64_encode;
use crate::errors::NeptisError;
use crate::errors::is_bad_request;
use crate::errors::is_unauthorized;
use crate::hash::encoded_hash_of;
use crate::hostinfo::split_ws;
use crate::hostinfo::ws_tokens;
use crate::ids::uid_from_ascii;
use crate::ids::uid_parsed;
use crate::ids::uid_to_string;
use crate::store::Store;
use crate::store::store_wf;
use crate::store::user_views;
use crate::strutil::str_eq;
use crate::traits::CleanValidate;
use crate::user_dtos::UserDto;
use crate::user_dtos::UserForCreateApi;
use crate::user_dtos::UserForLoginApi;
use crate::user_dtos::UserForUpdateApi;
use crate::users::Session;
use crate::users::User;
use crate::users::session_active;

verus! {

/// A freshly issued session token with its expiry.
#[derive(Debug)]
pub struct SessionToken {
    /// The bearer token: the encrypted session identifier, base64-encoded.
    pub token: String,
    /// When the session expires, as Unix seconds.
    pub expire_date: i64,
}

/// Creates an account. Only administrators may; the input is validated,
/// a taken name is a store failure, and the new row is reported back.
pub fn create_user(store: &mut Store, auth_user: &User, user: UserForCreateApi, now: i64) -> (r:
    Result<UserDto, NeptisError>)
    requires
        store_wf(*old(store)),
    ensures
        store_wf(*final(store)),
        final(store).mounts@ == old(store).mounts@,
        final(store).sessions@ == old(store).sessions@,
        final(store).repo_jobs@ == old(store).repo_jobs@,
        !auth_user.is_admin ==> (r matches Err(e) && is_unauthorized(
            e,
            "You must be admin to create a user!"@,
        ) && *final(store) == *old(store)),
        r is Err ==> *final(store) == *old(store),
        (auth_user.is_admin && crate::strutil::trim_spec(user.user_name@).len() > 0
            && crate::strutil::trim_spec(user.first_name@).len() > 0
            && crate::strutil::trim_spec(user.last_name@).len() > 0 && (forall|i: int|
            0 <= i < old(store).users@.len() ==> (#[trigger] old(store).users@[i])@.user_name
                != crate::strutil::trim_spec(user.user_name@))) ==> r is Ok,
        r is Ok ==> final(store).users@.len() == old(store).users@.len() + 1 && (forall|j: int|
            0 <= j < old(store).users@.len() ==> final(store).users@[j] == old(store).users@[j])
            && ({
            let t = (final(store).users@.last())@;
            &&& t.user_name == crate::strutil::trim_spec(user.user_name@)
            &&& t.password_hash == encoded_hash_of(vstd::utf8::encode_utf8(user.password@))
            &&& t.is_admin == user.is_admin
            &&& t.create_date == now as int
        }),
{
    if !auth_user.is_admin {
        return Err(NeptisError::Unauthorized(
            String::from_str("You must be admin to create a user!"),
        ));
    }
    let u = user.to_user(now);
    let u = match u.validate() {
        Ok(t) => t,
        Err(e) => {
            return Err(NeptisError::Validation(e));
        },
    };
    if store.find_user_idx(u.user_name.as_str()).is_some() {
        return Err(NeptisError::DbQuery(String::from_str("The user already exists!")));
    }
    let dto = match UserDto::try_to_dto(auth_user, u.duplicate()) {
        Ok(d) => d,
        Err(e) => {
            return Err(e);
        },
    };
    store.insert_user(u);
    Ok(dto)
}

/// Partially updates the account named `name`. Only administrators may;
/// a missing account is a store lookup failure. Supplied fields replace
/// the stored ones; a supplied password is stored hashed.
pub fn update_user(store: &mut Store, auth_user: &User, name: &str, user: UserForUpdateApi) -> (r:
    Result<UserDto, NeptisError>)
    requires
        store_wf(*old(store)),
    ensures
        store_wf(*final(store)),
        final(store).mounts@ == old(store).mounts@,
        final(store).sessions@ == old(store).sessions@,
        final(store).repo_jobs@ == old(store).repo_jobs@,
        !auth_user.is_admin ==> (r matches Err(e) && is_unauthorized(
            e,
            "You must be admin to create a user!"@,
        ) && *final(store) == *old(store)),
        r is Err ==> *final(store) == *old(store),
        auth_user.is_admin ==> (r is Ok <==> exists|i: int|
            0 <= i < old(store).users@.len() && (#[trigger] old(store).users@[i])@.user_name
                == name@),
        r is Ok ==> forall|i: int|
            (0 <= i < old(store).users@.len() && (#[trigger] old(store).users@[i])@.user_name
                == name@) ==> {
                let o = (old(store).users@[i])@;
                let t = (final(store).users@[i])@;
                &&& final(store).users@.len() == old(store).users@.len()
                &&& (forall|j: int|
                    0 <= j < old(store).users@.len() && j != i ==> final(store).users@[j] == old(
                        store,
                    ).users@[j])
                &&& t.user_name == o.user_name
                &&& t.first_name == match user.first_name {
                    Some(s) => s@,
                    None => o.first_name,
                }
                &&& t.last_name == match user.last_name {
                    Some(s) => s@,
                    None => o.last_name,
                }
                &&& t.is_admin == match user.is_admin {
                    Some(b) => b,
                    None => o.is_admin,
                }
                &&& t.max_data_bytes == match user.max_data_bytes {
                    Some(v) => v as int,
                    None => o.max_data_bytes,
                }
                &&& t.max_snapshot_bytes == match user.max_snapshot_bytes {
                    Some(v) => v as int,
                    None => o.max_snapshot_bytes,
                }
                &&& t.password_hash == match user.password {
                    Some(p) => encoded_hash_of(vstd::utf8::encode_utf8(p@)),
                    None => o.password_hash,
                }
            },
{
    if !auth_user.is_admin {
        return Err(NeptisError::Unauthorized(
            String::from_str("You must be admin to create a user!"),
        ));
    }
    let found = store.find_user_idx(name);
    let idx = match found {
        Some(i) => i,
        None => {
            return Err(NeptisError::DbQuery(String::from_str("The user does not exist!")));
        },
    };
    proof {
        assert forall|j: int|
            (0 <= j < store.users@.len() && (#[trigger] store.users@[j])@.user_name == name@)
                implies j == idx as int by {
            if j != idx as int {
                let a = if j < idx as int {
                    j
                } else {
                    idx as int
                };
                let b = if j < idx as int {
                    idx as int
                } else {
                    j
                };
                assert(user_views(store.users@)[a] == (store.users@[a])@);
                assert(user_views(store.users@)[b] == (store.users@[b])@);
            }
        }
    }
    let upd = user.to_db(name);
    let mut merged = store.users[idx].duplicate();
    match upd.first_name {
        Some(s) => {
            merged.first_name = s;
        },
        None => {},
    }
    match upd.last_name {
        Some(s) => {
            merged.last_name = s;
        },
        None => {},
    }
    match upd.is_admin {
        Some(b) => {
            merged.is_admin = b;
        },
        None => {},
    }
    match upd.max_data_bytes {
        Some(v) => {
            merged.max_data_bytes = v;
        },
        None => {},
    }
    match upd.max_snapshot_bytes {
        Some(v) => {
            merged.max_snapshot_bytes = v;
        },
        None => {},
    }
    match upd.password_hash {
        Some(h) => {
            merged.password_hash = h;
        },
        None => {},
    }
    let dto = match UserDto::try_to_dto(auth_user, merged.duplicate()) {
        Ok(d) => d,
        Err(e) => {
            return Err(e);
        },
    };
    store.update_user_at(idx, merged);
    Ok(dto)
}

/// Looks one account up by name; a missing one is a store lookup failure.
pub fn get_one_user(store: &Store, auth_user: &User, name: &str) -> (r: Result<
    UserDto,
    NeptisError,
>)
    ensures
        r is Ok <==> exists|i: int|
            0 <= i < store.users@.len() && (#[trigger] store.users@[i])@.user_name == name@,
        r matches Err(e) ==> e is DbQuery,
        r matches Ok(d) ==> exists|i: int|
            0 <= i < store.users@.len() && (#[trigger] store.users@[i])@.user_name == name@
                && d.user_name@ == store.users@[i]@.user_name && d.is_admin
                == store.users@[i]@.is_admin,
{
    let found = store.find_user_idx(name);
    match found {
        Some(i) => {
            proof {
                assert((store.users@[i as int])@.user_name == name@);
            }
            match UserDto::try_to_dto(auth_user, store.users[i].duplicate()) {
                Ok(d) => Ok(d),
                Err(e) => Err(e),
            }
        },
        None => Err(NeptisError::DbQuery(String::from_str("The user does not exist!"))),
    }
}

/// Lists every account, shaped for the caller.
pub fn get_all_users(store: &Store, auth_user: &User) -> (r: Result<Vec<UserDto>, NeptisError>)
    ensures
        r matches Ok(v) ==> v@.len() == store.users@.len() && forall|i: int|
            0 <= i < v@.len() ==> (#[trigger] v@[i]).user_name@ == store.users@[i]@.user_name && (
            v@[i]).is_admin == store.users@[i]@.is_admin,
        r is Ok,
{
    let n = store.users.len();
    let mut out: Vec<UserDto> = Vec::new();
    let mut k: usize = 0;
    while k < n
        invariant
            k <= n,
            n == store.users@.len(),
            out@.len() == k,
            forall|i: int|
                0 <= i < k ==> (#[trigger] out@[i]).user_name@ == store.users@[i]@.user_name && (
                out@[i]).is_admin == store.users@[i]@.is_admin,
        decreases n - k,
    {
        match UserDto::try_to_dto(auth_user, store.users[k].duplicate()) {
            Ok(d) => {
                out.push(d);
            },
            Err(e) => {
                return Err(e);
            },
        }
        k += 1;
    }
    Ok(out)
}

/// Deletes the account named `name`. Only administrators may, and no one
/// deletes themselves; the row count removed (one or zero) is reported.
pub fn delete_one_user(store: &mut Store, auth_user: &User, name: &str) -> (r: Result<
    usize,
    NeptisError,
>)
    requires
        store_wf(*old(store)),
    ensures
        store_wf(*final(store)),
        final(store).mounts@ == old(store).mounts@,
        final(store).sessions@ == old(store).sessions@,
        final(store).repo_jobs@ == old(store).repo_jobs@,
        !auth_user.is_admin ==> (r matches Err(e) && is_unauthorized(
            e,
            "You must be admin to delete a user!"@,
        ) && *final(store) == *old(store)),
        auth_user.is_admin && auth_user@.user_name == name@ ==> (r matches Err(e)
            && is_bad_request(e, "You cannot delete yourself!"@) && *final(store) == *old(store)),
        r is Err ==> *final(store) == *old(store),
        r matches Ok(n) ==> {
            &&& (n == 1 <==> exists|i: int|
                0 <= i < old(store).users@.len() && (#[trigger] old(store).users@[i])@.user_name
                    == name@)
            &&& (n == 0 || n == 1)
            &&& (n == 0 ==> *final(store) == *old(store))
            &&& (n == 1 ==> forall|i: int|
                (0 <= i < old(store).users@.len() && (#[trigger] old(
                    store,
                ).users@[i])@.user_name == name@) ==> final(store).users@ == old(
                    store,
                ).users@.remove(i))
        },
{
    if !auth_user.is_admin {
        return Err(NeptisError::Unauthorized(
            String::from_str("You must be admin to delete a user!"),
        ));
    }
    if str_eq(name, auth_user.user_name.as_str()) {
        return Err(NeptisError::BadRequest(String::from_str("You cannot delete yourself!")));
    }
    let found = store.find_user_idx(name);
    match found {
        None => Ok(0),
        Some(idx) => {
            proof {
                assert((store.users@[idx as int])@.user_name == name@);
                assert forall|j: int|
                    (0 <= j < store.users@.len() && (#[trigger] store.users@[j])@.user_name
                        == name@) implies j == idx as int by {
                    if j != idx as int {
                        let a = if j < idx as int {
                            j
                        } else {
                            idx as int
                        };
                        let b = if j < idx as int {
                            idx as int
                        } else {
                            j
                        };
                        assert(user_views(store.users@)[a] == (store.users@[a])@);
                        assert(user_views(store.users@)[b] == (store.users@[b])@);
                    }
                }
            }
            let _ = store.remove_user_at(idx);
            Ok(1)
        },
    }
}

/// Opens a session for a caller presenting a name and password.
///
/// The named account must exist (else a store lookup failure) and the
/// password must hash to the stored hash (else a caller error). The new
/// session row is inserted and its identifier comes back encrypted under
/// the signing key and base64-encoded; a signing key that is not 32 bytes
/// cannot encrypt and is an internal error.
pub fn register_session(store: &mut Store, user: &UserForLoginApi, signing_key: &[u8]) -> (r:
    Result<SessionToken, NeptisError>)
    requires
        store_wf(*old(store)),
    ensures
        store_wf(*final(store)),
        final(store).mounts@ == old(store).mounts@,
        final(store).users@ == old(store).users@,
        final(store).repo_jobs@ == old(store).repo_jobs@,
        r is Err ==> *final(store) == *old(store),
        (forall|i: int|
            0 <= i < old(store).users@.len() ==> (#[trigger] old(store).users@[i])@.user_name
                != user.user_name@) ==> (r matches Err(e) && e is DbQuery),
        (signing_key@.len() == 32 && exists|i: int|
            0 <= i < old(store).users@.len() && (#[trigger] old(store).users@[i])@.user_name
                == user.user_name@ && old(store).users@[i]@.password_hash == encoded_hash_of(
                vstd::utf8::encode_utf8(user.password@),
            )) ==> (r is Ok || (r matches Err(e) && e is DbQuery)),
        r matches Ok(t) ==> {
            &&& exists|i: int|
                0 <= i < old(store).users@.len() && (#[trigger] old(
                    store,
                ).users@[i])@.user_name == user.user_name@ && old(store).users@[i]@.password_hash
                    == encoded_hash_of(vstd::utf8::encode_utf8(user.password@))
            &&& final(store).sessions@.len() == old(store).sessions@.len() + 1
            &&& (forall|j: int|
                0 <= j < old(store).sessions@.len() ==> final(store).sessions@[j] == old(
                    store,
                ).sessions@[j])
            &&& final(store).sessions@.last().user_name@ == user.user_name@
            &&& final(store).sessions@.last().enabled
            &&& t.expire_date == final(store).sessions@.last().expire_date
        },
{
    let found = store.find_user_idx(user.user_name.as_str());
    let idx = match found {
        Some(i) => i,
        None => {
            return Err(NeptisError::DbQuery(String::from_str("The user does not exist!")));
        },
    };
    proof {
        assert forall|j: int|
            (0 <= j < store.users@.len() && (#[trigger] store.users@[j])@.user_name
                == user.user_name@) implies j == idx as int by {
            if j != idx as int {
                let a = if j < idx as int {
                    j
                } else {
                    idx as int
                };
                let b = if j < idx as int {
                    idx as int
                } else {
                    j
                };
                assert(user_views(store.users@)[a] == (store.users@[a])@);
                assert(user_views(store.users@)[b] == (store.users@[b])@);
            }
        }
    }
    if !store.users[idx].password_hash.matches_plain(user.password.as_str()) {
        return Err(NeptisError::BadRequest(String::from_str("Invalid password!")));
    }
    let session = Session::new(user.user_name.as_str());
    let id_text = uid_to_string(&session.id);
    let output = match encrypt(signing_key, id_text.as_str().as_bytes()) {
        Some(v) => b64_encode(v.as_slice()),
        None => {
            return Err(NeptisError::InternalError(
                String::from_str("Failed to encrypt signing key!"),
            ));
        },
    };
    if store.find_session_idx(session.id).is_some() {
        return Err(NeptisError::DbQuery(String::from_str("Session identifier already in use!")));
    }
    let expire_date = session.expire_date;
    store.insert_session(session);
    Ok(SessionToken { token: output, expire_date })
}

/// The session identifier a bearer header resolves to: the second
/// whitespace token, base64-decoded, decrypted under the signing key and
/// read as a textual identifier.
pub open spec fn bearer_token_id(header: Seq<char>, key: Seq<u8>) -> Option<u128> {
    let toks = ws_tokens(header);
    if toks.len() < 2 || toks[0] != "Bearer"@ {
        None
    } else {
        match b64_dec_of(toks[1]) {
            None => None,
            Some(cipher) => match decrypt_of(key, cipher) {
                None => None,
                Some(plain) => uid_parsed(plain),
            },
        }
    }
}

/// Resolves an `Authorization` header to the account it authenticates:
/// the token must decrypt to the identifier of a session that is enabled
/// and unexpired at `now`, and that session's account must still exist.
pub fn parse_token(store: &Store, header: &str, signing_key: &[u8], now: i64) -> (r: Option<User>)
    requires
        store_wf(*store),
    ensures
        r is Some <==> (bearer_token_id(header@, signing_key@) matches Some(id) && exists|si: int|
            {
                &&& 0 <= si < store.sessions@.len()
                &&& (#[trigger] store.sessions@[si]).id.0 == id
                &&& session_active(store.sessions@[si], now as int)
                &&& exists|ui: int|
                    0 <= ui < store.users@.len() && (#[trigger] store.users@[ui])@.user_name
                        == store.sessions@[si].user_name@
            }),
        r matches Some(u) ==> (bearer_token_id(header@, signing_key@) matches Some(id) && exists|
            si: int,
        |
            {
                &&& 0 <= si < store.sessions@.len()
                &&& (#[trigger] store.sessions@[si]).id.0 == id
                &&& session_active(store.sessions@[si], now as int)
                &&& exists|ui: int|
                    0 <= ui < store.users@.len() && (#[trigger] store.users@[ui])@.user_name
                        == store.sessions@[si].user_name@ && u@ == store.users@[ui]@
            }),
{
    let tokens = split_ws(header);
    if tokens.len() < 2 {
        return None;
    }
    proof {
        assert(tokens@[0]@ == ws_tokens(header@)[0]);
        assert(tokens@[1]@ == ws_tokens(header@)[1]);
    }
    if !str_eq(tokens[0].as_str(), "Bearer") {
        return None;
    }
    let decoded = match b64_decode(tokens[1].as_str()) {
        Some(v) => v,
        None => {
            return None;
        },
    };
    let plain = match decrypt(signing_key, decoded.as_slice()) {
        Some(v) => v,
        None => {
            return None;
        },
    };
    let uid = match uid_from_ascii(plain.as_slice()) {
        Some(u) => u,
        None => {
            return None;
        },
    };
    let si = match store.find_session_idx(uid) {
        Some(i) => i,
        None => {
            return None;
        },
    };
    if !store.sessions[si].is_active(now) {
        return None;
    }
    let ui = match store.find_user_idx(store.sessions[si].user_name.as_str()) {
        Some(i) => i,
        None => {
            return None;
        },
    };
    proof {
        assert((store.users@[ui as int])@.user_name == store.sessions@[si as int].user_name@);
    }
    Some(store.users[ui].duplicate())
}

} // verus!
