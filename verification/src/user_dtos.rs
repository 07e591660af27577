//! Request and response shapes for the user operations.

use vstd::prelude::*;
use vstd::string::*;
use crate::errors::NeptisError;
use crate::hash::EncodedHash;
use crate::hash::encoded_hash_of;
use crate::users::User;
use crate::users::UserForUpdate;

verus! {

/// An account as reported to a caller; the quota ceilings are visible to
/// administrators only.
#[derive(Debug)]
pub struct UserDto {
    pub user_name: String,
    pub first_name: String,
    pub last_name: String,
    pub create_date: i64,
    pub is_admin: bool,
    pub max_data_bytes: Option<i64>,
    pub max_snapshot_bytes: Option<i64>,
}

/// Creates an account.
#[derive(Debug)]
pub struct UserForCreateApi {
    pub user_name: String,
    pub password: String,
    pub first_name: String,
    pub last_name: String,
    pub is_admin: bool,
    pub max_data_bytes: Option<i64>,
    pub max_snapshot_bytes: Option<i64>,
}

/// Partially updates an account.
#[derive(Debug)]
pub struct UserForUpdateApi {
    pub first_name: Option<String>,
    pub last_name: Option<String>,
    pub is_admin: Option<bool>,
    pub max_data_bytes: Option<i64>,
    pub max_snapshot_bytes: Option<i64>,
    pub password: Option<String>,
}

/// A login request.
#[derive(Debug)]
pub struct UserForLoginApi {
    pub user_name: String,
    pub password: String,
}

impl UserDto {
    /// Copies an account into its caller-facing shape; the byte ceilings
    /// appear only when the authenticated caller is an administrator.
    pub fn try_to_dto(auth_user: &User, item: User) -> (r: Result<UserDto, NeptisError>)
        ensures
            r matches Ok(d) ==> {
                &&& d.user_name@ == item@.user_name
                &&& d.first_name@ == item@.first_name
                &&& d.last_name@ == item@.last_name
                &&& d.create_date == item.create_date
                &&& d.is_admin == item.is_admin
                &&& d.max_data_bytes == if auth_user.is_admin {
                    Some(item.max_data_bytes)
                } else {
                    None::<i64>
                }
                &&& d.max_snapshot_bytes == if auth_user.is_admin {
                    Some(item.max_snapshot_bytes)
                } else {
                    None::<i64>
                }
            },
            r is Ok,
    {
        Ok(UserDto {
            user_name: item.user_name.clone(),
            first_name: item.first_name.clone(),
            last_name: item.last_name.clone(),
            create_date: item.create_date,
            is_admin: item.is_admin,
            max_data_bytes: if auth_user.is_admin {
                Some(item.max_data_bytes)
            } else {
                None
            },
            max_snapshot_bytes: if auth_user.is_admin {
                Some(item.max_snapshot_bytes)
            } else {
                None
            },
        })
    }
}

impl UserForCreateApi {
    /// Builds the account row: the password is hashed, missing ceilings
    /// default to zero, and creation is stamped with `now`.
    pub fn to_user(&self, now: i64) -> (r: User)
        ensures
            r@.user_name == self.user_name@,
            r@.first_name == self.first_name@,
            r@.last_name == self.last_name@,
            r@.password_hash == encoded_hash_of(vstd::utf8::encode_utf8(self.password@)),
            r@.create_date == now as int,
            r@.is_admin == self.is_admin,
            r@.max_data_bytes == match self.max_data_bytes {
                Some(v) => v as int,
                None => 0int,
            },
            r@.max_snapshot_bytes == match self.max_snapshot_bytes {
                Some(v) => v as int,
                None => 0int,
            },
    {
        User {
            user_name: self.user_name.clone(),
            password_hash: EncodedHash::hash(self.password.as_str()),
            first_name: self.first_name.clone(),
            last_name: self.last_name.clone(),
            create_date: now,
            is_admin: self.is_admin,
            max_data_bytes: match self.max_data_bytes {
                Some(v) => v,
                None => 0,
            },
            max_snapshot_bytes: match self.max_snapshot_bytes {
                Some(v) => v,
                None => 0,
            },
        }
    }
}

impl UserForUpdateApi {
    /// Builds the partial update row for the account named `name`; a
    /// supplied password arrives hashed.
    pub fn to_db(&self, name: &str) -> (r: UserForUpdate)
        ensures
            r.user_name@ == name@,
            match (r.first_name, self.first_name) {
                (Some(a), Some(b)) => a@ == b@,
                (None, None) => true,
                _ => false,
            },
            match (r.last_name, self.last_name) {
                (Some(a), Some(b)) => a@ == b@,
                (None, None) => true,
                _ => false,
            },
            r.is_admin == self.is_admin,
            r.max_data_bytes == self.max_data_bytes,
            r.max_snapshot_bytes == self.max_snapshot_bytes,
            match (r.password_hash, self.password) {
                (Some(h), Some(p)) => h@ == encoded_hash_of(vstd::utf8::encode_utf8(p@)),
                (None, None) => true,
                _ => false,
            },
    {
        UserForUpdate {
            user_name: String::from_str(name),
            first_name: match &self.first_name {
                Some(s) => Some(s.clone()),
                None => None,
            },
            last_name: match &self.last_name {
                Some(s) => Some(s.clone()),
                None => None,
            },
            is_admin: self.is_admin,
            max_data_bytes: self.max_data_bytes,
            max_snapshot_bytes: self.max_snapshot_bytes,
            password_hash: match &self.password {
                Some(p) => Some(EncodedHash::hash(p.as_str())),
                None => None,
            },
        }
    }
}

} // verus!
