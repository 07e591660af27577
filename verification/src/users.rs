//! User accounts and login sessions.

use vstd::prelude::*;
use vstd::string::*;
use crate::clock::now_utc;
use crate::errors::ValidateError;
use crate::hash::EncodedHash;
use crate::ids::Uid;
use crate::ids::fresh_uid;
use crate::strutil::trim_spec;
use crate::strutil::trim_str;
use crate::traits::CleanValidate;

verus! {

/// An account, with its quota ceilings for the two byte classes.
#[derive(Debug)]
pub struct User {
    pub user_name: String,
    pub first_name: String,
    pub last_name: String,
    pub password_hash: EncodedHash,
    pub create_date: i64,
    pub is_admin: bool,
    pub max_data_bytes: i64,
    pub max_snapshot_bytes: i64,
}

/// The mathematical value of a [`User`].
pub ghost struct UserV {
    pub user_name: Seq<char>,
    pub first_name: Seq<char>,
    pub last_name: Seq<char>,
    pub password_hash: Seq<char>,
    pub create_date: int,
    pub is_admin: bool,
    pub max_data_bytes: int,
    pub max_snapshot_bytes: int,
}

impl View for User {
    type V = UserV;

    open spec fn view(&self) -> UserV {
        UserV {
            user_name: self.user_name@,
            first_name: self.first_name@,
            last_name: self.last_name@,
            password_hash: self.password_hash@,
            create_date: self.create_date as int,
            is_admin: self.is_admin,
            max_data_bytes: self.max_data_bytes as int,
            max_snapshot_bytes: self.max_snapshot_bytes as int,
        }
    }
}

impl User {
    /// An explicit field-by-field copy, equal to the original in value.
    pub fn duplicate(&self) -> (r: User)
        ensures
            r@ == self@,
    {
        User {
            user_name: self.user_name.clone(),
            first_name: self.first_name.clone(),
            last_name: self.last_name.clone(),
            password_hash: self.password_hash.duplicate(),
            create_date: self.create_date,
            is_admin: self.is_admin,
            max_data_bytes: self.max_data_bytes,
            max_snapshot_bytes: self.max_snapshot_bytes,
        }
    }
}

impl CleanValidate for User {
    fn validate(self) -> (r: Result<Self, ValidateError>)
        ensures
            r matches Ok(t) ==> t@ == (UserV {
                user_name: trim_spec(self.user_name@),
                first_name: trim_spec(self.first_name@),
                last_name: trim_spec(self.last_name@),
                ..self@
            }),
            r is Ok <==> ({
                &&& trim_spec(self.user_name@).len() > 0
                &&& trim_spec(self.first_name@).len() > 0
                &&& trim_spec(self.last_name@).len() > 0
            }),
            r is Err ==> r->Err_0 is ValueRequired,
            trim_spec(self.user_name@).len() == 0 ==> (r matches Err(
                ValidateError::ValueRequired(m),
            ) && m@ == "Username is empty!"@),
            trim_spec(self.user_name@).len() > 0 && trim_spec(self.first_name@).len() == 0 ==> (
            r matches Err(ValidateError::ValueRequired(m)) && m@ == "First name is empty!"@),
            trim_spec(self.user_name@).len() > 0 && trim_spec(self.first_name@).len() > 0
                && trim_spec(self.last_name@).len() == 0 ==> (r matches Err(
                ValidateError::ValueRequired(m),
            ) && m@ == "Last name is empty!"@),
    {
        let user_name = String::from_str(trim_str(self.user_name.as_str()));
        let first_name = String::from_str(trim_str(self.first_name.as_str()));
        let last_name = String::from_str(trim_str(self.last_name.as_str()));
        if user_name.as_str().unicode_len() == 0 {
            return Err(ValidateError::ValueRequired(String::from_str("Username is empty!")));
        }
        if first_name.as_str().unicode_len() == 0 {
            return Err(ValidateError::ValueRequired(String::from_str("First name is empty!")));
        }
        if last_name.as_str().unicode_len() == 0 {
            return Err(ValidateError::ValueRequired(String::from_str("Last name is empty!")));
        }
        Ok(User { user_name, first_name, last_name, ..self })
    }
}

/// A partial update of an account, applied by user name.
pub struct UserForUpdate {
    pub user_name: String,
    pub first_name: Option<String>,
    pub last_name: Option<String>,
    pub is_admin: Option<bool>,
    pub max_data_bytes: Option<i64>,
    pub max_snapshot_bytes: Option<i64>,
    pub password_hash: Option<EncodedHash>,
}

/// One login session, valid for an hour from creation.
#[derive(Debug)]
pub struct Session {
    pub id: Uid,
    pub user_name: String,
    pub create_date: i64,
    pub expire_date: i64,
    pub enabled: bool,
}

/// A session authorizes requests while it is enabled and unexpired.
pub open spec fn session_active(s: Session, now: int) -> bool {
    s.enabled && now < s.expire_date
}

impl Session {
    /// Opens a fresh session for `name`, starting now and expiring an hour
    /// later (saturating at the far end of time).
    pub fn new(name: &str) -> (r: Session)
        ensures
            r.user_name@ == name@,
            r.enabled,
            r.expire_date == if r.create_date + 3600 <= i64::MAX {
                r.create_date + 3600
            } else {
                i64::MAX as int
            },
    {
        let create_date = now_utc();
        let expire_date: i64 = if create_date <= i64::MAX - 3600 {
            create_date + 3600
        } else {
            i64::MAX
        };
        Session {
            id: fresh_uid(),
            user_name: String::from_str(name),
            create_date,
            expire_date,
            enabled: true,
        }
    }

    /// Decides [`session_active`] at time `now`.
    pub fn is_active(&self, now: i64) -> (r: bool)
        ensures
            r == session_active(*self, now as int),
    {
        self.enabled && now < self.expire_date
    }
}

} // verus!
