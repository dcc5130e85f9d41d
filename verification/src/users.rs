//! User/account service: validates the administrative account request,
//! hashes its secret through a one-way adaptive function, and assembles
//! the account row and its credential row, which the persistence store
//! must insert as one atomic transaction — partial success is never
//! observable.

use vstd::prelude::*;
use vstd::string::StrSliceExecFns;

use crate::error::ApiError;
use crate::keys::ApiKey;
use crate::keys::KeyTags;
use crate::keys::KeysService;
use crate::keys::valid_key;

verus! {

/// The request body for creating an account.
pub struct CreateUserPayload {
    pub username: String,
    pub password: String,
}

/// What a successful account creation returns: the store-assigned
/// account id and the raw bearer token. This is the only time the raw
/// token is ever revealed; it cannot be retrieved again.
#[derive(Debug)]
pub struct CreatedUser {
    pub id: i32,
    pub key: ApiKey,
}

/// The two rows the persistence store inserts in one transaction: the
/// account (username and secret hash) and its linked credential (token
/// and capability tags).
#[derive(Debug)]
pub struct NewUserRecord {
    pub username: String,
    pub password_hash: String,
    pub key: ApiKey,
    pub tags: KeyTags,
}

/// The longest username accepted.
pub const MAX_USERNAME_LEN: usize = 24;

/// Relies on `pwhash::bcrypt::hash`: a salted, cost-based one-way hash
/// of the password; on success the result is a modular-crypt record,
/// which always begins with `$`. The salt is random, so nothing more
/// can be said of the result's value.
#[verifier::external_body]
fn bcrypt_hash(password: &str) -> (r: Result<String, ApiError>)
    ensures
        r matches Ok(h) ==> (h@.len() > 0 && h@[0] == '$'),
        r matches Err(e) ==> e matches ApiError::Internal(_),
{
    match pwhash::bcrypt::hash(password) {
        Ok(h) => Ok(h),
        Err(_) => Err(
            ApiError::Internal("Failed to hash password for user creation.".to_string()),
        ),
    }
}

/// Creates accounts.
pub struct UsersService;

impl UsersService {
    /// Validates the payload and assembles the record of the account
    /// and its first credential. A username over 24 characters is the
    /// caller's error and produces no record at all; a hashing failure
    /// is an infrastructure error. On success the record carries the
    /// username unchanged, a one-way hash of the secret (never the
    /// secret itself), a fresh well-formed token and exactly the
    /// requested capability tags.
    pub fn create_user(payload: &CreateUserPayload, tags: KeyTags) -> (r: Result<
        NewUserRecord,
        ApiError,
    >)
        ensures
            payload.username@.len() > MAX_USERNAME_LEN ==> (r matches Err(e)
                && e.is_client_error() && e.spec_status_code() == 400),
            r matches Ok(rec) ==> (payload.username@.len() <= MAX_USERNAME_LEN && rec.username@
                == payload.username@ && valid_key(rec.key@) && rec.tags == tags
                && rec.password_hash@.len() > 0 && rec.password_hash@[0] == '$'),
            r matches Err(e) ==> (payload.username@.len() > MAX_USERNAME_LEN || e matches
                ApiError::Internal(_)),
    {
        if payload.username.as_str().unicode_len() > MAX_USERNAME_LEN {
            return Err(ApiError::message(400, "Username is too long. (max 24 characters)"));
        }
        let password_hash = match bcrypt_hash(payload.password.as_str()) {
            Ok(h) => h,
            Err(e) => {
                return Err(e);
            },
        };
        Ok(UsersService::assemble_user_record(payload, tags, password_hash))
    }

    /// Assembles the two rows from an already-hashed secret: the
    /// account row carries the username and the hash exactly as given,
    /// and the linked credential row carries a fresh well-formed token
    /// and exactly the requested capability tags.
    pub fn assemble_user_record(
        payload: &CreateUserPayload,
        tags: KeyTags,
        password_hash: String,
    ) -> (rec: NewUserRecord)
        ensures
            rec.username@ == payload.username@,
            rec.password_hash@ == password_hash@,
            valid_key(rec.key@),
            rec.tags == tags,
    {
        let key = KeysService::create_new_key();
        NewUserRecord { username: payload.username.clone(), password_hash, key, tags }
    }
}

} // verus!
