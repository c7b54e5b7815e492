//! Account records and the decisions of the two account handlers: what the
//! create handler hands to the store and answers, and what the fetch handler
//! answers for each outcome of its lookup.
use crate::credential::{
    argon2_encoded, fresh_salt, hash_password_with_salt, is_encoding_of, is_generated_salt,
    password_fits,
};
use vstd::prelude::*;

verus! {

/// Status of a successful fetch.
pub const STATUS_OK: u16 = 200;

/// Status of a successful create; the response has no body.
pub const STATUS_CREATED: u16 = 201;

/// Status when no account has the requested identifier.
pub const STATUS_NOT_FOUND: u16 = 404;

/// Status of every internal failure.
pub const STATUS_INTERNAL_SERVER_ERROR: u16 = 500;

/// The public view of an account, returned by a fetch: the password hash is
/// never part of it.
#[derive(Debug, Clone)]
pub struct User {
    pub username: String,
    pub email: String,
}

/// The payload of a create request.
#[derive(Debug, Clone)]
pub struct NewUser {
    pub username: String,
    pub email: String,
    pub password: String,
}

/// A partial update of an account: every field is optional. No handler
/// applies it yet.
#[derive(Debug, Clone)]
pub struct EditUser {
    pub email: Option<String>,
    pub display_name: Option<String>,
    pub password: Option<String>,
    pub avatar_url: Option<String>,
}

/// The row that a create inserts into the `users` relation; the identifier is
/// the store's to choose.
#[derive(Debug, Clone)]
pub struct UserRow {
    pub username: String,
    pub email: String,
    pub password_hash: String,
}

/// How a store operation failed, as far as the handlers tell failures apart.
#[derive(Debug, Clone, Copy, PartialEq, Eq, Structural)]
pub enum StoreError {
    /// The lookup matched no row.
    RowNotFound,
    /// Any other failure of the store.
    Other,
}

/// The class of a failed request.
#[derive(Debug, Clone, Copy, PartialEq, Eq, Structural)]
pub enum FailureKind {
    NotFound,
    Internal,
}

/// A failed request: its class and the short message of its body.
#[derive(Debug, Clone)]
pub struct Failure {
    pub kind: FailureKind,
    pub message: String,
}

pub open spec fn kind_status(kind: FailureKind) -> u16 {
    match kind {
        FailureKind::NotFound => STATUS_NOT_FOUND,
        FailureKind::Internal => STATUS_INTERNAL_SERVER_ERROR,
    }
}

pub open spec fn hashing_failed_message() -> Seq<char> {
    "Password hashing failed"@
}

pub open spec fn create_failed_message() -> Seq<char> {
    "Failed to create user"@
}

pub open spec fn not_found_message() -> Seq<char> {
    "User not found"@
}

pub open spec fn internal_error_message() -> Seq<char> {
    "Internal server error"@
}

/// `f` is the failure of class `kind` with body `message`.
pub open spec fn is_failure(f: Failure, kind: FailureKind, message: Seq<char>) -> bool {
    f.kind == kind && f.message@ == message
}

/// The failure that a store error becomes when it ends a fetch.
pub open spec fn fetch_failure(e: StoreError, f: Failure) -> bool {
    match e {
        StoreError::RowNotFound => is_failure(f, FailureKind::NotFound, not_found_message()),
        StoreError::Other => is_failure(f, FailureKind::Internal, internal_error_message()),
    }
}

impl FailureKind {
    /// The response status of this class.
    pub fn status(&self) -> (r: u16)
        ensures
            r == kind_status(*self),
    {
        match self {
            FailureKind::NotFound => STATUS_NOT_FOUND,
            FailureKind::Internal => STATUS_INTERNAL_SERVER_ERROR,
        }
    }
}

impl Failure {
    fn new(kind: FailureKind, message: &str) -> (r: Failure)
        ensures
            is_failure(r, kind, message@),
    {
        Failure { kind, message: message.to_owned() }
    }

    /// The response status of this failure.
    pub fn status(&self) -> (r: u16)
        ensures
            r == kind_status(self.kind),
    {
        self.kind.status()
    }
}

/// The first step of a create, under a given salt: hashes the password and
/// builds the row to insert. The row keeps the username and email as given
/// and holds the Argon2 string of the password and salt, never the password
/// itself. With a salt that `fresh_salt` made it succeeds for every password
/// within Argon2's limit; a hashing failure becomes an internal failure whose
/// message holds no detail of it.
pub fn new_user_row_with_salt(payload: &NewUser, salt: &str) -> (r: Result<UserRow, Failure>)
    ensures
        r matches Ok(row) ==> {
            &&& row.username@ == payload.username@
            &&& row.email@ == payload.email@
            &&& row.password_hash@ == argon2_encoded(payload.password@, salt@)
            &&& is_encoding_of(row.password_hash@, payload.password@)
        },
        is_generated_salt(salt@) && password_fits(payload.password@) ==> r is Ok,
        r matches Err(f) ==> is_failure(f, FailureKind::Internal, hashing_failed_message()),
{
    match hash_password_with_salt(payload.password.as_str(), salt) {
        Ok(password_hash) => Ok(
            UserRow {
                username: payload.username.clone(),
                email: payload.email.clone(),
                password_hash,
            },
        ),
        Err(_) => Err(hashing_failure()),
    }
}

fn hashing_failure() -> (f: Failure)
    ensures
        is_failure(f, FailureKind::Internal, hashing_failed_message()),
{
    proof {
        reveal_strlit("Password hashing failed");
    }
    Failure::new(FailureKind::Internal, "Password hashing failed")
}

/// The first step of a create: draws a fresh salt, then builds the row as
/// `new_user_row_with_salt` does. A failure of the random source is a hashing
/// failure too.
pub fn new_user_row(payload: &NewUser) -> (r: Result<UserRow, Failure>)
    ensures
        r matches Ok(row) ==> {
            &&& row.username@ == payload.username@
            &&& row.email@ == payload.email@
            &&& is_encoding_of(row.password_hash@, payload.password@)
        },
        r matches Err(f) ==> is_failure(f, FailureKind::Internal, hashing_failed_message()),
{
    match fresh_salt() {
        Ok(salt) => new_user_row_with_salt(payload, salt.as_str()),
        Err(_) => Err(hashing_failure()),
    }
}

/// The answer of a create, given how its insert went: `201` with no body on
/// success; on any store failure, a constraint violation included, one
/// generic internal failure.
pub fn create_outcome(inserted: Result<(), StoreError>) -> (r: Result<u16, Failure>)
    ensures
        inserted is Ok <==> r == Ok::<u16, Failure>(STATUS_CREATED),
        inserted is Err ==> (r matches Err(f) && is_failure(f, FailureKind::Internal, create_failed_message())),
{
    match inserted {
        Ok(()) => Ok(STATUS_CREATED),
        Err(_) => {
            proof {
                reveal_strlit("Failed to create user");
            }
            Err(Failure::new(FailureKind::Internal, "Failed to create user"))
        },
    }
}

/// The answer of a fetch, given the outcome of its lookup: the matching
/// account's public view; `NotFound` when no row matched; an internal failure
/// for any other store error.
pub fn fetch_outcome(fetched: Result<User, StoreError>) -> (r: Result<User, Failure>)
    ensures
        fetched matches Ok(user) ==> r == Ok::<User, Failure>(user),
        fetched matches Err(e) ==> (r matches Err(f) && fetch_failure(e, f)),
{
    match fetched {
        Ok(user) => Ok(user),
        Err(StoreError::RowNotFound) => {
            proof {
                reveal_strlit("User not found");
            }
            Err(Failure::new(FailureKind::NotFound, "User not found"))
        },
        Err(StoreError::Other) => {
            proof {
                reveal_strlit("Internal server error");
            }
            Err(Failure::new(FailureKind::Internal, "Internal server error"))
        },
    }
}

} // verus!
