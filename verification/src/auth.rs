use vstd::prelude::*;

use crate::status::{refused, ApiError, Status};
use crate::text::starts_with_text;

verus! {

// ---------------------------------------------------------------------------
// Bearer tokens
// ---------------------------------------------------------------------------

/// The scheme word, with its space, that an `Authorization` header opens with.
pub open spec fn bearer_prefix() -> Seq<char> {
    "Bearer "@
}

/// The token that an `Authorization` header carries: what follows
/// `Bearer `, or nothing where the header does not open with it.
pub open spec fn spec_bearer_token(header: Seq<char>) -> Option<Seq<char>> {
    if bearer_prefix().len() <= header.len() && header.subrange(0, bearer_prefix().len() as int)
        == bearer_prefix() {
        Some(header.subrange(bearer_prefix().len() as int, header.len() as int))
    } else {
        None
    }
}

/// The token of an `Authorization` header; `401` where the header is
/// missing, unreadable (`None`), or does not open with `Bearer `.
pub fn bearer_token(header: Option<&str>) -> (r: Result<String, Status>)
    ensures
        header is None ==> r == Err::<String, Status>(Status::Unauthorized),
        header matches Some(h) ==> match spec_bearer_token(h@) {
            Some(t) => r matches Ok(s) && s@ == t,
            None => r == Err::<String, Status>(Status::Unauthorized),
        },
{
    let h = match header {
        Some(h) => h,
        None => return Err(Status::Unauthorized),
    };
    proof {
        reveal_strlit("Bearer ");
    }
    if !starts_with_text(h, "Bearer ") {
        return Err(Status::Unauthorized);
    }
    let n = h.unicode_len();
    let token = h.substring_char(7, n);
    Ok(token.to_string())
}

// ---------------------------------------------------------------------------
// Passwords
// ---------------------------------------------------------------------------

/// What `bcrypt::verify` answers for a password and a stored hash: whether
/// they match, or the text of the error for a malformed hash.
pub uninterp spec fn bcrypt_verify_outcome(password: Seq<char>, hash: Seq<char>) -> Result<
    bool,
    Seq<char>,
>;

/// A verification that answered `b`.
pub open spec fn verify_answer(b: bool) -> Result<bool, Seq<char>> {
    Ok(b)
}

/// A verification that failed with the text `m`.
pub open spec fn verify_failure(m: Seq<char>) -> Result<bool, Seq<char>> {
    Err(m)
}

/// Calls `bcrypt::verify`.  Claimed: the answer is `bcrypt_verify_outcome` of
/// the password and the hash, a function of these two alone (the salt and
/// cost are read from the hash).
#[verifier::external_body]
fn bcrypt_verify(password: &str, hash: &str) -> (r: Result<bool, String>)
    ensures
        r matches Ok(b) ==> bcrypt_verify_outcome(password@, hash@) == verify_answer(b),
        r matches Err(m) ==> bcrypt_verify_outcome(password@, hash@) == verify_failure(m@),
{
    match bcrypt::verify(password, hash) {
        Ok(b) => Ok(b),
        Err(e) => Err(e.to_string()),
    }
}

/// Calls `bcrypt::hash` at `bcrypt::DEFAULT_COST`.  The salt is drawn at
/// random, so the hash itself is not stated.  Claimed: a hash that it gives
/// verifies against the same password (the crate's own test
/// `can_verify_own_generated`); on failure, the error's text.
#[verifier::external_body]
fn bcrypt_hash(password: &str) -> (r: Result<String, String>)
    ensures
        r matches Ok(h) ==> bcrypt_verify_outcome(password@, h@) == verify_answer(true),
{
    match bcrypt::hash(password, bcrypt::DEFAULT_COST) {
        Ok(h) => Ok(h),
        Err(e) => Err(e.to_string()),
    }
}

/// The answer to a password check, given what verification gave.
pub fn password_check(verified: Result<bool, String>, wrong: &str) -> (r: Result<(), ApiError>)
    ensures
        verified matches Ok(true) ==> r is Ok,
        verified matches Ok(false) ==> refused(r, Status::Unauthorized, wrong@),
        verified matches Err(m) ==> refused(r, Status::InternalServerError, m@),
{
    match verified {
        Ok(true) => Ok(()),
        Ok(false) => Err(ApiError::new(Status::Unauthorized, wrong)),
        Err(m) => Err(ApiError { status: Status::InternalServerError, message: m }),
    }
}

/// The credentials stored for an administrator.
#[derive(Debug, Clone)]
pub struct AdminAccount {
    pub id: u128,
    pub email: String,
    pub password_hash: String,
    pub full_name: String,
}

/// `password` opens the account whose stored hash is `hash`.
pub open spec fn password_accepted(password: Seq<char>, hash: Seq<char>) -> bool {
    bcrypt_verify_outcome(password, hash) == Ok::<bool, Seq<char>>(true)
}

/// Login with `password` opens `account`: it exists and the password
/// matches its stored hash.
pub open spec fn login_succeeds(account: Option<AdminAccount>, password: Seq<char>) -> bool {
    account matches Some(a) && password_accepted(password, a.password_hash@)
}

/// Login: the account found by e-mail, if the password opens it.  No account
/// and a wrong password are both `401 Invalid email or password`; a hash that
/// cannot be checked is `500` with the error's text.
pub fn authenticate(account: Option<AdminAccount>, password: &str) -> (r: Result<
    AdminAccount,
    ApiError,
>)
    ensures
        account is None ==> refused(r, Status::Unauthorized, "Invalid email or password"@),
        account matches Some(a) ==> match bcrypt_verify_outcome(password@, a.password_hash@) {
            Ok(true) => r == Ok::<AdminAccount, ApiError>(a),
            Ok(false) => refused(r, Status::Unauthorized, "Invalid email or password"@),
            Err(m) => refused(r, Status::InternalServerError, m),
        },
        r is Ok <==> login_succeeds(account, password@),
{
    let a = match account {
        Some(a) => a,
        None => return Err(ApiError::new(Status::Unauthorized, "Invalid email or password")),
    };
    let verified = bcrypt_verify(password, a.password_hash.as_str());
    match password_check(verified, "Invalid email or password") {
        Ok(()) => Ok(a),
        Err(e) => Err(e),
    }
}

/// The hash to store for a new administrator's password; `500` with the
/// error's text where hashing fails.
pub fn registration_hash(password: &str) -> (r: Result<String, ApiError>)
    ensures
        r matches Ok(h) ==> password_accepted(password@, h@),
        r matches Err(e) ==> e.status == Status::InternalServerError,
{
    let hashed = bcrypt_hash(password);
    hash_outcome(hashed)
}

/// The answer to hashing a password, given what hashing gave: the hash to
/// store, or `500` carrying the text of the failure.
pub fn hash_outcome(hashed: Result<String, String>) -> (r: Result<String, ApiError>)
    ensures
        hashed matches Ok(h) ==> r == Ok::<String, ApiError>(h),
        hashed matches Err(m) ==> refused(r, Status::InternalServerError, m@),
{
    match hashed {
        Ok(h) => Ok(h),
        Err(m) => Err(ApiError { status: Status::InternalServerError, message: m }),
    }
}

/// A password change: the new hash to store, given the hash stored now
/// (`None` where the administrator is gone: `404 Admin not found`), the
/// current password, which must open it (`401 Current password is
/// incorrect`), and the new password.  Failures to verify or to hash are
/// `500` with the error's text.
pub fn changed_password_hash(stored: Option<String>, current: &str, new_password: &str) -> (r: Result<
    String,
    ApiError,
>)
    ensures
        stored is None ==> refused(r, Status::NotFound, "Admin not found"@),
        stored matches Some(h) ==> match bcrypt_verify_outcome(current@, h@) {
            Ok(true) => (r matches Ok(n) && password_accepted(new_password@, n@)) || (r matches Err(
                e,
            ) && e.status == Status::InternalServerError),
            Ok(false) => refused(r, Status::Unauthorized, "Current password is incorrect"@),
            Err(m) => refused(r, Status::InternalServerError, m),
        },
        r matches Ok(n) ==> password_accepted(new_password@, n@),
{
    let h = match stored {
        Some(h) => h,
        None => return Err(ApiError::new(Status::NotFound, "Admin not found")),
    };
    let verified = bcrypt_verify(current, h.as_str());
    match password_check(verified, "Current password is incorrect") {
        Ok(()) => {},
        Err(e) => return Err(e),
    }
    registration_hash(new_password)
}

/// A password that registration or a password change stores opens the
/// account at the next login: both give only hashes that the password is
/// accepted against, and login succeeds exactly on such a hash.
pub proof fn lemma_stored_password_logs_in(account: AdminAccount, password: Seq<char>)
    requires
        password_accepted(password, account.password_hash@),
    ensures
        login_succeeds(Some(account), password),
{
}

/// The header that a token is sent in gives the token back.
pub proof fn lemma_bearer_header_gives_token_back(token: Seq<char>)
    ensures
        spec_bearer_token(bearer_prefix() + token) == Some(token),
{
    let h = bearer_prefix() + token;
    assert(h.subrange(0, bearer_prefix().len() as int) =~= bearer_prefix());
    assert(h.subrange(bearer_prefix().len() as int, h.len() as int) =~= token);
}

} // verus!
