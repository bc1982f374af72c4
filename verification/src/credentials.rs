//! Checking a password against the stored hash of an account.

use vstd::prelude::*;

verus! {

/// What `bcrypt::verify` says of a password and a stored hash: whether they
/// match, or nothing where it reports an error, as it does for a hash that
/// is malformed.
pub uninterp spec fn bcrypt_verdict(password: Seq<char>, hash: Seq<char>) -> Option<bool>;

#[verifier::external_type_specification]
#[verifier::external_body]
pub struct ExBcryptError(bcrypt::BcryptError);

/// Calls `bcrypt::verify`, which hashes the password with the cost and salt
/// found in `hash` and compares the result with it. The contract names the
/// verdict and says nothing of how it is computed.
#[verifier::external_body]
fn bcrypt_check(password: &str, hash: &str) -> (r: Result<bool, bcrypt::BcryptError>)
    ensures
        match r {
            Ok(b) => bcrypt_verdict(password@, hash@) == Some(b),
            Err(_) => bcrypt_verdict(password@, hash@) is None,
        },
{
    bcrypt::verify(password, hash)
}

/// Whether the password is accepted for the hash. A hash that cannot be
/// checked accepts nothing.
pub open spec fn accepts(password: Seq<char>, hash: Seq<char>) -> bool {
    bcrypt_verdict(password, hash) == Some(true)
}

/// Whether `password` is accepted for the stored `hash`.
pub fn password_matches(password: &str, hash: &str) -> (b: bool)
    ensures
        b == accepts(password@, hash@),
{
    match bcrypt_check(password, hash) {
        Ok(b) => b,
        Err(_) => false,
    }
}

/// The columns of an account that a login reads.
#[derive(Debug)]
pub struct AccountRow {
    pub password_hash: String,
    pub role: String,
    pub is_active: bool,
}

/// Whether a login with `password` is let in: there is an account, it is
/// active, and the password is accepted for its hash.
pub open spec fn lets_in(account: Option<AccountRow>, password: Seq<char>) -> bool {
    account matches Some(row) && row.is_active && accepts(password, row.password_hash@)
}

/// Checks a login. On success the answer is the user name as it was given
/// and the role of the account.
pub fn verify_credentials(account: Option<AccountRow>, username: &str, password: &str) -> (r: Option<
    (String, String),
>)
    ensures
        r is Some <==> lets_in(account, password@),
        r matches Some(pair) ==> pair.0@ == username@ && pair.1@ == account->0.role@,
{
    match account {
        Some(row) => {
            if row.is_active && password_matches(password, row.password_hash.as_str()) {
                Some((username.to_owned(), row.role))
            } else {
                None
            }
        },
        None => None,
    }
}

} // verus!
