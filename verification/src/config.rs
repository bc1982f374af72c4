//! Process configuration: where the stores live, and the checks that the
//! values read from the environment must pass.

use vstd::prelude::*;
use crate::text::chars_of;

verus! {

/// Where the web server listens.
#[derive(Debug)]
pub struct WebConfig {
    pub host: String,
    pub port: u16,
}

/// The configuration of the process.
#[derive(Debug)]
pub struct Config {
    pub web: WebConfig,
    /// The directory under which both stores keep their files.
    pub database_path: String,
    pub media_path: String,
    pub allowed_origins: String,
    pub log_level: String,
    pub session_secret_key: String,
    pub admin_url_prefix: String,
    pub use_secure_cookies: bool,
}

/// Whether `c` is alphanumeric, as `char::is_alphanumeric` decides it.
pub uninterp spec fn is_alphanumeric(c: char) -> bool;

/// Calls `char::is_alphanumeric`; the result is the named predicate on `c`.
#[verifier::external_body]
pub(crate) fn char_is_alphanumeric(c: char) -> (b: bool)
    ensures
        b == is_alphanumeric(c),
{
    c.is_alphanumeric()
}

/// Whether `c` is a hexadecimal digit in ASCII.
pub open spec fn is_hex_digit(c: char) -> bool {
    ('0' <= c && c <= '9') || ('a' <= c && c <= 'f') || ('A' <= c && c <= 'F')
}

/// Whether `key` can be a session secret: 128 hexadecimal digits, which are
/// 64 bytes.
pub open spec fn is_session_key(key: Seq<char>) -> bool {
    key.len() == 128 && forall|i: int| 0 <= i < key.len() ==> is_hex_digit(#[trigger] key[i])
}

/// Whether `prefix` can be a path prefix of the administration pages: not
/// empty, and made of alphanumeric characters, underscores and hyphens.
pub open spec fn is_url_prefix(prefix: Seq<char>) -> bool {
    prefix.len() > 0 && forall|i: int|
        0 <= i < prefix.len() ==> is_alphanumeric(#[trigger] prefix[i]) || prefix[i] == '_'
            || prefix[i] == '-'
}

/// What is wrong with a configuration value.
#[derive(Clone, Copy, Debug, PartialEq, Eq, Structural)]
pub enum ConfigIssue {
    /// The session secret is not 128 hexadecimal digits.
    SessionSecretKey,
    /// The administration prefix is empty or holds a character that is not
    /// allowed.
    AdminUrlPrefix,
}

/// Checks a session secret.
pub fn check_session_secret_key(key: &str) -> (b: bool)
    ensures
        b == is_session_key(key@),
{
    let chars = chars_of(key);
    if chars.len() != 128 {
        return false;
    }
    let mut i: usize = 0;
    while i < chars.len()
        invariant
            i <= chars.len(),
            chars@ == key@,
            forall|k: int| 0 <= k < i ==> is_hex_digit(#[trigger] key@[k]),
        decreases chars.len() - i,
    {
        let c: char = chars[i];
        let hex = ('0' <= c && c <= '9') || ('a' <= c && c <= 'f') || ('A' <= c && c <= 'F');
        if !hex {
            assert(!is_hex_digit(key@[i as int]));
            return false;
        }
        i += 1;
    }
    true
}

/// Checks the path prefix of the administration pages.
pub fn check_admin_url_prefix(prefix: &str) -> (b: bool)
    ensures
        b == is_url_prefix(prefix@),
{
    let chars = chars_of(prefix);
    if chars.len() == 0 {
        return false;
    }
    let mut i: usize = 0;
    while i < chars.len()
        invariant
            i <= chars.len(),
            chars@ == prefix@,
            forall|k: int|
                0 <= k < i ==> is_alphanumeric(#[trigger] prefix@[k]) || prefix@[k] == '_'
                    || prefix@[k] == '-',
        decreases chars.len() - i,
    {
        let c: char = chars[i];
        if !(char_is_alphanumeric(c) || c == '_' || c == '-') {
            assert(!(is_alphanumeric(prefix@[i as int]) || prefix@[i as int] == '_' || prefix@[i as int]
                == '-'));
            return false;
        }
        i += 1;
    }
    true
}

/// Checks the values that the environment supplies: first the session
/// secret, then the administration prefix.
pub fn check_environment(session_secret_key: &str, admin_url_prefix: &str) -> (r: Result<
    (),
    ConfigIssue,
>)
    ensures
        r == if !is_session_key(session_secret_key@) {
            Err::<(), ConfigIssue>(ConfigIssue::SessionSecretKey)
        } else if !is_url_prefix(admin_url_prefix@) {
            Err::<(), ConfigIssue>(ConfigIssue::AdminUrlPrefix)
        } else {
            Ok::<(), ConfigIssue>(())
        },
{
    if !check_session_secret_key(session_secret_key) {
        Err(ConfigIssue::SessionSecretKey)
    } else if !check_admin_url_prefix(admin_url_prefix) {
        Err(ConfigIssue::AdminUrlPrefix)
    } else {
        Ok(())
    }
}

/// The file of a store: inside the database directory, in a folder of its
/// own, with `/` between the parts.
pub open spec fn store_path(database_path: Seq<char>, folder: Seq<char>, file: Seq<char>) -> Seq<char> {
    database_path + "/"@ + folder + "/"@ + file
}

fn store_file(database_path: &str, folder: &str, file: &str) -> (r: String)
    ensures
        r@ == store_path(database_path@, folder@, file@),
{
    let mut r = database_path.to_owned();
    r.append("/");
    r.append(folder);
    r.append("/");
    r.append(file);
    r
}

impl Config {
    /// The path of the contributors database file.
    pub fn users_db_path(&self) -> (r: String)
        ensures
            r@ == store_path(self.database_path@, "contributors"@, "contributors.db"@),
    {
        store_file(self.database_path.as_str(), "contributors", "contributors.db")
    }

    /// The path of the posts database file.
    pub fn posts_db_path(&self) -> (r: String)
        ensures
            r@ == store_path(self.database_path@, "posts"@, "posts.db"@),
    {
        store_file(self.database_path.as_str(), "posts", "posts.db")
    }
}

} // verus!
