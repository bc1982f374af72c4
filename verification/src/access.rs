//! Who is let through: the role guards, the address guard of the
//! administration login, and the secret path prefix of the contributor
//! pages.

use vstd::prelude::*;
use crate::ownership::is_admin;
use crate::text::{chars_of, same_text, split_trimmed, string_of, texts, trim_chars, trim_spec, trimmed_pieces};

verus! {

/// The user of a session.
#[derive(Debug)]
pub struct AuthenticatedContributor {
    pub username: String,
    pub role: String,
}

/// Whether a session with this role may use the administration pages.
pub fn admin_guard(role: Option<&str>) -> (b: bool)
    ensures
        b == (role matches Some(r) && is_admin(r@)),
{
    proof {
        reveal_strlit("admin");
        assert("admin"@ =~= seq!['a', 'd', 'm', 'i', 'n']);
    }
    match role {
        Some(r) => same_text(r, "admin"),
        None => false,
    }
}

/// Whether a session with this role may use the contributor pages. An
/// administrator is no contributor.
pub fn contributor_guard(role: Option<&str>) -> (b: bool)
    ensures
        b == (role matches Some(r) && r@ == "contributor"@),
{
    match role {
        Some(r) => same_text(r, "contributor"),
        None => false,
    }
}

/// The address that a request comes from: the first entry of the forwarding
/// header where there is one, else the address of the peer.
pub open spec fn request_address(forwarded_for: Option<Seq<char>>, peer: Option<Seq<char>>) -> Option<
    Seq<char>,
> {
    match forwarded_for {
        Some(f) => Some(trimmed_pieces(f, ',')[0]),
        None => peer,
    }
}

/// Whether the administration login is open to a request. It is closed
/// where no list of addresses is configured and where the address of the
/// request is not known; a list that is just `*` opens it to everyone;
/// otherwise the address must be on the comma-separated list.
pub open spec fn login_open(
    allowed: Option<Seq<char>>,
    forwarded_for: Option<Seq<char>>,
    peer: Option<Seq<char>>,
) -> bool {
    match allowed {
        None => false,
        Some(list) => trim_spec(list) == "*"@ || match request_address(forwarded_for, peer) {
            Some(address) => trimmed_pieces(list, ',').contains(address),
            None => false,
        },
    }
}

/// Decides whether the administration login is open to a request.
#[verifier::loop_isolation(false)]
pub fn ip_guard(allowed: Option<&str>, forwarded_for: Option<&str>, peer: Option<&str>) -> (b: bool)
    ensures
        b == login_open(
            crate::content::opt_str(allowed),
            crate::content::opt_str(forwarded_for),
            crate::content::opt_str(peer),
        ),
{
    let list = match allowed {
        Some(l) => l,
        None => {
            return false;
        },
    };
    let trimmed = string_of(&trim_chars(&chars_of(list)));
    if same_text(trimmed.as_str(), "*") {
        return true;
    }
    let address: String = match forwarded_for {
        Some(f) => {
            let pieces = split_trimmed(f, ',');
            proof {
                crate::text::lemma_split_nonempty(f@, ',');
                assert(texts(pieces@).len() == pieces@.len());
                assert(texts(pieces@)[0] == pieces@[0]@);
            }
            pieces[0].clone()
        },
        None => match peer {
            Some(p) => p.to_owned(),
            None => {
                return false;
            },
        },
    };
    let entries = split_trimmed(list, ',');
    let mut i: usize = 0;
    while i < entries.len()
        invariant
            i <= entries.len(),
            forall|k: int| 0 <= k < i ==> texts(entries@)[k] != address@,
        decreases entries.len() - i,
    {
        if entries[i] == address {
            assert(texts(entries@)[i as int] == address@);
            return true;
        }
        i += 1;
    }
    false
}

/// Whether a request to the contributor pages carries the current secret
/// prefix. A request without prefix is turned away.
pub fn prefix_is_current(current: &str, from_url: Option<&str>) -> (b: bool)
    ensures
        b == (from_url matches Some(p) && p@ == current@),
{
    match from_url {
        Some(p) => same_text(p, current),
        None => false,
    }
}

} // verus!
