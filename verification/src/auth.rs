use vstd::prelude::*;
use crate::config::starts_with;
use crate::errors::DomainError;
use crate::ids::{parse_uuid, uuid_parsed, uuid_text, UserId};

verus! {

/// The user that an `Authorization` header names: a `Bearer ` token that is
/// a UUID. A missing header, another scheme or a token that is not a UUID is
/// unauthorized.
pub open spec fn bearer_user(header: Option<Seq<char>>) -> Result<UserId, DomainError> {
    match header {
        None => Err(DomainError::Unauthorized),
        Some(h) => if !starts_with(h, "Bearer "@) {
            Err(DomainError::Unauthorized)
        } else {
            match uuid_parsed(h.subrange("Bearer "@.len() as int, h.len() as int)) {
                Some(v) => Ok(UserId(v)),
                None => Err(DomainError::Unauthorized),
            }
        },
    }
}

/// The user that an `Authorization` header names (before the profile service
/// confirms it). A header holding `Bearer ` and the hyphenated text of a UUID
/// names that UUID.
pub fn user_from_authorization(header: Option<&str>) -> (r: Result<UserId, DomainError>)
    ensures
        r == bearer_user(match header { Some(h) => Some(h@), None => None }),
        forall|v: u128| #![trigger uuid_text(v)] (header is Some && header->0@ == "Bearer "@ + uuid_text(v))
            ==> r == Ok::<UserId, DomainError>(UserId(v)),
{
    match header {
        None => Err(DomainError::Unauthorized),
        Some(h) => {
            let n = h.unicode_len();
            let plen = "Bearer ".unicode_len();
            proof {
                assert forall|v: u128| #![trigger uuid_text(v)] h@ == "Bearer "@ + uuid_text(v) implies
                    plen <= n && h@.subrange(0, plen as int) == "Bearer "@ by {
                    assert(h@.subrange(0, plen as int) =~= "Bearer "@);
                }
            }
            if plen > n {
                return Err(DomainError::Unauthorized);
            }
            let head = h.substring_char(0, plen);
            if !crate::content::str_equal(head, "Bearer ") {
                return Err(DomainError::Unauthorized);
            }
            let token = h.substring_char(plen, n);
            proof {
                assert forall|v: u128| #![trigger uuid_text(v)] h@ == "Bearer "@ + uuid_text(v) implies uuid_text(v) == token@ by {
                    assert(token@ =~= uuid_text(v));
                }
            }
            match parse_uuid(token) {
                Some(v) => Ok(UserId(v)),
                None => Err(DomainError::Unauthorized),
            }
        },
    }
}

} // verus!
