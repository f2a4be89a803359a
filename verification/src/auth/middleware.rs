//! The identity resolver: from an authorization header to a user.

use vstd::prelude::*;
use vstd::string::StrSliceExecFns;
use crate::models::user::{opt_str, opt_text, User, UserView};
use crate::repositories::traits::{found_view, id_taken, StoreError};
use crate::services::traits::{validate_at, AuthError, AuthServiceTrait, UserServiceTrait};
use crate::status::Status;

verus! {

/// The authenticated identity of one request: the user that its token
/// resolved to.
#[derive(Debug)]
pub struct RequireAuth(pub User);

/// The scheme keyword and the blank that every authorization header must
/// begin with.
pub open spec fn scheme_prefix() -> Seq<char> {
    seq!['T', 'o', 'k', 'e', 'n', ' ']
}

/// The token that a header carries: what follows the exact prefix
/// `Token `, upper and lower case as written, with nothing trimmed.
pub open spec fn bearer_token(header: Seq<char>) -> Option<Seq<char>> {
    if header.len() >= 6 && header.subrange(0, 6) == scheme_prefix() {
        Some(header.subrange(6, header.len() as int))
    } else {
        None
    }
}

/// The token that an optional header carries.
pub open spec fn header_token(authorization: Option<Seq<char>>) -> Option<Seq<char>> {
    match authorization {
        Some(h) => bearer_token(h),
        None => None,
    }
}

/// Takes the bearer token out of the authorization header, if the header
/// is there and well formed.
pub fn extract_token_from_headers(authorization: Option<&str>) -> (token: Option<String>)
    ensures
        opt_text(token) == header_token(opt_str(authorization)),
{
    let header = match authorization {
        Some(h) => h,
        None => {
            return None;
        },
    };
    let n = header.unicode_len();
    if n < 6 {
        return None;
    }
    if header.get_char(0) != 'T' || header.get_char(1) != 'o' || header.get_char(2) != 'k'
        || header.get_char(3) != 'e' || header.get_char(4) != 'n' || header.get_char(5) != ' ' {
        return None;
    }
    assert(header@.subrange(0, 6) =~= scheme_prefix());
    Some(header.substring_char(6, n).to_owned())
}

/// The outcome of resolving a request at `now`. A missing or malformed
/// header, a token that does not validate, and a valid token whose user is
/// gone all give `Unauthorized`; only a store failure gives
/// `InternalServerError`.
pub open spec fn resolve_post(
    users: Seq<UserView>,
    reliable: bool,
    secret: Seq<char>,
    authorization: Option<Seq<char>>,
    now: u64,
    res: Result<UserView, Status>,
) -> bool {
    match header_token(authorization) {
        None => res == Err::<UserView, Status>(Status::Unauthorized),
        Some(t) => match validate_at(t, secret, now) {
            Err(_) => res == Err::<UserView, Status>(Status::Unauthorized),
            Ok(id) => match res {
                Ok(u) => users.contains(u) && u.id == id,
                Err(Status::Unauthorized) => !id_taken(users, id),
                Err(Status::InternalServerError) => !reliable,
                Err(_) => false,
            },
        },
    }
}

/// The value of a resolver's answer.
pub open spec fn identity_view(res: Result<RequireAuth, Status>) -> Result<UserView, Status> {
    match res {
        Ok(identity) => Ok(identity.0@),
        Err(s) => Err(s),
    }
}

/// What the resolver makes of the authority's verdict on a token: every
/// failure is `Unauthorized`.
pub open spec fn verdict_subject(validated: Result<u128, AuthError>) -> Result<u128, Status> {
    match validated {
        Ok(id) => Ok(id),
        Err(_) => Err(Status::Unauthorized),
    }
}

/// What the resolver makes of the directory's answer for a validated id:
/// a user who is gone is `Unauthorized` like a missing token; only a store
/// failure is an `InternalServerError`.
pub open spec fn admission(found: Result<Option<UserView>, StoreError>) -> Result<
    UserView,
    Status,
> {
    match found {
        Ok(Some(u)) => Ok(u),
        Ok(None) => Err(Status::Unauthorized),
        Err(_) => Err(Status::InternalServerError),
    }
}

impl RequireAuth {
    /// Turns the authority's verdict on a token into the resolver's; see
    /// [`verdict_subject`].
    pub fn subject_or_reject(validated: Result<u128, AuthError>) -> (res: Result<u128, Status>)
        ensures
            res == verdict_subject(validated),
    {
        match validated {
            Ok(id) => Ok(id),
            Err(_) => Err(Status::Unauthorized),
        }
    }

    /// Turns the directory's answer for a validated id into the resolved
    /// identity; see [`admission`].
    pub fn from_lookup(found: Result<Option<User>, StoreError>) -> (res: Result<RequireAuth, Status>)
        ensures
            identity_view(res) == admission(found_view(found)),
    {
        match found {
            Ok(Some(user)) => Ok(RequireAuth(user)),
            Ok(None) => Err(Status::Unauthorized),
            Err(_) => Err(Status::InternalServerError),
        }
    }

    /// Resolves the identity of a request from its authorization header:
    /// extracts the token, has the authority validate it, and loads the
    /// user from the directory. No service is called for a request without
    /// a well-formed header.
    pub fn from_request_parts<A: AuthServiceTrait, S: UserServiceTrait>(
        authorization: Option<&str>,
        auth_service: &A,
        user_service: &S,
    ) -> (res: Result<RequireAuth, Status>)
        ensures
            exists|now: u64| #[trigger]
                resolve_post(
                    user_service.users(),
                    user_service.reliable(),
                    auth_service.secret(),
                    opt_str(authorization),
                    now,
                    identity_view(res),
                ),
    {
        let token = match extract_token_from_headers(authorization) {
            Some(t) => t,
            None => {
                assert(resolve_post(
                    user_service.users(),
                    user_service.reliable(),
                    auth_service.secret(),
                    opt_str(authorization),
                    0,
                    Err(Status::Unauthorized),
                ));
                return Err(Status::Unauthorized);
            },
        };
        let validated = auth_service.validate_token(token.as_str());
        // the instant at which the authority judged the token
        let ghost now = choose|now: u64|
            validated == #[trigger] validate_at(token@, auth_service.secret(), now);
        let res = match RequireAuth::subject_or_reject(validated) {
            Ok(user_id) => RequireAuth::from_lookup(user_service.find_user_by_id(user_id)),
            Err(status) => Err(status),
        };
        assert(resolve_post(
            user_service.users(),
            user_service.reliable(),
            auth_service.secret(),
            opt_str(authorization),
            now,
            identity_view(res),
        ));
        res
    }
}

} // verus!
