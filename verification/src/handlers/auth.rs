//! Handlers of the authentication requests.
//!
//! Each handler checks the fields of the request's body, calls the
//! authority, and turns the answer into a response or into the outcome
//! that the client sees. A body that fails the check is a bad request and
//! reaches no service.

use vstd::prelude::*;
use crate::auth::middleware::RequireAuth;
use crate::models::user::UserView;
use crate::schemas::auth_schemas::{
    user_data_of, LoginUserRequest, RegisterUserRequest, UserData, UserDataView, UserResponse,
};
use crate::services::traits::{
    can_issue_at, login_post, refresh_post, register_post, AuthError, AuthServiceTrait,
};
use crate::status::Status;

verus! {

/// What a client sees of a failed registration: a taken name is told
/// apart, every other failure is an internal error.
pub open spec fn register_status(err: AuthError) -> Status {
    match err {
        AuthError::UserAlreadyExists => Status::Conflict,
        _ => Status::InternalServerError,
    }
}

/// What a client sees of a failed login: an unknown email and a wrong
/// password give the same outcome.
pub open spec fn login_status(err: AuthError) -> Status {
    match err {
        AuthError::UserNotFound => Status::Unauthorized,
        AuthError::InvalidPassword => Status::Unauthorized,
        _ => Status::InternalServerError,
    }
}

/// What a client sees of a failed token refresh.
pub open spec fn current_user_status(err: AuthError) -> Status {
    Status::InternalServerError
}

/// The response to a registration, given the authority's answer.
pub open spec fn register_response(session: Result<(UserView, Seq<char>), AuthError>) -> Result<
    UserDataView,
    Status,
> {
    match session {
        Ok((u, t)) => Ok(user_data_of(u, t)),
        Err(e) => Err(register_status(e)),
    }
}

/// The response to a login, given the authority's answer.
pub open spec fn login_response(session: Result<(UserView, Seq<char>), AuthError>) -> Result<
    UserDataView,
    Status,
> {
    match session {
        Ok((u, t)) => Ok(user_data_of(u, t)),
        Err(e) => Err(login_status(e)),
    }
}

/// The response to a token refresh, given the authority's answer.
pub open spec fn current_user_response(
    session: Result<(UserView, Seq<char>), AuthError>,
) -> Result<UserDataView, Status> {
    match session {
        Ok((u, t)) => Ok(user_data_of(u, t)),
        Err(e) => Err(current_user_status(e)),
    }
}

/// The value of a handler's answer.
pub open spec fn response_view(res: Result<UserResponse, Status>) -> Result<UserDataView, Status> {
    match res {
        Ok(r) => Ok(r@),
        Err(s) => Err(s),
    }
}

/// The outcome of a failed registration.
pub fn register_error_status(err: AuthError) -> (status: Status)
    ensures
        status == register_status(err),
{
    match err {
        AuthError::UserAlreadyExists => Status::Conflict,
        AuthError::PasswordHashError => Status::InternalServerError,
        AuthError::TokenGenerationError => Status::InternalServerError,
        AuthError::DatabaseError(_) => Status::InternalServerError,
        _ => Status::InternalServerError,
    }
}

/// The outcome of a failed login.
pub fn login_error_status(err: AuthError) -> (status: Status)
    ensures
        status == login_status(err),
{
    match err {
        AuthError::UserNotFound => Status::Unauthorized,
        AuthError::InvalidPassword => Status::Unauthorized,
        AuthError::PasswordHashError => Status::InternalServerError,
        AuthError::TokenGenerationError => Status::InternalServerError,
        AuthError::DatabaseError(_) => Status::InternalServerError,
        _ => Status::InternalServerError,
    }
}

/// The outcome of a failed token refresh.
pub fn current_user_error_status(err: AuthError) -> (status: Status)
    ensures
        status == current_user_status(err),
{
    match err {
        AuthError::TokenGenerationError => Status::InternalServerError,
        _ => Status::InternalServerError,
    }
}

/// The response for a user and a token.
fn user_response(user: crate::models::user::User, token: String) -> (response: UserResponse)
    ensures
        response@ == user_data_of(user@, token@),
{
    UserResponse { user: UserData::from_user_with_token(user, token) }
}

/// Handles a registration: checks the body, creates the account and
/// answers with the profile and a first token. A body with an empty field
/// is a `BadRequest` and stores nothing.
pub fn register<A: AuthServiceTrait>(auth_service: &mut A, payload: RegisterUserRequest) -> (res:
    Result<UserResponse, Status>)
    ensures
        !payload.user.is_valid() ==> response_view(res) == Err::<UserDataView, Status>(
            Status::BadRequest,
        ) && final(auth_service).users() == old(auth_service).users(),
        payload.user.is_valid() ==> exists|
            now: u64,
            session: Result<(UserView, Seq<char>), AuthError>,
        |
            {
                &&& can_issue_at(now)
                &&& #[trigger] register_post(
                    old(auth_service).users(),
                    old(auth_service).reliable(),
                    old(auth_service).secret(),
                    old(auth_service).cost(),
                    payload.user.username@,
                    payload.user.email@,
                    payload.user.password@,
                    now,
                    session,
                    final(auth_service).users(),
                )
                &&& response_view(res) == register_response(session)
            },
        final(auth_service).reliable() == old(auth_service).reliable(),
        final(auth_service).secret() == old(auth_service).secret(),
        final(auth_service).cost() == old(auth_service).cost(),
{
    if !payload.user.validate() {
        return Err(Status::BadRequest);
    }
    let answer = auth_service.register_user(
        payload.user.username.as_str(),
        payload.user.email.as_str(),
        payload.user.password.as_str(),
    );
    match answer {
        Ok((user, token)) => Ok(user_response(user, token)),
        Err(err) => Err(register_error_status(err)),
    }
}

/// Handles a login: checks the body and the credentials and answers with
/// the profile and a fresh token. A body with an empty field is a
/// `BadRequest`.
pub fn login<A: AuthServiceTrait>(auth_service: &A, payload: LoginUserRequest) -> (res: Result<
    UserResponse,
    Status,
>)
    ensures
        !payload.user.is_valid() ==> response_view(res) == Err::<UserDataView, Status>(
            Status::BadRequest,
        ),
        payload.user.is_valid() ==> exists|
            now: u64,
            session: Result<(UserView, Seq<char>), AuthError>,
        |
            {
                &&& can_issue_at(now)
                &&& #[trigger] login_post(
                    auth_service.users(),
                    auth_service.reliable(),
                    auth_service.secret(),
                    payload.user.email@,
                    payload.user.password@,
                    now,
                    session,
                )
                &&& response_view(res) == login_response(session)
            },
{
    if !payload.user.validate() {
        return Err(Status::BadRequest);
    }
    let answer = auth_service.login_user(
        payload.user.email.as_str(),
        payload.user.password.as_str(),
    );
    match answer {
        Ok((user, token)) => Ok(user_response(user, token)),
        Err(err) => Err(login_error_status(err)),
    }
}

/// Handles "who am I": answers an authenticated request with the profile
/// and a fresh token.
pub fn current_user<A: AuthServiceTrait>(identity: RequireAuth, auth_service: &A) -> (res: Result<
    UserResponse,
    Status,
>)
    ensures
        exists|now: u64, session: Result<(UserView, Seq<char>), AuthError>|
            {
                &&& can_issue_at(now)
                &&& #[trigger] refresh_post(auth_service.secret(), identity.0@, now, session)
                &&& response_view(res) == current_user_response(session)
            },
{
    let answer = auth_service.get_current_user(identity.0);
    match answer {
        Ok((user, token)) => Ok(user_response(user, token)),
        Err(err) => Err(current_user_error_status(err)),
    }
}

} // verus!
