//! What holds of the service as a whole, proved from the contracts of its
//! operations.

use vstd::prelude::*;
use crate::auth::middleware::{header_token, resolve_post, scheme_prefix};
use crate::handlers::auth::{login_response, login_status};
use crate::models::user::UserView;
use crate::password::{is_hash_at, password_matches};
use crate::repositories::traits::{
    create_post, email_taken, update_post, username_taken, users_distinct, StoreError,
};
use crate::services::traits::{
    can_issue_at, login_post, refresh_post, register_post, validate_at, AuthError,
};
use crate::status::Status;
use crate::token::{is_token_for, signed_token, state_at, TokenState, TOKEN_LIFETIME_SECS};

verus! {

/// A token validates from the instant it is issued until its expiry, one
/// hour later, and resolves to the user it was issued to; once the clock
/// has passed the expiry it no longer validates.
pub proof fn issued_token_validity(
    token: Seq<char>,
    secret: Seq<char>,
    user_id: u128,
    issued_at: u64,
    now: u64,
)
    requires
        can_issue_at(issued_at),
        is_token_for(token, secret, user_id, issued_at),
    ensures
        now <= issued_at + TOKEN_LIFETIME_SECS ==> validate_at(token, secret, now) == Ok::<
            u128,
            AuthError,
        >(user_id),
        now > issued_at + TOKEN_LIFETIME_SECS ==> validate_at(token, secret, now) == Err::<
            u128,
            AuthError,
        >(AuthError::TokenValidationError),
{
}

/// A token moves from valid to expired and never back: once it has
/// expired it stays expired, and while it is valid it was valid at every
/// earlier instant.
pub proof fn expiry_is_final(exp: u64, earlier: u64, later: u64)
    requires
        earlier <= later,
    ensures
        state_at(exp, earlier) == TokenState::Expired ==> state_at(exp, later)
            == TokenState::Expired,
        state_at(exp, later) == TokenState::Valid ==> state_at(exp, earlier) == TokenState::Valid,
{
}

/// A token that no longer validates at one instant validates at no later
/// one.
pub proof fn rejected_token_stays_rejected(
    token: Seq<char>,
    secret: Seq<char>,
    earlier: u64,
    later: u64,
)
    requires
        earlier <= later,
        validate_at(token, secret, earlier) is Err,
    ensures
        validate_at(token, secret, later) is Err,
{
}

/// Storing a new account keeps ids, emails and usernames unique.
pub proof fn create_keeps_users_distinct(
    pre: Seq<UserView>,
    reliable: bool,
    username: Seq<char>,
    email: Seq<char>,
    password_hash: Seq<char>,
    res: Result<UserView, StoreError>,
    post: Seq<UserView>,
)
    requires
        users_distinct(pre),
        create_post(pre, reliable, username, email, password_hash, res, post),
    ensures
        users_distinct(post),
{
}

/// A partial update keeps ids, emails and usernames unique.
pub proof fn update_keeps_users_distinct(
    pre: Seq<UserView>,
    reliable: bool,
    id: u128,
    username: Option<Seq<char>>,
    email: Option<Seq<char>>,
    bio: Option<Seq<char>>,
    image: Option<Seq<char>>,
    res: Result<Option<UserView>, StoreError>,
    post: Seq<UserView>,
)
    requires
        users_distinct(pre),
        update_post(pre, reliable, id, username, email, bio, image, res, post),
    ensures
        users_distinct(post),
{
}

/// Storing a new account leaves every record that was there as it was, at
/// its place: no record is ever dropped.
pub proof fn create_keeps_existing_records(
    pre: Seq<UserView>,
    reliable: bool,
    username: Seq<char>,
    email: Seq<char>,
    password_hash: Seq<char>,
    res: Result<UserView, StoreError>,
    post: Seq<UserView>,
)
    requires
        create_post(pre, reliable, username, email, password_hash, res, post),
    ensures
        pre.len() <= post.len() <= pre.len() + 1,
        forall|i: int| 0 <= i < pre.len() ==> #[trigger] post[i] == pre[i],
        res is Err ==> post == pre,
{
}

/// A partial update drops no record and adds none, and never changes the
/// id, the password hash or the creation time of any record; it changes
/// at most the record with the given id.
pub proof fn update_keeps_identities(
    pre: Seq<UserView>,
    reliable: bool,
    id: u128,
    username: Option<Seq<char>>,
    email: Option<Seq<char>>,
    bio: Option<Seq<char>>,
    image: Option<Seq<char>>,
    res: Result<Option<UserView>, StoreError>,
    post: Seq<UserView>,
)
    requires
        update_post(pre, reliable, id, username, email, bio, image, res, post),
    ensures
        post.len() == pre.len(),
        forall|i: int|
            0 <= i < pre.len() ==> {
                &&& (#[trigger] post[i]).id == pre[i].id
                &&& post[i].password_hash == pre[i].password_hash
                &&& post[i].created_at == pre[i].created_at
                &&& pre[i].id != id ==> post[i] == pre[i]
            },
        !(res matches Ok(Some(_))) ==> post == pre,
{
}

/// An update that names no field changes nothing: the store is as before,
/// the record comes back as it was, and no collision is reported.
pub proof fn update_with_nothing_changes_nothing(
    pre: Seq<UserView>,
    reliable: bool,
    id: u128,
    res: Result<Option<UserView>, StoreError>,
    post: Seq<UserView>,
)
    requires
        update_post(
            pre,
            reliable,
            id,
            None::<Seq<char>>,
            None::<Seq<char>>,
            None::<Seq<char>>,
            None::<Seq<char>>,
            res,
            post,
        ),
    ensures
        post == pre,
        res matches Ok(Some(u)) ==> pre.contains(u) && u.id == id,
        res != Err::<Option<UserView>, StoreError>(StoreError::AlreadyExists),
{
}

/// An update of the bio alone sets the bio and leaves the id, the
/// username, the email, the image and the password hash of the record as
/// they were; no other record changes.
pub proof fn update_of_bio_leaves_the_rest(
    pre: Seq<UserView>,
    reliable: bool,
    at: int,
    bio: Seq<char>,
    u: UserView,
    post: Seq<UserView>,
)
    requires
        users_distinct(pre),
        0 <= at < pre.len(),
        update_post(
            pre,
            reliable,
            pre[at].id,
            None::<Seq<char>>,
            None::<Seq<char>>,
            Some(bio),
            None::<Seq<char>>,
            Ok::<Option<UserView>, StoreError>(Some(u)),
            post,
        ),
    ensures
        u.bio == Some(bio),
        u.id == pre[at].id,
        u.username == pre[at].username,
        u.email == pre[at].email,
        u.image == pre[at].image,
        u.password_hash == pre[at].password_hash,
        post == pre.update(at, u),
{
}

/// A successful registration answers with a token that validates at once
/// and resolves to the id of the user that was created.
pub proof fn registration_token_names_the_user(
    pre: Seq<UserView>,
    reliable: bool,
    secret: Seq<char>,
    cost: u32,
    username: Seq<char>,
    email: Seq<char>,
    password: Seq<char>,
    now: u64,
    user: UserView,
    token: Seq<char>,
    post: Seq<UserView>,
)
    requires
        can_issue_at(now),
        register_post(
            pre,
            reliable,
            secret,
            cost,
            username,
            email,
            password,
            now,
            Ok::<(UserView, Seq<char>), AuthError>((user, token)),
            post,
        ),
    ensures
        validate_at(token, secret, now) == Ok::<u128, AuthError>(user.id),
        post.contains(user),
{
}

/// Where neither the email nor the username is taken and the directory
/// answers, a registration fails only if the hasher or the signer fails.
pub proof fn registration_without_collision(
    pre: Seq<UserView>,
    secret: Seq<char>,
    cost: u32,
    username: Seq<char>,
    email: Seq<char>,
    password: Seq<char>,
    now: u64,
    res: Result<(UserView, Seq<char>), AuthError>,
    post: Seq<UserView>,
)
    requires
        !email_taken(pre, email),
        !username_taken(pre, username),
        register_post(pre, true, secret, cost, username, email, password, now, res, post),
    ensures
        res is Ok || res == Err::<(UserView, Seq<char>), AuthError>(AuthError::PasswordHashError)
            || res == Err::<(UserView, Seq<char>), AuthError>(AuthError::TokenGenerationError),
{
}

/// Registration keeps ids, emails and usernames unique, whatever its
/// outcome.
pub proof fn registration_keeps_users_distinct(
    pre: Seq<UserView>,
    reliable: bool,
    secret: Seq<char>,
    cost: u32,
    username: Seq<char>,
    email: Seq<char>,
    password: Seq<char>,
    now: u64,
    res: Result<(UserView, Seq<char>), AuthError>,
    post: Seq<UserView>,
)
    requires
        users_distinct(pre),
        register_post(pre, reliable, secret, cost, username, email, password, now, res, post),
    ensures
        users_distinct(post),
{
}

/// Once an account was stored under an email or a username, a further
/// registration with that email or that username is never accepted and
/// stores nothing; where the directory answers, it is refused as
/// `UserAlreadyExists`.
pub proof fn second_registration_is_refused(
    pre: Seq<UserView>,
    secret: Seq<char>,
    cost: u32,
    username: Seq<char>,
    email: Seq<char>,
    password: Seq<char>,
    now: u64,
    first: Result<(UserView, Seq<char>), AuthError>,
    mid: Seq<UserView>,
    reliable: bool,
    other_username: Seq<char>,
    other_email: Seq<char>,
    other_password: Seq<char>,
    later: u64,
    second: Result<(UserView, Seq<char>), AuthError>,
    post: Seq<UserView>,
)
    requires
        first is Ok || first == Err::<(UserView, Seq<char>), AuthError>(
            AuthError::TokenGenerationError,
        ),
        register_post(pre, true, secret, cost, username, email, password, now, first, mid),
        other_email == email || other_username == username,
        register_post(
            mid,
            reliable,
            secret,
            cost,
            other_username,
            other_email,
            other_password,
            later,
            second,
            post,
        ),
    ensures
        second is Err,
        post == mid,
        reliable ==> second == Err::<(UserView, Seq<char>), AuthError>(
            AuthError::UserAlreadyExists,
        ),
{
}

/// A successful registration answers with a user whose id is not 0 and
/// with a token that is not empty. What it stored is a bcrypt hash made at
/// the authority's work factor; it differs from the password, unless the
/// password itself has the shape of such a hash.
pub proof fn registration_stores_a_hash(
    pre: Seq<UserView>,
    reliable: bool,
    secret: Seq<char>,
    cost: u32,
    username: Seq<char>,
    email: Seq<char>,
    password: Seq<char>,
    now: u64,
    user: UserView,
    token: Seq<char>,
    post: Seq<UserView>,
)
    requires
        register_post(
            pre,
            reliable,
            secret,
            cost,
            username,
            email,
            password,
            now,
            Ok::<(UserView, Seq<char>), AuthError>((user, token)),
            post,
        ),
    ensures
        user.id != 0,
        token.len() > 0,
        user.username == username,
        user.email == email,
        is_hash_at(user.password_hash, cost),
        password_matches(password, user.password_hash) == Some(true),
        !is_hash_at(password, cost) ==> user.password_hash != password,
        password.len() != 60 ==> user.password_hash != password,
{
}

/// Where neither the email nor the username is taken and the directory
/// answers, a registration that the hasher does not fail is decided by the
/// signer alone: it stores the account in any case, and fails, as
/// `TokenGenerationError`, exactly where the signer gives no token for the
/// new id.
pub proof fn registration_after_hashing(
    pre: Seq<UserView>,
    secret: Seq<char>,
    cost: u32,
    username: Seq<char>,
    email: Seq<char>,
    password: Seq<char>,
    now: u64,
    res: Result<(UserView, Seq<char>), AuthError>,
    post: Seq<UserView>,
)
    requires
        !email_taken(pre, email),
        !username_taken(pre, username),
        register_post(pre, true, secret, cost, username, email, password, now, res, post),
        res != Err::<(UserView, Seq<char>), AuthError>(AuthError::PasswordHashError),
    ensures
        post.len() == pre.len() + 1,
        post.last().email == email && post.last().username == username,
        res is Ok <==> signed_token(post.last().id, now, secret) is Some,
        res is Err ==> res == Err::<(UserView, Seq<char>), AuthError>(
            AuthError::TokenGenerationError,
        ),
{
}

/// Issuing a fresh token to an authenticated user fails exactly where the
/// signer gives no token, and otherwise answers with that user and a
/// token that validates at once.
pub proof fn refresh_is_decided_by_the_signer(
    secret: Seq<char>,
    user: UserView,
    now: u64,
    res: Result<(UserView, Seq<char>), AuthError>,
)
    requires
        can_issue_at(now),
        refresh_post(secret, user, now, res),
    ensures
        res is Ok <==> signed_token(user.id, now, secret) is Some,
        res matches Ok((u, t)) ==> u == user && validate_at(t, secret, now) == Ok::<
            u128,
            AuthError,
        >(user.id),
{
}

/// A user whose stored hash the password verifies against can log in:
/// where the directory answers, login succeeds exactly where the signer
/// gives a token, and fails as `TokenGenerationError` where it gives none.
/// A login that succeeds answers with that very user and a token that
/// validates at once and resolves to the user's id.
pub proof fn login_with_the_right_password(
    users: Seq<UserView>,
    secret: Seq<char>,
    user: UserView,
    password: Seq<char>,
    now: u64,
    res: Result<(UserView, Seq<char>), AuthError>,
)
    requires
        can_issue_at(now),
        users_distinct(users),
        users.contains(user),
        password_matches(password, user.password_hash) == Some(true),
        login_post(users, true, secret, user.email, password, now, res),
    ensures
        res matches Ok((u, t)) ==> u == user && validate_at(t, secret, now) == Ok::<
            u128,
            AuthError,
        >(user.id),
        res is Err ==> res == Err::<(UserView, Seq<char>), AuthError>(
            AuthError::TokenGenerationError,
        ),
        res is Ok <==> signed_token(user.id, now, secret) is Some,
{
}

/// A login with a password that the stored hash does not verify never
/// succeeds. Where the directory answers it fails as `InvalidPassword`,
/// which the client sees as `Unauthorized`: the same outcome as for an
/// email that no account has.
pub proof fn login_with_a_wrong_password(
    users: Seq<UserView>,
    reliable: bool,
    secret: Seq<char>,
    user: UserView,
    password: Seq<char>,
    now: u64,
    res: Result<(UserView, Seq<char>), AuthError>,
)
    requires
        users_distinct(users),
        users.contains(user),
        password_matches(password, user.password_hash) == Some(false),
        login_post(users, reliable, secret, user.email, password, now, res),
    ensures
        res is Err,
        reliable ==> res == Err::<(UserView, Seq<char>), AuthError>(AuthError::InvalidPassword),
        reliable ==> login_response(res) == Err::<
            crate::schemas::auth_schemas::UserDataView,
            Status,
        >(Status::Unauthorized),
        login_status(AuthError::InvalidPassword) == login_status(AuthError::UserNotFound),
{
}

/// A login for an email that no account has fails as `UserNotFound` where
/// the directory answers, which the client sees as `Unauthorized`.
pub proof fn login_with_an_unknown_email(
    users: Seq<UserView>,
    reliable: bool,
    secret: Seq<char>,
    email: Seq<char>,
    password: Seq<char>,
    now: u64,
    res: Result<(UserView, Seq<char>), AuthError>,
)
    requires
        !email_taken(users, email),
        login_post(users, reliable, secret, email, password, now, res),
    ensures
        res is Err,
        reliable ==> res == Err::<(UserView, Seq<char>), AuthError>(AuthError::UserNotFound),
        reliable ==> login_response(res) == Err::<
            crate::schemas::auth_schemas::UserDataView,
            Status,
        >(Status::Unauthorized),
{
}

/// A request whose header carries, after the scheme prefix, a token issued
/// to a stored user resolves to that user until the token expires, and is
/// `Unauthorized` from then on, where the directory answers.
pub proof fn resolver_follows_the_token(
    users: Seq<UserView>,
    secret: Seq<char>,
    user: UserView,
    token: Seq<char>,
    issued_at: u64,
    now: u64,
    res: Result<UserView, Status>,
)
    requires
        can_issue_at(issued_at),
        users_distinct(users),
        users.contains(user),
        is_token_for(token, secret, user.id, issued_at),
        resolve_post(users, true, secret, Some(scheme_prefix() + token), now, res),
    ensures
        now <= issued_at + TOKEN_LIFETIME_SECS ==> res == Ok::<UserView, Status>(user),
        now > issued_at + TOKEN_LIFETIME_SECS ==> res == Err::<UserView, Status>(
            Status::Unauthorized,
        ),
{
    // The header takes apart into the prefix and the token.
    let header = scheme_prefix() + token;
    assert(header.subrange(0, 6) =~= scheme_prefix());
    assert(header.subrange(6, header.len() as int) =~= token);
}

/// A request without a well-formed header, or with a token that does not
/// validate, is `Unauthorized`, whatever the directory holds and whether
/// or not it answers.
pub proof fn resolver_rejects_without_a_valid_token(
    users: Seq<UserView>,
    reliable: bool,
    secret: Seq<char>,
    authorization: Option<Seq<char>>,
    now: u64,
    res: Result<UserView, Status>,
)
    requires
        header_token(authorization) matches Some(t) ==> validate_at(t, secret, now) is Err,
        resolve_post(users, reliable, secret, authorization, now, res),
    ensures
        res == Err::<UserView, Status>(Status::Unauthorized),
{
}

} // verus!
